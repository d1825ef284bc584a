use vstd::prelude::*;
use vstd::pervasive::unreached;
use crate::config::Config;
use crate::errors::{LibraryError, OpError};
use crate::install::InstallMachine;
use crate::paths::{
    extra_base, footprints_dir, library_base, path_join, spec_extra_base, spec_footprints_dir,
    spec_library_base, spec_path_join, spec_symbols_dir, symbols_dir,
};
use crate::registry::{load_installed, spec_load_installed, Libraries, LoadOutcome};

verus! {

/// Where an uninstall invocation stands. As with an install, every
/// transition is forward-only and a failure is terminal.
#[derive(Debug, PartialEq)]
pub enum UninstallState {
    LoadingInstalled,
    Removing { installed: Libraries },
    Persisting,
    Done,
    Failed { error: OpError },
}

/// What the driver of an uninstall must do next.
#[derive(Debug, PartialEq)]
pub enum UninstallAction {
    LoadInstalled { path: String },
    RemovePaths { fetched: String, symbols: String, footprints: String },
    Persist { path: String, record: Libraries },
    Fail { error: OpError },
    Finish,
}

/// What one recursive removal reported: the tree was removed, it was
/// already absent, or the removal failed outright.
#[derive(Clone, Copy, Debug, PartialEq, Eq, Structural)]
pub enum RemoveOutcome {
    Removed,
    AlreadyAbsent,
    Failed,
}

/// Whether performing the action writes to the filesystem.
pub open spec fn uninstall_action_mutates_fs(a: UninstallAction) -> bool {
    match a {
        UninstallAction::RemovePaths { .. } => true,
        UninstallAction::Persist { .. } => true,
        _ => false,
    }
}

/// The uninstall workflow as a state machine: check the installed
/// record, remove the three trees the install created, remove the record
/// entry, persist. Eligibility is gated on the installed record alone, so
/// a library dropped from the registry can still be uninstalled.
pub struct UninstallMachine {
    pub query: String,
    pub installed_path: String,
    pub extra_base: String,
    pub lib_base: String,
    pub state: UninstallState,
}

impl UninstallMachine {
    /// The machine's configuration never changes across transitions.
    pub open spec fn same_setup(self, other: UninstallMachine) -> bool {
        &&& self.query == other.query
        &&& self.installed_path == other.installed_path
        &&& self.extra_base == other.extra_base
        &&& self.lib_base == other.lib_base
    }

    /// The fetched source tree this uninstall removes.
    pub open spec fn fetched_path(self) -> Seq<char> {
        spec_path_join(self.extra_base@, self.query@)
    }

    /// The managed symbols subtree this uninstall removes.
    pub open spec fn symbols_target(self) -> Seq<char> {
        spec_symbols_dir(self.lib_base@, self.query@)
    }

    /// The managed footprints subtree this uninstall removes.
    pub open spec fn footprints_target(self) -> Seq<char> {
        spec_footprints_dir(self.lib_base@, self.query@)
    }

    /// What holds of the machine between transitions: once removal is
    /// under way, the installed record is well-formed and holds the
    /// queried name.
    pub open spec fn inv(self) -> bool {
        match self.state {
            UninstallState::Removing { installed } => installed.wf()
                && installed@.contains_key(self.query@),
            _ => true,
        }
    }

    /// Begins an uninstall of `query`: the machine starts by asking for
    /// the installed record, read from the configured installed path.
    pub fn uninstall(config: &Config, global: bool, home: &str, query: &str) -> (r: (
        UninstallMachine,
        UninstallAction,
    ))
        ensures
            r.0.query@ == query@,
            r.0.installed_path@ == config.installed@,
            r.0.extra_base@ == spec_extra_base(home@),
            r.0.lib_base@ == spec_library_base(home@, global),
            r.0.state is LoadingInstalled,
            r.0.inv(),
            (r.1 matches UninstallAction::LoadInstalled { path } && path@ == config.installed@),
    {
        let m = UninstallMachine {
            query: query.to_owned(),
            installed_path: config.installed.clone(),
            extra_base: extra_base(home),
            lib_base: library_base(home, global),
            state: UninstallState::LoadingInstalled,
        };
        let a = UninstallAction::LoadInstalled { path: config.installed.clone() };
        (m, a)
    }

    /// Step 1: the installed record arrived. Uninstalling a name the
    /// record does not hold always fails here, before any filesystem
    /// mutation; a malformed record file is terminal too. Otherwise the
    /// machine asks for the removal of the three trees the install
    /// created.
    pub fn on_installed_loaded(&mut self, outcome: LoadOutcome) -> (a: UninstallAction)
        requires
            old(self).state is LoadingInstalled,
            old(self).inv(),
        ensures
            final(self).same_setup(*old(self)),
            final(self).inv(),
            match spec_load_installed(outcome) {
                Err(e) => final(self).state == (UninstallState::Failed { error: e }) && a == (
                UninstallAction::Fail { error: e }) && !uninstall_action_mutates_fs(a),
                Ok(inst) => if !inst.contains_key(old(self).query@) {
                    final(self).state == (UninstallState::Failed {
                        error: OpError::Library(LibraryError::LibraryNotInstalledError),
                    }) && a == (UninstallAction::Fail {
                        error: OpError::Library(LibraryError::LibraryNotInstalledError),
                    }) && !uninstall_action_mutates_fs(a)
                } else {
                    (final(self).state matches UninstallState::Removing { installed }
                        && installed.wf() && installed@ == inst) && (a
                        matches UninstallAction::RemovePaths { fetched, symbols, footprints }
                        && fetched@ == old(self).fetched_path() && symbols@ == old(
                        self,
                    ).symbols_target() && footprints@ == old(self).footprints_target())
                },
            },
    {
        let installed = match load_installed(outcome) {
            Ok(r) => r,
            Err(e) => {
                self.state = UninstallState::Failed { error: e };
                return UninstallAction::Fail { error: e };
            },
        };
        if !installed.contains_name(&self.query) {
            let e = OpError::Library(LibraryError::LibraryNotInstalledError);
            self.state = UninstallState::Failed { error: e };
            return UninstallAction::Fail { error: e };
        }
        let fetched = path_join(self.extra_base.as_str(), self.query.as_str());
        let symbols = symbols_dir(self.lib_base.as_str(), self.query.as_str());
        let footprints = footprints_dir(self.lib_base.as_str(), self.query.as_str());
        self.state = UninstallState::Removing { installed };
        UninstallAction::RemovePaths { fetched, symbols, footprints }
    }

    /// Step 2: the three removals reported back. Each is independent,
    /// and a target that was already absent counts as removed, so the
    /// phase succeeds exactly when none of the three failed outright.
    /// On success the machine drops the entry from the record and hands
    /// the shrunken record over to be persisted in full.
    pub fn on_removed(
        &mut self,
        fetched: RemoveOutcome,
        symbols: RemoveOutcome,
        footprints: RemoveOutcome,
    ) -> (a: UninstallAction)
        requires
            old(self).state is Removing,
            old(self).inv(),
        ensures
            final(self).same_setup(*old(self)),
            final(self).inv(),
            ({
                let installed = old(self).state->Removing_installed;
                if fetched is Failed || symbols is Failed || footprints is Failed {
                    final(self).state == (UninstallState::Failed { error: OpError::IoError }) && a
                        == (UninstallAction::Fail { error: OpError::IoError })
                } else {
                    final(self).state is Persisting && (a matches UninstallAction::Persist {
                        path,
                        record,
                    } && path@ == old(self).installed_path@ && record.wf() && record@
                        == installed@.remove(old(self).query@))
                }
            }),
    {
        let any_failed = matches!(fetched, RemoveOutcome::Failed) || matches!(
            symbols,
            RemoveOutcome::Failed,
        ) || matches!(footprints, RemoveOutcome::Failed);
        if any_failed {
            self.state = UninstallState::Failed { error: OpError::IoError };
            return UninstallAction::Fail { error: OpError::IoError };
        }
        let mut prev = UninstallState::Done;
        core::mem::swap(&mut self.state, &mut prev);
        let mut installed = match prev {
            UninstallState::Removing { installed } => installed,
            _ => unreached(),
        };
        let name = self.query.clone();
        let removed = installed.remove(&name);
        proof {
            assert(removed is Some);
        }
        self.state = UninstallState::Persisting;
        UninstallAction::Persist { path: self.installed_path.clone(), record: installed }
    }

    /// Step 3: the record write finished. Success completes the
    /// uninstall; a write failure is terminal and leaves the filesystem
    /// already cleaned but the record stale.
    pub fn on_persisted(&mut self, ok: bool) -> (a: UninstallAction)
        requires
            old(self).state is Persisting,
            old(self).inv(),
        ensures
            final(self).same_setup(*old(self)),
            final(self).inv(),
            !uninstall_action_mutates_fs(a),
            if ok {
                final(self).state is Done && a is Finish
            } else {
                final(self).state == (UninstallState::Failed { error: OpError::IoError }) && a == (
                UninstallAction::Fail { error: OpError::IoError })
            },
    {
        if ok {
            self.state = UninstallState::Done;
            UninstallAction::Finish
        } else {
            self.state = UninstallState::Failed { error: OpError::IoError };
            UninstallAction::Fail { error: OpError::IoError }
        }
    }
}

/// Law: an uninstall aims at exactly the three trees the matching
/// install creates — the fetched source tree, the symbols subtree and
/// the footprints subtree — whenever the two machines share the same
/// roots and the same query.
pub proof fn lemma_uninstall_removes_what_install_creates(im: InstallMachine, um: UninstallMachine)
    requires
        im.extra_base@ == um.extra_base@,
        im.lib_base@ == um.lib_base@,
        im.query@ == um.query@,
    ensures
        um.fetched_path() == im.fetched_path(),
        um.symbols_target() == im.symbols_dest(),
        um.footprints_target() == im.footprints_dest(),
{
}

} // verus!
