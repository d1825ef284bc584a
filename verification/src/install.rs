use vstd::prelude::*;
use vstd::pervasive::unreached;
use crate::config::Config;
use crate::errors::{LibraryError, OpError};
use crate::library::Library;
use crate::paths::{
    extra_base, footprints_dir, library_base, path_join, spec_extra_base, spec_footprints_dir,
    spec_library_base, spec_path_join, spec_symbols_dir, symbols_dir,
};
use crate::plan::{
    footprint_copy_plan, name_views, op_views, spec_footprint_plan, spec_symbol_plan,
    symbol_copy_plan, CopyOp, CopyOpView,
};
use crate::registry::{
    load_installed, load_registry, search, spec_load_installed, spec_load_registry, Libraries,
    LoadOutcome,
};
use crate::library::LibraryView;

verus! {

/// Where an install invocation stands. Every transition is forward-only:
/// a failure at any state is terminal for the invocation, and nothing
/// rolls back what earlier states already did.
#[derive(Debug, PartialEq)]
pub enum InstallState {
    LoadingRegistry,
    LoadingInstalled { library: Library },
    Fetching { library: Library, installed: Libraries },
    Listing { library: Library, installed: Libraries },
    CreatingDirs { library: Library, installed: Libraries, ops: Vec<CopyOp> },
    Copying { library: Library, installed: Libraries },
    Persisting,
    Done,
    Failed { error: OpError },
}

/// What the driver of an install must do next. The driver performs the
/// action against the real filesystem and hands the outcome back to the
/// machine; `Fail` and `Finish` end the invocation.
#[derive(Debug, PartialEq)]
pub enum InstallAction {
    LoadRegistry { path: String },
    LoadInstalled { path: String },
    Fetch { url: String, dest: String },
    ListDirs { symbols: String, footprints: String },
    CreateDirs { symbols: String, footprints: String },
    RunCopies { ops: Vec<CopyOp> },
    Persist { path: String, record: Libraries },
    Fail { error: OpError },
    Finish,
}

/// Whether performing the action writes to the filesystem. Loading and
/// listing only read; failing and finishing do nothing at all.
pub open spec fn install_action_mutates_fs(a: InstallAction) -> bool {
    match a {
        InstallAction::Fetch { .. } => true,
        InstallAction::CreateDirs { .. } => true,
        InstallAction::RunCopies { .. } => true,
        InstallAction::Persist { .. } => true,
        _ => false,
    }
}

/// The install workflow as a state machine: resolve the query, check the
/// installed record, fetch the source, classify and copy the fetched
/// files, record the installation, persist the record. The driver owns
/// all I/O; the machine owns every decision.
pub struct InstallMachine {
    pub query: String,
    pub registry_path: String,
    pub installed_path: String,
    pub extra_base: String,
    pub lib_base: String,
    pub state: InstallState,
}

impl InstallMachine {
    /// The machine's configuration never changes across transitions.
    pub open spec fn same_setup(self, other: InstallMachine) -> bool {
        &&& self.query == other.query
        &&& self.registry_path == other.registry_path
        &&& self.installed_path == other.installed_path
        &&& self.extra_base == other.extra_base
        &&& self.lib_base == other.lib_base
    }

    /// Where the fetched source tree of the queried library lands.
    pub open spec fn fetched_path(self) -> Seq<char> {
        spec_path_join(self.extra_base@, self.query@)
    }

    /// The managed symbols subtree this install populates.
    pub open spec fn symbols_dest(self) -> Seq<char> {
        spec_symbols_dir(self.lib_base@, self.query@)
    }

    /// The managed footprints subtree this install populates.
    pub open spec fn footprints_dest(self) -> Seq<char> {
        spec_footprints_dir(self.lib_base@, self.query@)
    }

    /// The fetched directory whose entries are symbol candidates.
    pub open spec fn symbols_src(self, library: LibraryView) -> Seq<char> {
        spec_path_join(self.fetched_path(), library.symbols_path)
    }

    /// The fetched directory whose entries are footprint candidates.
    pub open spec fn footprints_src(self, library: LibraryView) -> Seq<char> {
        spec_path_join(self.fetched_path(), library.footprints_path)
    }

    /// The whole copy phase: the symbol plan, then the footprint plan.
    pub open spec fn plan_view(
        self,
        library: LibraryView,
        syms: Seq<Seq<char>>,
        fps: Seq<Seq<char>>,
    ) -> Seq<CopyOpView> {
        spec_symbol_plan(syms, self.symbols_src(library), self.symbols_dest())
            + spec_footprint_plan(fps, self.footprints_src(library), self.footprints_dest())
    }

    /// What holds of the machine between transitions: the resolved
    /// library carries the queried name, and as long as the filesystem
    /// is being mutated the installed record is well-formed and does not
    /// yet hold that name.
    pub open spec fn inv(self) -> bool {
        match self.state {
            InstallState::LoadingInstalled { library } => library@.name == self.query@,
            InstallState::Fetching { library, installed } => library@.name == self.query@
                && installed.wf() && !installed@.contains_key(library@.name),
            InstallState::Listing { library, installed } => library@.name == self.query@
                && installed.wf() && !installed@.contains_key(library@.name),
            InstallState::CreatingDirs { library, installed, ops } => library@.name == self.query@
                && installed.wf() && !installed@.contains_key(library@.name),
            InstallState::Copying { library, installed } => library@.name == self.query@
                && installed.wf() && !installed@.contains_key(library@.name),
            _ => true,
        }
    }

    /// Begins an install of `query`: the machine starts by asking for
    /// the registry, read from the configured registry path.
    pub fn install(config: &Config, global: bool, home: &str, query: &str) -> (r: (
        InstallMachine,
        InstallAction,
    ))
        ensures
            r.0.query@ == query@,
            r.0.registry_path@ == config.libraries@,
            r.0.installed_path@ == config.installed@,
            r.0.extra_base@ == spec_extra_base(home@),
            r.0.lib_base@ == spec_library_base(home@, global),
            r.0.state is LoadingRegistry,
            r.0.inv(),
            (r.1 matches InstallAction::LoadRegistry { path } && path@ == config.libraries@),
    {
        let m = InstallMachine {
            query: query.to_owned(),
            registry_path: config.libraries.clone(),
            installed_path: config.installed.clone(),
            extra_base: extra_base(home),
            lib_base: library_base(home, global),
            state: InstallState::LoadingRegistry,
        };
        let a = InstallAction::LoadRegistry { path: config.libraries.clone() };
        (m, a)
    }

    /// Step 1: the registry arrived (or did not). A missing or malformed
    /// registry, and a query no registry key matches exactly, are each
    /// terminal; otherwise the machine holds the resolved library and
    /// asks for the installed record.
    pub fn on_registry_loaded(&mut self, outcome: LoadOutcome) -> (a: InstallAction)
        requires
            old(self).state is LoadingRegistry,
            old(self).inv(),
        ensures
            final(self).same_setup(*old(self)),
            final(self).inv(),
            !install_action_mutates_fs(a),
            match spec_load_registry(outcome) {
                Err(e) => final(self).state == (InstallState::Failed { error: e }) && a == (
                InstallAction::Fail { error: e }),
                Ok(reg) => if !reg.contains_key(old(self).query@) {
                    final(self).state == (InstallState::Failed {
                        error: OpError::Library(LibraryError::LibraryNotFoundError),
                    }) && a == (InstallAction::Fail {
                        error: OpError::Library(LibraryError::LibraryNotFoundError),
                    })
                } else {
                    (final(self).state matches InstallState::LoadingInstalled { library }
                        && library@ == reg[old(self).query@]) && (a
                        matches InstallAction::LoadInstalled { path } && path@ == old(
                        self,
                    ).installed_path@)
                },
            },
    {
        let reg = match load_registry(outcome) {
            Ok(r) => r,
            Err(e) => {
                self.state = InstallState::Failed { error: e };
                return InstallAction::Fail { error: e };
            },
        };
        match search(&reg, self.query.as_str()) {
            Some(library) => {
                self.state = InstallState::LoadingInstalled { library };
                InstallAction::LoadInstalled { path: self.installed_path.clone() }
            },
            None => {
                let e = OpError::Library(LibraryError::LibraryNotFoundError);
                self.state = InstallState::Failed { error: e };
                InstallAction::Fail { error: e }
            },
        }
    }

    /// Step 2: the installed record arrived. Installing a name that is
    /// already recorded always fails here, before any filesystem
    /// mutation; an absent record file counts as the empty record.
    /// Otherwise the machine asks for the fetch of the library's source
    /// into the fetched-tree path for the query.
    pub fn on_installed_loaded(&mut self, outcome: LoadOutcome) -> (a: InstallAction)
        requires
            old(self).state is LoadingInstalled,
            old(self).inv(),
        ensures
            final(self).same_setup(*old(self)),
            final(self).inv(),
            ({
                let library = old(self).state->LoadingInstalled_library;
                match spec_load_installed(outcome) {
                    Err(e) => final(self).state == (InstallState::Failed { error: e }) && a == (
                    InstallAction::Fail { error: e }) && !install_action_mutates_fs(a),
                    Ok(inst) => if inst.contains_key(library@.name) {
                        final(self).state == (InstallState::Failed {
                            error: OpError::Library(LibraryError::LibraryInstalledError),
                        }) && a == (InstallAction::Fail {
                            error: OpError::Library(LibraryError::LibraryInstalledError),
                        }) && !install_action_mutates_fs(a)
                    } else {
                        (final(self).state matches InstallState::Fetching {
                            library: l,
                            installed,
                        } && l == library && installed.wf() && installed@ == inst) && (a
                            matches InstallAction::Fetch { url, dest } && url@ == library@.url
                            && dest@ == old(self).fetched_path())
                    },
                }
            }),
    {
        let mut prev = InstallState::Done;
        core::mem::swap(&mut self.state, &mut prev);
        let library = match prev {
            InstallState::LoadingInstalled { library } => library,
            _ => unreached(),
        };
        let installed = match load_installed(outcome) {
            Ok(r) => r,
            Err(e) => {
                self.state = InstallState::Failed { error: e };
                return InstallAction::Fail { error: e };
            },
        };
        if installed.contains_name(&library.name) {
            let e = OpError::Library(LibraryError::LibraryInstalledError);
            self.state = InstallState::Failed { error: e };
            return InstallAction::Fail { error: e };
        }
        let url = library.url.clone();
        let dest = path_join(self.extra_base.as_str(), self.query.as_str());
        self.state = InstallState::Fetching { library, installed };
        InstallAction::Fetch { url, dest }
    }

    /// Step 3: the fetch finished. A failed clone is terminal; a
    /// successful one has the machine ask for the listing of the two
    /// fetched subdirectories named by the library record.
    pub fn on_fetched(&mut self, ok: bool) -> (a: InstallAction)
        requires
            old(self).state is Fetching,
            old(self).inv(),
        ensures
            final(self).same_setup(*old(self)),
            final(self).inv(),
            !install_action_mutates_fs(a),
            ({
                let library = old(self).state->Fetching_library;
                let installed = old(self).state->Fetching_installed;
                if !ok {
                    final(self).state == (InstallState::Failed { error: OpError::FetchError })
                        && a == (InstallAction::Fail { error: OpError::FetchError })
                } else {
                    (final(self).state matches InstallState::Listing { library: l, installed: i }
                        && l == library && i == installed) && (a
                        matches InstallAction::ListDirs { symbols, footprints } && symbols@ == old(
                        self,
                    ).symbols_src(library@) && footprints@ == old(self).footprints_src(library@))
                }
            }),
    {
        if !ok {
            self.state = InstallState::Failed { error: OpError::FetchError };
            return InstallAction::Fail { error: OpError::FetchError };
        }
        let mut prev = InstallState::Done;
        core::mem::swap(&mut self.state, &mut prev);
        let (library, installed) = match prev {
            InstallState::Fetching { library, installed } => (library, installed),
            _ => unreached(),
        };
        let fetched = path_join(self.extra_base.as_str(), self.query.as_str());
        let symbols = path_join(fetched.as_str(), library.symbols_path.as_str());
        let footprints = path_join(fetched.as_str(), library.footprints_path.as_str());
        self.state = InstallState::Listing { library, installed };
        InstallAction::ListDirs { symbols, footprints }
    }

    /// Step 4: the two listings arrived, or one of the subpaths was
    /// absent inside the fetched tree, which is terminal. From the
    /// listings the machine computes the whole copy plan by extension
    /// and asks for the two destination directories to be created.
    pub fn on_listed(&mut self, listings: Option<(Vec<String>, Vec<String>)>) -> (a: InstallAction)
        requires
            old(self).state is Listing,
            old(self).inv(),
        ensures
            final(self).same_setup(*old(self)),
            final(self).inv(),
            ({
                let library = old(self).state->Listing_library;
                let installed = old(self).state->Listing_installed;
                match listings {
                    None => final(self).state == (InstallState::Failed { error: OpError::IoError })
                        && a == (InstallAction::Fail { error: OpError::IoError })
                        && !install_action_mutates_fs(a),
                    Some(ls) => (final(self).state matches InstallState::CreatingDirs {
                        library: l,
                        installed: i,
                        ops,
                    } && l == library && i == installed && op_views(ops@) == old(self).plan_view(
                        library@,
                        name_views(ls.0@),
                        name_views(ls.1@),
                    )) && (a matches InstallAction::CreateDirs { symbols, footprints } && symbols@
                        == old(self).symbols_dest() && footprints@ == old(self).footprints_dest()),
                }
            }),
    {
        let ls = match listings {
            Some(ls) => ls,
            None => {
                self.state = InstallState::Failed { error: OpError::IoError };
                return InstallAction::Fail { error: OpError::IoError };
            },
        };
        let mut prev = InstallState::Done;
        core::mem::swap(&mut self.state, &mut prev);
        let (library, installed) = match prev {
            InstallState::Listing { library, installed } => (library, installed),
            _ => unreached(),
        };
        let fetched = path_join(self.extra_base.as_str(), self.query.as_str());
        let sym_src = path_join(fetched.as_str(), library.symbols_path.as_str());
        let fp_src = path_join(fetched.as_str(), library.footprints_path.as_str());
        let sym_dest = symbols_dir(self.lib_base.as_str(), self.query.as_str());
        let fp_dest = footprints_dir(self.lib_base.as_str(), self.query.as_str());
        let mut ops = symbol_copy_plan(&ls.0, sym_src.as_str(), sym_dest.as_str());
        let mut fp_ops = footprint_copy_plan(&ls.1, fp_src.as_str(), fp_dest.as_str());
        let ghost sym_views = op_views(ops@);
        let ghost fp_views = op_views(fp_ops@);
        ops.append(&mut fp_ops);
        proof {
            assert(op_views(ops@) =~= sym_views + fp_views);
        }
        self.state = InstallState::CreatingDirs { library, installed, ops };
        InstallAction::CreateDirs { symbols: sym_dest, footprints: fp_dest }
    }

    /// Step 5: the destination directories were created, or not, which
    /// is terminal. The machine hands the copy plan over for execution.
    pub fn on_dirs_created(&mut self, ok: bool) -> (a: InstallAction)
        requires
            old(self).state is CreatingDirs,
            old(self).inv(),
        ensures
            final(self).same_setup(*old(self)),
            final(self).inv(),
            ({
                let library = old(self).state->CreatingDirs_library;
                let installed = old(self).state->CreatingDirs_installed;
                let plan = old(self).state->CreatingDirs_ops;
                if !ok {
                    final(self).state == (InstallState::Failed { error: OpError::IoError }) && a
                        == (InstallAction::Fail { error: OpError::IoError })
                        && !install_action_mutates_fs(a)
                } else {
                    (final(self).state matches InstallState::Copying { library: l, installed: i }
                        && l == library && i == installed) && (a
                        matches InstallAction::RunCopies { ops } && ops@ == plan@)
                }
            }),
    {
        if !ok {
            self.state = InstallState::Failed { error: OpError::IoError };
            return InstallAction::Fail { error: OpError::IoError };
        }
        let mut prev = InstallState::Done;
        core::mem::swap(&mut self.state, &mut prev);
        let (library, installed, ops) = match prev {
            InstallState::CreatingDirs { library, installed, ops } => (library, installed, ops),
            _ => unreached(),
        };
        self.state = InstallState::Copying { library, installed };
        InstallAction::RunCopies { ops }
    }

    /// Step 6: the copy phase finished, or aborted partway, which is
    /// terminal — whatever was copied before the failure stays on disk.
    /// On success the machine records the library under its name and
    /// hands the grown record over to be persisted in full.
    pub fn on_copied(&mut self, ok: bool) -> (a: InstallAction)
        requires
            old(self).state is Copying,
            old(self).inv(),
        ensures
            final(self).same_setup(*old(self)),
            final(self).inv(),
            ({
                let library = old(self).state->Copying_library;
                let installed = old(self).state->Copying_installed;
                if !ok {
                    final(self).state == (InstallState::Failed { error: OpError::IoError }) && a
                        == (InstallAction::Fail { error: OpError::IoError })
                        && !install_action_mutates_fs(a)
                } else {
                    final(self).state is Persisting && (a matches InstallAction::Persist {
                        path,
                        record,
                    } && path@ == old(self).installed_path@ && record.wf() && record@
                        == installed@.insert(library@.name, library@))
                }
            }),
    {
        if !ok {
            self.state = InstallState::Failed { error: OpError::IoError };
            return InstallAction::Fail { error: OpError::IoError };
        }
        let mut prev = InstallState::Done;
        core::mem::swap(&mut self.state, &mut prev);
        let (library, mut installed) = match prev {
            InstallState::Copying { library, installed } => (library, installed),
            _ => unreached(),
        };
        installed.insert(library);
        self.state = InstallState::Persisting;
        InstallAction::Persist { path: self.installed_path.clone(), record: installed }
    }

    /// Step 7: the record write finished. Success completes the install;
    /// a write failure is terminal and leaves the known inconsistency of
    /// files present on disk but not recorded.
    pub fn on_persisted(&mut self, ok: bool) -> (a: InstallAction)
        requires
            old(self).state is Persisting,
            old(self).inv(),
        ensures
            final(self).same_setup(*old(self)),
            final(self).inv(),
            !install_action_mutates_fs(a),
            if ok {
                final(self).state is Done && a is Finish
            } else {
                final(self).state == (InstallState::Failed { error: OpError::IoError }) && a == (
                InstallAction::Fail { error: OpError::IoError })
            },
    {
        if ok {
            self.state = InstallState::Done;
            InstallAction::Finish
        } else {
            self.state = InstallState::Failed { error: OpError::IoError };
            InstallAction::Fail { error: OpError::IoError }
        }
    }
}

} // verus!
