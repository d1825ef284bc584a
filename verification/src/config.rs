use vstd::prelude::*;
use vstd::string::{StrSliceExecFns, StringExecFns};

verus! {

/// The four file-system paths the tool works with: the registry file, the
/// installed-state file, and the two external lib-table files. Constructed
/// once from the user's configuration and threaded into every operation;
/// the core never reads them from the ambient environment.
#[derive(Debug, PartialEq)]
pub struct Config {
    pub libraries: String,
    pub installed: String,
    pub fp_lib_table: String,
    pub sym_lib_table: String,
}

impl Config {
    /// The default configuration, with every path rooted at the user's
    /// home directory.
    pub fn new(home: &str) -> (c: Config)
        ensures
            c.libraries@ == home@ + "/.config/kibrarian/libraries.ron"@,
            c.installed@ == home@ + "/.config/kibrarian/installed.ron"@,
            c.fp_lib_table@ == home@ + "/projects/kibrarian/test/config/kicad/fp-lib-table"@,
            c.sym_lib_table@ == home@ + "/projects/kibrarian/test/config/kicad/sym-lib-table"@,
    {
        let mut libraries = home.to_owned();
        libraries.append("/.config/kibrarian/libraries.ron");
        let mut installed = home.to_owned();
        installed.append("/.config/kibrarian/installed.ron");
        let mut fp_lib_table = home.to_owned();
        fp_lib_table.append("/projects/kibrarian/test/config/kicad/fp-lib-table");
        let mut sym_lib_table = home.to_owned();
        sym_lib_table.append("/projects/kibrarian/test/config/kicad/sym-lib-table");
        Config { libraries, installed, fp_lib_table, sym_lib_table }
    }

    /// Replaces the registry-file path.
    pub fn libraries(&mut self, path: &str)
        ensures
            final(self).libraries@ == path@,
            final(self).installed == old(self).installed,
            final(self).fp_lib_table == old(self).fp_lib_table,
            final(self).sym_lib_table == old(self).sym_lib_table,
    {
        self.libraries = path.to_owned();
    }

    /// Replaces the installed-state-file path.
    pub fn installed(&mut self, path: &str)
        ensures
            final(self).installed@ == path@,
            final(self).libraries == old(self).libraries,
            final(self).fp_lib_table == old(self).fp_lib_table,
            final(self).sym_lib_table == old(self).sym_lib_table,
    {
        self.installed = path.to_owned();
    }

    /// Replaces the footprint lib-table path.
    pub fn fp_lib_table(&mut self, path: &str)
        ensures
            final(self).fp_lib_table@ == path@,
            final(self).libraries == old(self).libraries,
            final(self).installed == old(self).installed,
            final(self).sym_lib_table == old(self).sym_lib_table,
    {
        self.fp_lib_table = path.to_owned();
    }

    /// Replaces the symbol lib-table path.
    pub fn sym_lib_table(&mut self, path: &str)
        ensures
            final(self).sym_lib_table@ == path@,
            final(self).libraries == old(self).libraries,
            final(self).installed == old(self).installed,
            final(self).fp_lib_table == old(self).fp_lib_table,
    {
        self.sym_lib_table = path.to_owned();
    }

    /// Applies the four answers collected by the setup wizard: an empty
    /// answer keeps the current path, a non-empty one replaces it.
    pub fn apply_wizard_answers(
        &mut self,
        libraries: &str,
        installed: &str,
        fp_lib_table: &str,
        sym_lib_table: &str,
    )
        ensures
            final(self).libraries@ == (if libraries@.len() == 0 {
                old(self).libraries@
            } else {
                libraries@
            }),
            final(self).installed@ == (if installed@.len() == 0 {
                old(self).installed@
            } else {
                installed@
            }),
            final(self).fp_lib_table@ == (if fp_lib_table@.len() == 0 {
                old(self).fp_lib_table@
            } else {
                fp_lib_table@
            }),
            final(self).sym_lib_table@ == (if sym_lib_table@.len() == 0 {
                old(self).sym_lib_table@
            } else {
                sym_lib_table@
            }),
    {
        if !libraries.is_empty() {
            self.libraries(libraries);
        }
        if !installed.is_empty() {
            self.installed(installed);
        }
        if !fp_lib_table.is_empty() {
            self.fp_lib_table(fp_lib_table);
        }
        if !sym_lib_table.is_empty() {
            self.sym_lib_table(sym_lib_table);
        }
    }

    /// What `describe` returns, as a mathematical value.
    pub open spec fn describe_view(self) -> Seq<char> {
        "libraries.ron path: "@ + self.libraries@ + "\n"@ + "installed.ron path: "@
            + self.installed@ + "\n"@ + "fp-lib-table: "@ + self.fp_lib_table@ + "\n"@
            + "sym-lib-table: "@ + self.sym_lib_table@
    }

    /// The configuration as the setup flow prints it, one path per line.
    pub fn describe(&self) -> (r: String)
        ensures
            r@ == self.describe_view(),
    {
        let mut r = ("libraries.ron path: ").to_owned();
        r.append(self.libraries.as_str());
        r.append("\n");
        r.append("installed.ron path: ");
        r.append(self.installed.as_str());
        r.append("\n");
        r.append("fp-lib-table: ");
        r.append(self.fp_lib_table.as_str());
        r.append("\n");
        r.append("sym-lib-table: ");
        r.append(self.sym_lib_table.as_str());
        r
    }
}

/// What is left of a line of interactive input once every trailing
/// carriage return and line feed is dropped.
pub open spec fn spec_strip_line_ending(s: Seq<char>) -> Seq<char>
    decreases s.len(),
{
    if s.len() > 0 && (s.last() == '\r' || s.last() == '\n') {
        spec_strip_line_ending(s.drop_last())
    } else {
        s
    }
}

/// Drops every trailing carriage return and line feed from `s`, as the
/// setup wizard does to each answer it reads.
pub fn strip_line_ending(s: &str) -> (r: String)
    ensures
        r@ == spec_strip_line_ending(s@),
{
    let mut end: usize = s.unicode_len();
    proof {
        assert(s@.take(end as int) =~= s@);
    }
    loop
        invariant
            end <= s@.len(),
            spec_strip_line_ending(s@) == spec_strip_line_ending(s@.take(end as int)),
        ensures
            end <= s@.len(),
            spec_strip_line_ending(s@) == s@.take(end as int),
        decreases end,
    {
        if end == 0 {
            proof {
                assert(s@.take(0) =~= Seq::<char>::empty());
            }
            break;
        }
        let c = s.get_char(end - 1);
        if c != '\r' && c != '\n' {
            proof {
                assert(s@.take(end as int).last() == c);
            }
            break;
        }
        proof {
            assert(s@.take(end as int).drop_last() =~= s@.take(end - 1));
        }
        end = end - 1;
    }
    let r = s.substring_char(0, end);
    proof {
        assert(r@ =~= s@.take(end as int));
    }
    r.to_owned()
}

} // verus!
