use vstd::prelude::*;
use vstd::string::StringExecFns;

verus! {

/// One registry entry: a named library, its numeric identifier, the URL of
/// its upstream source repository, and the two subpaths inside that
/// repository where symbol files and footprint directories live.
/// Records of this shape are read-only once loaded from the registry.
#[derive(Debug, PartialEq)]
pub struct Library {
    pub name: String,
    pub id: u64,
    pub url: String,
    pub symbols_path: String,
    pub footprints_path: String,
}

/// The mathematical value of a [`Library`].
pub struct LibraryView {
    pub name: Seq<char>,
    pub id: u64,
    pub url: Seq<char>,
    pub symbols_path: Seq<char>,
    pub footprints_path: Seq<char>,
}

impl View for Library {
    type V = LibraryView;

    open spec fn view(&self) -> LibraryView {
        LibraryView {
            name: self.name@,
            id: self.id,
            url: self.url@,
            symbols_path: self.symbols_path@,
            footprints_path: self.footprints_path@,
        }
    }
}

impl Clone for Library {
    fn clone(&self) -> (r: Self)
        ensures
            r == *self,
    {
        Library {
            name: self.name.clone(),
            id: self.id,
            url: self.url.clone(),
            symbols_path: self.symbols_path.clone(),
            footprints_path: self.footprints_path.clone(),
        }
    }
}

impl LibraryView {
    /// What `Library::display_line` returns, as a mathematical value.
    pub open spec fn display_line(self) -> Seq<char> {
        "["@ + self.name + "]: "@ + self.url + "\tsyms: "@ + self.symbols_path + "\tfps: "@
            + self.footprints_path
    }
}

impl Library {
    /// One line describing this library, as the search listing prints it.
    pub fn display_line(&self) -> (r: String)
        ensures
            r@ == self@.display_line(),
    {
        let mut r = ("[").to_owned();
        r.append(self.name.as_str());
        r.append("]: ");
        r.append(self.url.as_str());
        r.append("\tsyms: ");
        r.append(self.symbols_path.as_str());
        r.append("\tfps: ");
        r.append(self.footprints_path.as_str());
        r
    }
}

} // verus!
