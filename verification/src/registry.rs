use vstd::prelude::*;
use vstd::string::StringExecFns;
use crate::errors::OpError;
use crate::library::{Library, LibraryView};

verus! {

/// The views of the libraries in `s`, in the same order.
pub open spec fn lib_views(s: Seq<Library>) -> Seq<LibraryView> {
    s.map_values(|l: Library| l@)
}

/// No two of the views in `s` carry the same name.
pub open spec fn names_unique(s: Seq<LibraryView>) -> bool {
    forall|i: int, j: int| #![trigger s[i], s[j]] 0 <= i < j < s.len() ==> s[i].name != s[j].name
}

/// The mapping from name to library that the entries of `s` describe, a
/// later entry overriding an earlier one with the same name.
pub open spec fn entries_map(s: Seq<LibraryView>) -> Map<Seq<char>, LibraryView>
    decreases s.len(),
{
    if s.len() == 0 {
        Map::empty()
    } else {
        entries_map(s.drop_last()).insert(s.last().name, s.last())
    }
}

/// A name is a key of the mapping exactly when some entry carries it.
pub proof fn lemma_entries_map_contains(s: Seq<LibraryView>, n: Seq<char>)
    ensures
        entries_map(s).contains_key(n) <==> exists|i: int| 0 <= i < s.len() && s[i].name == n,
    decreases s.len(),
{
    if s.len() > 0 {
        lemma_entries_map_contains(s.drop_last(), n);
        if entries_map(s).contains_key(n) && s.last().name != n {
            let i = choose|i: int| 0 <= i < s.drop_last().len() && s.drop_last()[i].name == n;
            assert(s[i].name == n);
        }
        if exists|i: int| 0 <= i < s.len() && s[i].name == n {
            let i = choose|i: int| 0 <= i < s.len() && s[i].name == n;
            if i < s.len() - 1 {
                assert(s.drop_last()[i].name == n);
            }
        }
    }
}

/// With unique names, the mapping sends each entry's name to that entry.
pub proof fn lemma_entries_map_get(s: Seq<LibraryView>, i: int)
    requires
        names_unique(s),
        0 <= i < s.len(),
    ensures
        entries_map(s).contains_key(s[i].name),
        entries_map(s)[s[i].name] == s[i],
    decreases s.len(),
{
    if i < s.len() - 1 {
        lemma_names_unique_drop_last(s);
        lemma_entries_map_get(s.drop_last(), i);
        assert(s.drop_last()[i] == s[i]);
        assert(s[i].name != s[s.len() - 1].name);
    }
}

/// Unique names survive dropping the last entry.
pub proof fn lemma_names_unique_drop_last(s: Seq<LibraryView>)
    requires
        names_unique(s),
        s.len() > 0,
    ensures
        names_unique(s.drop_last()),
{
    assert forall|i: int, j: int|
        0 <= i < j < s.drop_last().len() implies #[trigger] s.drop_last()[i].name
        != #[trigger] s.drop_last()[j].name by {
        assert(s[i] == s.drop_last()[i]);
        assert(s[j] == s.drop_last()[j]);
    }
}

/// Unique names survive removing any one entry.
pub proof fn lemma_names_unique_remove(s: Seq<LibraryView>, i: int)
    requires
        names_unique(s),
        0 <= i < s.len(),
    ensures
        names_unique(s.remove(i)),
{
    assert forall|a: int, b: int|
        0 <= a < b < s.remove(i).len() implies #[trigger] s.remove(i)[a].name
        != #[trigger] s.remove(i)[b].name by {
        let a0 = if a < i { a } else { a + 1 };
        let b0 = if b < i { b } else { b + 1 };
        assert(s.remove(i)[a] == s[a0]);
        assert(s.remove(i)[b] == s[b0]);
        assert(s[a0].name != s[b0].name);
    }
}

/// Removing the entry at index `i` removes exactly its name from the
/// mapping, provided names are unique.
pub proof fn lemma_entries_map_remove(s: Seq<LibraryView>, i: int)
    requires
        names_unique(s),
        0 <= i < s.len(),
    ensures
        entries_map(s.remove(i)) == entries_map(s).remove(s[i].name),
    decreases s.len(),
{
    let n = s[i].name;
    if i == s.len() - 1 {
        assert(s.remove(i) =~= s.drop_last());
        lemma_names_unique_drop_last(s);
        lemma_entries_map_contains(s.drop_last(), n);
        assert forall|k: int| 0 <= k < s.drop_last().len() implies #[trigger] s.drop_last()[k].name
            != n by {
            assert(s[k] == s.drop_last()[k]);
            assert(s[k].name != s[i].name);
        }
        assert(!entries_map(s.drop_last()).contains_key(n));
        assert(entries_map(s).remove(n) =~= entries_map(s.drop_last()));
    } else {
        let d = s.drop_last();
        let last = s.last();
        lemma_names_unique_drop_last(s);
        lemma_entries_map_remove(d, i);
        assert(s.remove(i).drop_last() =~= d.remove(i));
        assert(s.remove(i).last() == last);
        assert(d[i] == s[i]);
        assert(last.name != n);
        assert(entries_map(s.remove(i)) == entries_map(d.remove(i)).insert(last.name, last));
        assert(entries_map(d).remove(n).insert(last.name, last) =~= entries_map(d).insert(
            last.name,
            last,
        ).remove(n));
    }
}

/// The catalog of libraries, keyed by name. The same shape serves as the
/// registry of installable libraries and as the installed-state record;
/// in both roles the entries carry pairwise distinct names.
#[derive(Debug, PartialEq)]
pub struct Libraries {
    pub lib_map: Vec<Library>,
}

impl View for Libraries {
    type V = Map<Seq<char>, LibraryView>;

    open spec fn view(&self) -> Map<Seq<char>, LibraryView> {
        entries_map(lib_views(self.lib_map@))
    }
}

impl Libraries {
    /// Well-formedness: no name occurs twice.
    pub open spec fn wf(&self) -> bool {
        names_unique(lib_views(self.lib_map@))
    }

    /// The empty catalog.
    pub fn new() -> (r: Libraries)
        ensures
            r.wf(),
            r@ == Map::<Seq<char>, LibraryView>::empty(),
            r.lib_map@.len() == 0,
    {
        Libraries { lib_map: Vec::new() }
    }

    /// The position of the entry named `name`, if any.
    fn index_of(&self, name: &String) -> (r: Option<usize>)
        ensures
            match r {
                Some(i) => i < self.lib_map@.len() && lib_views(self.lib_map@)[i as int].name
                    == name@,
                None => forall|i: int|
                    0 <= i < self.lib_map@.len() ==> lib_views(self.lib_map@)[i].name != name@,
            },
    {
        let mut i: usize = 0;
        while i < self.lib_map.len()
            invariant
                i <= self.lib_map@.len(),
                forall|k: int| 0 <= k < i ==> lib_views(self.lib_map@)[k].name != name@,
            decreases self.lib_map@.len() - i,
        {
            if self.lib_map[i].name == *name {
                return Some(i);
            }
            i = i + 1;
        }
        None
    }

    /// Whether a library of this name is recorded.
    pub fn contains_name(&self, name: &String) -> (r: bool)
        ensures
            r == self@.contains_key(name@),
    {
        proof {
            lemma_entries_map_contains(lib_views(self.lib_map@), name@);
        }
        self.index_of(name).is_some()
    }

    /// How many libraries are recorded.
    pub fn len(&self) -> (r: usize)
        ensures
            r == self.lib_map@.len(),
    {
        self.lib_map.len()
    }

    /// The recorded libraries, in insertion order, for persisting.
    pub fn entries(&self) -> (r: &Vec<Library>)
        ensures
            r@ == self.lib_map@,
    {
        &self.lib_map
    }

    /// What `describe` returns, as a mathematical value.
    pub open spec fn describe_view(self) -> Seq<char> {
        "Official:\n"@ + listing_view(lib_views(self.lib_map@))
    }

    /// The catalog as the listing prints it: a heading, then one display
    /// line per recorded library, in insertion order.
    pub fn describe(&self) -> (r: String)
        ensures
            r@ == self.describe_view(),
    {
        let mut r = ("Official:\n").to_owned();
        let mut i: usize = 0;
        proof {
            assert(lib_views(self.lib_map@).take(0) =~= Seq::<LibraryView>::empty());
            assert(r@ =~= "Official:\n"@ + listing_view(lib_views(self.lib_map@).take(0)));
        }
        while i < self.lib_map.len()
            invariant
                i <= self.lib_map@.len(),
                r@ =~= "Official:\n"@ + listing_view(lib_views(self.lib_map@).take(i as int)),
            decreases self.lib_map@.len() - i,
        {
            let line = self.lib_map[i].display_line();
            r.append(line.as_str());
            r.append("\n");
            proof {
                assert(lib_views(self.lib_map@).take(i + 1).drop_last() =~= lib_views(
                    self.lib_map@,
                ).take(i as int));
                assert(lib_views(self.lib_map@).take(i + 1).last() == self.lib_map@[i as int]@);
            }
            i = i + 1;
        }
        proof {
            assert(lib_views(self.lib_map@).take(self.lib_map@.len() as int) =~= lib_views(
                self.lib_map@,
            ));
        }
        r
    }

    /// Records one more library under its name.
    pub fn insert(&mut self, library: Library)
        requires
            old(self).wf(),
            !old(self)@.contains_key(library@.name),
        ensures
            final(self).wf(),
            final(self)@ == old(self)@.insert(library@.name, library@),
            final(self).lib_map@ == old(self).lib_map@.push(library),
    {
        proof {
            lemma_entries_map_contains(lib_views(self.lib_map@), library@.name);
        }
        let ghost old_views = lib_views(self.lib_map@);
        self.lib_map.push(library);
        proof {
            assert(lib_views(self.lib_map@) =~= old_views.push(library@));
            assert(lib_views(self.lib_map@).drop_last() =~= old_views);
            assert forall|i: int, j: int|
                0 <= i < j < lib_views(self.lib_map@).len() implies #[trigger] lib_views(
                self.lib_map@,
            )[i].name != #[trigger] lib_views(self.lib_map@)[j].name by {
                if j == lib_views(self.lib_map@).len() - 1 {
                    assert(lib_views(self.lib_map@)[i] == old_views[i]);
                } else {
                    assert(lib_views(self.lib_map@)[i] == old_views[i]);
                    assert(lib_views(self.lib_map@)[j] == old_views[j]);
                }
            }
        }
    }

    /// Removes the library of this name, handing it back; absent names
    /// leave the catalog untouched.
    pub fn remove(&mut self, name: &String) -> (r: Option<Library>)
        requires
            old(self).wf(),
        ensures
            final(self).wf(),
            match r {
                Some(l) => old(self)@.contains_key(name@) && l@ == old(self)@[name@]
                    && final(self)@ == old(self)@.remove(name@)
                    && final(self).lib_map@.len() + 1 == old(self).lib_map@.len(),
                None => !old(self)@.contains_key(name@) && *final(self) == *old(self),
            },
    {
        let ghost old_views = lib_views(self.lib_map@);
        match self.index_of(name) {
            Some(i) => {
                proof {
                    lemma_entries_map_get(old_views, i as int);
                    lemma_entries_map_remove(old_views, i as int);
                    lemma_names_unique_remove(old_views, i as int);
                }
                let l = self.lib_map.remove(i);
                proof {
                    assert(lib_views(self.lib_map@) =~= old_views.remove(i as int));
                }
                Some(l)
            },
            None => {
                proof {
                    lemma_entries_map_contains(old_views, name@);
                }
                None
            },
        }
    }
}

/// The listing's body: one display line per library, in order, each
/// ended by a line feed.
pub open spec fn listing_view(s: Seq<LibraryView>) -> Seq<char>
    decreases s.len(),
{
    if s.len() == 0 {
        Seq::empty()
    } else {
        listing_view(s.drop_last()) + s.last().display_line() + "\n"@
    }
}

/// The library views of a sequence of parsed `(key, library)` entries.
pub open spec fn entry_views(entries: Seq<(String, Library)>) -> Seq<LibraryView> {
    entries.map_values(|p: (String, Library)| p.1@)
}

/// The registry schema: every entry's key equals the name stored inside
/// its library record, and no name occurs twice.
pub open spec fn schema_ok(entries: Seq<(String, Library)>) -> bool {
    &&& forall|i: int| 0 <= i < entries.len() ==> (#[trigger] entries[i]).0@ == entries[i].1@.name
    &&& names_unique(entry_views(entries))
}

/// Builds a catalog from parsed `(key, library)` entries, checking the
/// schema. Any violation is a hard failure: no partially populated
/// catalog is ever handed back.
pub fn from_entries(entries: &Vec<(String, Library)>) -> (r: Result<Libraries, OpError>)
    ensures
        r is Ok <==> schema_ok(entries@),
        match r {
            Ok(libs) => libs.wf() && libs@ == entries_map(entry_views(entries@))
                && lib_views(libs.lib_map@) == entry_views(entries@),
            Err(e) => e == OpError::ParseError,
        },
{
    let mut libs = Libraries::new();
    let mut i: usize = 0;
    proof {
        assert(lib_views(libs.lib_map@) =~= entry_views(entries@).take(0));
    }
    while i < entries.len()
        invariant
            i <= entries@.len(),
            libs.wf(),
            lib_views(libs.lib_map@) =~= entry_views(entries@).take(i as int),
            libs@ == entries_map(entry_views(entries@).take(i as int)),
            forall|k: int| 0 <= k < i ==> (#[trigger] entries@[k]).0@ == entries@[k].1@.name,
        decreases entries@.len() - i,
    {
        if !(entries[i].0 == entries[i].1.name) {
            proof {
                assert(!((entries@[i as int]).0@ == entries@[i as int].1@.name));
            }
            return Err(OpError::ParseError);
        }
        if libs.contains_name(&entries[i].1.name) {
            proof {
                lemma_entries_map_contains(lib_views(libs.lib_map@), entries@[i as int].1@.name);
                let k = choose|k: int|
                    0 <= k < lib_views(libs.lib_map@).len() && lib_views(libs.lib_map@)[k].name
                        == entries@[i as int].1@.name;
                assert(entry_views(entries@)[k].name == entry_views(entries@)[i as int].name);
                assert(!names_unique(entry_views(entries@)));
            }
            return Err(OpError::ParseError);
        }
        let library = entries[i].1.clone();
        let ghost prev_views = lib_views(libs.lib_map@);
        libs.insert(library);
        proof {
            assert(lib_views(libs.lib_map@) =~= prev_views.push(entries@[i as int].1@));
            assert(lib_views(libs.lib_map@) =~= entry_views(entries@).take(i + 1));
            assert(lib_views(libs.lib_map@).drop_last() =~= prev_views);
        }
        i = i + 1;
    }
    proof {
        assert(entry_views(entries@).take(entries@.len() as int) =~= entry_views(entries@));
    }
    Ok(libs)
}

/// What the codec layer reports of a record file: the file is absent, its
/// content does not parse, or it parsed into `(key, library)` entries.
#[derive(Debug, PartialEq)]
pub enum LoadOutcome {
    Missing,
    Malformed,
    Parsed(Vec<(String, Library)>),
}

/// What loading the registry yields for each codec outcome: a missing
/// file is `NotFound`, unparsable content or a schema violation is
/// `ParseError`, and otherwise the full mapping the entries describe.
pub open spec fn spec_load_registry(outcome: LoadOutcome) -> Result<
    Map<Seq<char>, LibraryView>,
    OpError,
> {
    match outcome {
        LoadOutcome::Missing => Err(OpError::NotFound),
        LoadOutcome::Malformed => Err(OpError::ParseError),
        LoadOutcome::Parsed(entries) => if schema_ok(entries@) {
            Ok(entries_map(entry_views(entries@)))
        } else {
            Err(OpError::ParseError)
        },
    }
}

/// Builds the registry from what the codec layer read at the registry
/// path. A registry file must be present: its absence is an error.
pub fn load_registry(outcome: LoadOutcome) -> (r: Result<Libraries, OpError>)
    ensures
        match (r, spec_load_registry(outcome)) {
            (Ok(libs), Ok(m)) => libs.wf() && libs@ == m,
            (Err(e), Err(e2)) => e == e2,
            _ => false,
        },
{
    match outcome {
        LoadOutcome::Missing => Err(OpError::NotFound),
        LoadOutcome::Malformed => Err(OpError::ParseError),
        LoadOutcome::Parsed(entries) => from_entries(&entries),
    }
}

/// What loading the installed-state record yields for each codec outcome.
/// It differs from the registry in the first-run case alone: an absent
/// file means the empty installed set, not a failure.
pub open spec fn spec_load_installed(outcome: LoadOutcome) -> Result<
    Map<Seq<char>, LibraryView>,
    OpError,
> {
    match outcome {
        LoadOutcome::Missing => Ok(Map::empty()),
        LoadOutcome::Malformed => Err(OpError::ParseError),
        LoadOutcome::Parsed(entries) => if schema_ok(entries@) {
            Ok(entries_map(entry_views(entries@)))
        } else {
            Err(OpError::ParseError)
        },
    }
}

/// Builds the installed-state record from what the codec layer read at
/// the installed path, treating an absent file as the empty record.
pub fn load_installed(outcome: LoadOutcome) -> (r: Result<Libraries, OpError>)
    ensures
        match (r, spec_load_installed(outcome)) {
            (Ok(libs), Ok(m)) => libs.wf() && libs@ == m,
            (Err(e), Err(e2)) => e == e2,
            _ => false,
        },
{
    match outcome {
        LoadOutcome::Missing => Ok(Libraries::new()),
        LoadOutcome::Malformed => Err(OpError::ParseError),
        LoadOutcome::Parsed(entries) => from_entries(&entries),
    }
}

/// Law: removing a freshly recorded installation restores the record that
/// preceded it.
pub proof fn lemma_install_then_uninstall_record(
    record: Map<Seq<char>, LibraryView>,
    lib: LibraryView,
)
    requires
        !record.contains_key(lib.name),
    ensures
        record.insert(lib.name, lib).remove(lib.name) == record,
{
    assert(record.insert(lib.name, lib).remove(lib.name) =~= record);
}

/// Exact-match lookup of `query` against the catalog's names: a match is
/// returned exactly when `query` is a recorded name, character for
/// character; there is no fuzzy, prefix or case-folded matching.
pub fn search(libraries: &Libraries, query: &str) -> (r: Option<Library>)
    requires
        libraries.wf(),
    ensures
        match r {
            Some(l) => libraries@.contains_key(query@) && l@ == libraries@[query@] && l@.name
                == query@,
            None => !libraries@.contains_key(query@),
        },
{
    let q = query.to_owned();
    let ghost views = lib_views(libraries.lib_map@);
    match libraries.index_of(&q) {
        Some(i) => {
            proof {
                lemma_entries_map_get(views, i as int);
            }
            Some(libraries.lib_map[i].clone())
        },
        None => {
            proof {
                lemma_entries_map_contains(views, query@);
            }
            None
        },
    }
}

} // verus!
