use vstd::prelude::*;
use vstd::string::StrSliceExecFns;
use crate::paths::{path_join, spec_path_join};

verus! {

/// The closed classification of a fetched directory entry by its file
/// extension. Symbol-library and symbol-document files are copied as
/// plain files; a footprint-library directory is copied recursively;
/// everything else is skipped silently.
#[derive(Clone, Copy, Debug, PartialEq, Eq, Structural)]
pub enum FileKind {
    SymbolLib,
    SymbolDoc,
    FootprintDir,
    Unclassified,
}

/// `name` ends in `suffix`, with a non-empty stem before it. With a
/// suffix of the form `.ext` this is exactly "the file's extension is
/// `ext`": a bare `.ext` name has no extension, and only the part after
/// the last dot can match, since `suffix` itself begins with a dot.
pub open spec fn spec_has_suffix(name: Seq<char>, suffix: Seq<char>) -> bool {
    name.len() > suffix.len() && name.subrange(
        name.len() - suffix.len(),
        name.len() as int,
    ) == suffix
}

/// See [`spec_has_suffix`].
pub fn has_suffix(name: &str, suffix: &str) -> (r: bool)
    ensures
        r == spec_has_suffix(name@, suffix@),
{
    let n = name.unicode_len();
    let m = suffix.unicode_len();
    if n <= m {
        return false;
    }
    let mut i: usize = 0;
    while i < m
        invariant
            i <= m,
            m < n,
            n == name@.len(),
            m == suffix@.len(),
            forall|k: int| 0 <= k < i ==> name@[n - m + k] == suffix@[k],
        decreases m - i,
    {
        if name.get_char(n - m + i) != suffix.get_char(i) {
            proof {
                assert(name@.subrange(n - m, n as int)[i as int] == name@[n - m + i]);
            }
            return false;
        }
        i = i + 1;
    }
    proof {
        assert(name@.subrange(n - m, n as int) =~= suffix@);
    }
    true
}

/// The kind a directory entry of this name falls under.
pub open spec fn spec_classify(name: Seq<char>) -> FileKind {
    if spec_has_suffix(name, ".lib"@) {
        FileKind::SymbolLib
    } else if spec_has_suffix(name, ".dcm"@) {
        FileKind::SymbolDoc
    } else if spec_has_suffix(name, ".pretty"@) {
        FileKind::FootprintDir
    } else {
        FileKind::Unclassified
    }
}

/// See [`spec_classify`].
pub fn classify(name: &str) -> (r: FileKind)
    ensures
        r == spec_classify(name@),
{
    if has_suffix(name, ".lib") {
        FileKind::SymbolLib
    } else if has_suffix(name, ".dcm") {
        FileKind::SymbolDoc
    } else if has_suffix(name, ".pretty") {
        FileKind::FootprintDir
    } else {
        FileKind::Unclassified
    }
}

/// An entry of the symbols enumeration that the copy phase selects.
pub open spec fn is_symbol_entry(name: Seq<char>) -> bool {
    spec_classify(name) is SymbolLib || spec_classify(name) is SymbolDoc
}

/// An entry of the footprints enumeration that the copy phase selects.
pub open spec fn is_footprint_entry(name: Seq<char>) -> bool {
    spec_classify(name) is FootprintDir
}

/// One step of the copy phase: a plain file copy, or a recursive
/// directory copy whose contents land under `dest` without an extra
/// nesting level.
#[derive(Debug, PartialEq)]
pub enum CopyOp {
    File { src: String, dest: String },
    DirInside { src: String, dest: String },
}

/// The mathematical value of a [`CopyOp`].
pub enum CopyOpView {
    File { src: Seq<char>, dest: Seq<char> },
    DirInside { src: Seq<char>, dest: Seq<char> },
}

impl View for CopyOp {
    type V = CopyOpView;

    open spec fn view(&self) -> CopyOpView {
        match self {
            CopyOp::File { src, dest } => CopyOpView::File { src: src@, dest: dest@ },
            CopyOp::DirInside { src, dest } => CopyOpView::DirInside { src: src@, dest: dest@ },
        }
    }
}

/// The views of the operations in `s`, in order.
pub open spec fn op_views(s: Seq<CopyOp>) -> Seq<CopyOpView> {
    s.map_values(|o: CopyOp| o@)
}

/// The views of the names in `s`, in order.
pub open spec fn name_views(s: Seq<String>) -> Seq<Seq<char>> {
    s.map_values(|n: String| n@)
}

/// The file copy that places the symbol file `name` from `src_dir` into
/// `dest_dir`.
pub open spec fn symbol_op_for(name: Seq<char>, src_dir: Seq<char>, dest_dir: Seq<char>)
    -> CopyOpView {
    CopyOpView::File {
        src: spec_path_join(src_dir, name),
        dest: spec_path_join(dest_dir, name),
    }
}

/// The directory copy that places the footprint directory `name` from
/// `src_dir` into `dest_dir`.
pub open spec fn footprint_op_for(name: Seq<char>, src_dir: Seq<char>, dest_dir: Seq<char>)
    -> CopyOpView {
    CopyOpView::DirInside {
        src: spec_path_join(src_dir, name),
        dest: spec_path_join(dest_dir, name),
    }
}

/// The copy plan for the symbols enumeration: one file copy per selected
/// name, in the order the names were listed, nothing for a rejected one.
pub open spec fn spec_symbol_plan(
    names: Seq<Seq<char>>,
    src_dir: Seq<char>,
    dest_dir: Seq<char>,
) -> Seq<CopyOpView>
    decreases names.len(),
{
    if names.len() == 0 {
        Seq::empty()
    } else {
        let rest = spec_symbol_plan(names.drop_last(), src_dir, dest_dir);
        if is_symbol_entry(names.last()) {
            rest.push(symbol_op_for(names.last(), src_dir, dest_dir))
        } else {
            rest
        }
    }
}

/// The copy plan for the footprints enumeration: one recursive directory
/// copy per selected name, in listing order, nothing for a rejected one.
pub open spec fn spec_footprint_plan(
    names: Seq<Seq<char>>,
    src_dir: Seq<char>,
    dest_dir: Seq<char>,
) -> Seq<CopyOpView>
    decreases names.len(),
{
    if names.len() == 0 {
        Seq::empty()
    } else {
        let rest = spec_footprint_plan(names.drop_last(), src_dir, dest_dir);
        if is_footprint_entry(names.last()) {
            rest.push(footprint_op_for(names.last(), src_dir, dest_dir))
        } else {
            rest
        }
    }
}

/// Law: the symbol plan copies exactly the listed entries whose extension
/// marks them as a symbol library or symbol document, each from `src_dir`
/// to `dest_dir` under its own name.
pub proof fn lemma_symbol_plan_exact(
    names: Seq<Seq<char>>,
    src_dir: Seq<char>,
    dest_dir: Seq<char>,
    op: CopyOpView,
)
    ensures
        spec_symbol_plan(names, src_dir, dest_dir).contains(op) <==> exists|i: int|
            0 <= i < names.len() && #[trigger] is_symbol_entry(names[i]) && op == symbol_op_for(
                names[i],
                src_dir,
                dest_dir,
            ),
    decreases names.len(),
{
    if names.len() > 0 {
        lemma_symbol_plan_exact(names.drop_last(), src_dir, dest_dir, op);
        let d = names.drop_last();
        let rest = spec_symbol_plan(d, src_dir, dest_dir);
        let plan = spec_symbol_plan(names, src_dir, dest_dir);
        let lastn = names.last();
        if plan.contains(op) {
            let i = choose|i: int| 0 <= i < plan.len() && plan[i] == op;
            if is_symbol_entry(lastn) && i == plan.len() - 1 {
                assert(is_symbol_entry(names[names.len() - 1]) && op == symbol_op_for(
                    names[names.len() - 1],
                    src_dir,
                    dest_dir,
                ));
            } else {
                assert(rest[i] == op);
                assert(rest.contains(op));
                let j = choose|j: int|
                    0 <= j < d.len() && #[trigger] is_symbol_entry(d[j]) && op == symbol_op_for(
                        d[j],
                        src_dir,
                        dest_dir,
                    );
                assert(names[j] == d[j]);
            }
        }
        if exists|i: int|
            0 <= i < names.len() && #[trigger] is_symbol_entry(names[i]) && op == symbol_op_for(
                names[i],
                src_dir,
                dest_dir,
            ) {
            let i = choose|i: int|
                0 <= i < names.len() && #[trigger] is_symbol_entry(names[i]) && op
                    == symbol_op_for(names[i], src_dir, dest_dir);
            if i == names.len() - 1 {
                assert(plan[plan.len() - 1] == op);
                assert(plan.contains(op));
            } else {
                assert(d[i] == names[i]);
                assert(rest.contains(op));
                let j = choose|j: int| 0 <= j < rest.len() && rest[j] == op;
                assert(plan[j] == op);
                assert(plan.contains(op));
            }
        }
    }
}

/// Law: the footprint plan copies exactly the listed entries whose
/// extension marks them as a footprint-library directory, each from
/// `src_dir` to `dest_dir` under its own name.
pub proof fn lemma_footprint_plan_exact(
    names: Seq<Seq<char>>,
    src_dir: Seq<char>,
    dest_dir: Seq<char>,
    op: CopyOpView,
)
    ensures
        spec_footprint_plan(names, src_dir, dest_dir).contains(op) <==> exists|i: int|
            0 <= i < names.len() && #[trigger] is_footprint_entry(names[i]) && op
                == footprint_op_for(names[i], src_dir, dest_dir),
    decreases names.len(),
{
    if names.len() > 0 {
        lemma_footprint_plan_exact(names.drop_last(), src_dir, dest_dir, op);
        let d = names.drop_last();
        let rest = spec_footprint_plan(d, src_dir, dest_dir);
        let plan = spec_footprint_plan(names, src_dir, dest_dir);
        let lastn = names.last();
        if plan.contains(op) {
            let i = choose|i: int| 0 <= i < plan.len() && plan[i] == op;
            if is_footprint_entry(lastn) && i == plan.len() - 1 {
                assert(is_footprint_entry(names[names.len() - 1]) && op == footprint_op_for(
                    names[names.len() - 1],
                    src_dir,
                    dest_dir,
                ));
            } else {
                assert(rest[i] == op);
                assert(rest.contains(op));
                let j = choose|j: int|
                    0 <= j < d.len() && #[trigger] is_footprint_entry(d[j]) && op
                        == footprint_op_for(d[j], src_dir, dest_dir);
                assert(names[j] == d[j]);
            }
        }
        if exists|i: int|
            0 <= i < names.len() && #[trigger] is_footprint_entry(names[i]) && op
                == footprint_op_for(names[i], src_dir, dest_dir) {
            let i = choose|i: int|
                0 <= i < names.len() && #[trigger] is_footprint_entry(names[i]) && op
                    == footprint_op_for(names[i], src_dir, dest_dir);
            if i == names.len() - 1 {
                assert(plan[plan.len() - 1] == op);
                assert(plan.contains(op));
            } else {
                assert(d[i] == names[i]);
                assert(rest.contains(op));
                let j = choose|j: int| 0 <= j < rest.len() && rest[j] == op;
                assert(plan[j] == op);
                assert(plan.contains(op));
            }
        }
    }
}

/// Computes the copy plan for the symbols enumeration: every listed name
/// the classification selects becomes one file copy, in listing order.
pub fn symbol_copy_plan(names: &Vec<String>, src_dir: &str, dest_dir: &str) -> (r: Vec<CopyOp>)
    ensures
        op_views(r@) == spec_symbol_plan(name_views(names@), src_dir@, dest_dir@),
{
    let mut r: Vec<CopyOp> = Vec::new();
    let mut i: usize = 0;
    proof {
        assert(name_views(names@).take(0) =~= Seq::<Seq<char>>::empty());
        assert(op_views(r@) =~= Seq::<CopyOpView>::empty());
    }
    while i < names.len()
        invariant
            i <= names@.len(),
            op_views(r@) =~= spec_symbol_plan(name_views(names@).take(i as int), src_dir@, dest_dir@),
        decreases names@.len() - i,
    {
        let k = classify(names[i].as_str());
        if matches!(k, FileKind::SymbolLib) || matches!(k, FileKind::SymbolDoc) {
            let op = CopyOp::File {
                src: path_join(src_dir, names[i].as_str()),
                dest: path_join(dest_dir, names[i].as_str()),
            };
            r.push(op);
        }
        proof {
            assert(name_views(names@).take(i + 1).drop_last() =~= name_views(names@).take(i as int));
            assert(name_views(names@).take(i + 1).last() == names@[i as int]@);
            assert(op_views(r@) =~= spec_symbol_plan(name_views(names@).take(i + 1), src_dir@, dest_dir@));
        }
        i = i + 1;
    }
    proof {
        assert(name_views(names@).take(names@.len() as int) =~= name_views(names@));
    }
    r
}

/// Computes the copy plan for the footprints enumeration: every listed
/// name the classification selects becomes one recursive directory copy,
/// in listing order.
pub fn footprint_copy_plan(names: &Vec<String>, src_dir: &str, dest_dir: &str) -> (r: Vec<CopyOp>)
    ensures
        op_views(r@) == spec_footprint_plan(name_views(names@), src_dir@, dest_dir@),
{
    let mut r: Vec<CopyOp> = Vec::new();
    let mut i: usize = 0;
    proof {
        assert(name_views(names@).take(0) =~= Seq::<Seq<char>>::empty());
        assert(op_views(r@) =~= Seq::<CopyOpView>::empty());
    }
    while i < names.len()
        invariant
            i <= names@.len(),
            op_views(r@) =~= spec_footprint_plan(name_views(names@).take(i as int), src_dir@, dest_dir@),
        decreases names@.len() - i,
    {
        let k = classify(names[i].as_str());
        if matches!(k, FileKind::FootprintDir) {
            let op = CopyOp::DirInside {
                src: path_join(src_dir, names[i].as_str()),
                dest: path_join(dest_dir, names[i].as_str()),
            };
            r.push(op);
        }
        proof {
            assert(name_views(names@).take(i + 1).drop_last() =~= name_views(names@).take(i as int));
            assert(name_views(names@).take(i + 1).last() == names@[i as int]@);
            assert(op_views(r@) =~= spec_footprint_plan(name_views(names@).take(i + 1), src_dir@, dest_dir@));
        }
        i = i + 1;
    }
    proof {
        assert(name_views(names@).take(names@.len() as int) =~= name_views(names@));
    }
    r
}

} // verus!
