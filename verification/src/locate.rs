//! The shared-tree locator: a recursive scan of a configured root for
//! bibliography files, indexed by bare file name to resolve non-absolute
//! preamble references.

use vstd::prelude::*;
use crate::text::{chars_of, concat2, string_of};

verus! {

/// The bare file name of a path: the characters after the last `/`.
pub open spec fn base_name(p: Seq<char>) -> Seq<char>
    decreases p.len(),
{
    if p.len() == 0 {
        p
    } else if p.last() == '/' {
        Seq::empty()
    } else {
        base_name(p.drop_last()).push(p.last())
    }
}

/// A suffix that follows the last `/` of `p` (or all of `p` when it has
/// none) is its bare file name.
proof fn lemma_base_name_suffix(p: Seq<char>, c: int)
    requires
        0 <= c <= p.len(),
        c == 0 || p[c - 1] == '/',
        forall|j: int| c <= j < p.len() ==> p[j] != '/',
    ensures
        base_name(p) == p.subrange(c, p.len() as int),
    decreases p.len(),
{
    if p.len() == 0 {
        assert(p.subrange(0, 0) =~= p);
    } else if c == p.len() {
        assert(p.last() == '/');
        assert(base_name(p) =~= p.subrange(c, p.len() as int));
    } else {
        assert(p.last() != '/');
        lemma_base_name_suffix(p.drop_last(), c);
        assert(p.subrange(c, p.len() as int) =~= p.drop_last().subrange(
            c,
            p.len() - 1,
        ).push(p.last()));
    }
}

/// Compute the bare file name of `p`.
pub fn base_name_str(p: &str) -> (r: String)
    ensures
        r@ == base_name(p@),
{
    let cs = chars_of(p);
    let mut cut: usize = 0;
    let mut i: usize = 0;
    while i < cs.len()
        invariant
            i <= cs.len(),
            cs@ == p@,
            cut <= i,
            cut == 0 || p@[cut - 1] == '/',
            forall|j: int| cut <= j < i ==> p@[j] != '/',
        decreases cs.len() - i,
    {
        if cs[i] == '/' {
            cut = i + 1;
        }
        i = i + 1;
    }
    let mut out: Vec<char> = Vec::new();
    let mut k: usize = cut;
    proof {
        assert(p@.subrange(cut as int, cut as int) =~= out@);
    }
    while k < cs.len()
        invariant
            cut <= k <= cs.len(),
            cs@ == p@,
            out@ == p@.subrange(cut as int, k as int),
        decreases cs.len() - k,
    {
        out.push(cs[k]);
        proof {
            assert(p@.subrange(cut as int, k + 1) =~= p@.subrange(cut as int, k as int).push(
                p@[k as int],
            ));
        }
        k = k + 1;
    }
    proof {
        lemma_base_name_suffix(p@, cut as int);
    }
    string_of(&out)
}

/// The path registered last for `name` in an ordered list of
/// (file name, path) rows.
pub open spec fn path_for(pairs: Seq<(String, String)>, name: Seq<char>) -> Option<Seq<char>>
    decreases pairs.len(),
{
    if pairs.len() == 0 {
        None
    } else if pairs.last().0@ == name {
        Some(pairs.last().1@)
    } else {
        path_for(pairs.drop_last(), name)
    }
}

/// The filename → path index over the shared bibliography tree. When two
/// scanned files share a name, the later row shadows the earlier one; since
/// the scan order itself is not specified, which match wins is an accepted
/// ambiguity, not silently resolved here.
pub struct FileIndex {
    pub entries: Vec<(String, String)>,
}

impl FileIndex {
    /// Every row maps the bare file name of its path to that path.
    pub open spec fn wf(self) -> bool {
        forall|i: int|
            0 <= i < self.entries@.len() ==> (#[trigger] self.entries@[i]).0@ == base_name(
                self.entries@[i].1@,
            )
    }

    /// The path the index resolves `name` to, if any.
    pub open spec fn spec_path(self, name: Seq<char>) -> Option<Seq<char>> {
        path_for(self.entries@, name)
    }

    /// Resolve a bare file name to the path registered last for it.
    pub fn get_path(&self, name: &str) -> (r: Option<&String>)
        ensures
            match r {
                Some(p) => self.spec_path(name@) == Some(p@),
                None => self.spec_path(name@) is None,
            },
    {
        let n = name.to_owned();
        let mut i: usize = self.entries.len();
        proof {
            assert(self.entries@.take(self.entries@.len() as int) =~= self.entries@);
        }
        while i > 0
            invariant
                i <= self.entries@.len(),
                n@ == name@,
                self.spec_path(name@) == path_for(self.entries@.take(i as int), name@),
            decreases i,
        {
            i = i - 1;
            proof {
                assert(self.entries@.take(i + 1).drop_last() =~= self.entries@.take(i as int));
            }
            if self.entries[i].0 == n {
                return Some(&self.entries[i].1);
            }
        }
        proof {
            assert(self.entries@.take(0) =~= Seq::<(String, String)>::empty());
        }
        None
    }
}

/// Index scanned paths by bare file name, keeping scan order.
pub fn index_paths(paths: &Vec<String>) -> (r: FileIndex)
    ensures
        r.wf(),
        r.entries@.len() == paths@.len(),
        forall|i: int|
            0 <= i < paths@.len() ==> (#[trigger] r.entries@[i]).0@ == base_name(paths@[i]@)
                && r.entries@[i].1@ == paths@[i]@,
{
    let mut entries: Vec<(String, String)> = Vec::new();
    let mut i: usize = 0;
    while i < paths.len()
        invariant
            i <= paths.len(),
            entries@.len() == i,
            forall|j: int|
                0 <= j < i ==> (#[trigger] entries@[j]).0@ == base_name(paths@[j]@)
                    && entries@[j].1@ == paths@[j]@,
        decreases paths.len() - i,
    {
        let name = base_name_str(paths[i].as_str());
        let path = paths[i].clone();
        entries.push((name, path));
        i = i + 1;
    }
    FileIndex { entries }
}

/// Whether `pattern` is a well-formed glob pattern: the success of glob's
/// pattern compilation — of the pattern as a whole and of each of its path
/// components — a function of the pattern text alone.
pub uninterp spec fn glob_pattern_ok(pattern: Seq<char>) -> bool;

/// `s` ends with the suffix `t`.
pub open spec fn ends_with(s: Seq<char>, t: Seq<char>) -> bool {
    s.len() >= t.len() && s.subrange(s.len() - t.len(), s.len() as int) == t
}

/// Relies on `glob::glob` and its `Paths` iterator: enumerate the
/// file-system paths matching `pattern` (`**` recursing into
/// subdirectories). It fails exactly when the pattern itself is malformed,
/// a property of the pattern text alone; and every yielded path matches
/// the pattern, so when the pattern ends in the literal `.bib`, so does
/// every path. Unreadable directory entries are skipped, as are paths that
/// are not valid UTF-8.
#[verifier::external_body]
fn glob_paths(pattern: &str) -> (r: Option<Vec<String>>)
    ensures
        r is Some <==> glob_pattern_ok(pattern@),
        r matches Some(ps) ==> (ends_with(pattern@, ".bib"@) ==> forall|i: int|
            0 <= i < ps@.len() ==> ends_with((#[trigger] ps@[i])@, ".bib"@)),
{
    match glob::glob(pattern) {
        Ok(paths) => Some(
            paths
                .filter_map(|entry| entry.ok())
                .filter_map(|path| path.to_str().map(str::to_owned))
                .collect(),
        ),
        Err(_) => None,
    }
}

/// Scan the shared tree: recursively enumerate the `.bib` files under
/// `root` and index them by bare file name. The scan fails exactly when
/// `root` makes the glob pattern malformed. What the scan finds depends on
/// the file system, so of the index only its shape is promised: every row
/// maps the bare file name of its path to that path, and every indexed
/// path ends in `.bib`.
pub fn locate_bibs(root: &str) -> (r: Option<FileIndex>)
    ensures
        r is Some <==> glob_pattern_ok(root@ + "/**/*.bib"@),
        r matches Some(ix) ==> ix.wf() && forall|i: int|
            0 <= i < ix.entries@.len() ==> ends_with((#[trigger] ix.entries@[i]).1@, ".bib"@),
{
    let pattern = concat2(root, "/**/*.bib");
    proof {
        reveal_strlit("/**/*.bib");
        reveal_strlit(".bib");
        assert(pattern@.subrange(pattern@.len() - 4, pattern@.len() as int) =~= ".bib"@);
    }
    match glob_paths(pattern.as_str()) {
        Some(paths) => Some(index_paths(&paths)),
        None => None,
    }
}

/// The root the shared tree is scanned from, under a TeX Live
/// installation.
pub fn texlive_bib_root(texlive_path: &str) -> (r: String)
    ensures
        r@ == texlive_path@ + "/*/texmf-dist/bibtex/bib"@,
{
    concat2(texlive_path, "/*/texmf-dist/bibtex/bib")
}

} // verus!
