//! The preamble composer: resolve the requested preamble files against the
//! shared tree and build the one text blob handed to the parser, with the
//! builtin definitions first and the target file's content last.

use vstd::prelude::*;
use crate::locate::FileIndex;
use crate::text::{concat2, join_lines, joined_lines};
use vstd::string::{StrSliceExecFns, StringExecFns};

verus! {

/// How the requested identifiers resolve, in request order: the paths to
/// read (an absolute path is used as is, other names through the shared
/// tree), and one warning per name the shared tree lacks. Unresolved names
/// are skipped, not fatal.
pub open spec fn spec_resolution(ids: Seq<String>, ix: FileIndex) -> (Seq<Seq<char>>, Seq<
    Seq<char>,
>)
    decreases ids.len(),
{
    if ids.len() == 0 {
        (Seq::empty(), Seq::empty())
    } else {
        let r = spec_resolution(ids.drop_last(), ix);
        let id = ids.last()@;
        if id.len() > 0 && id[0] == '/' {
            (r.0.push(id), r.1)
        } else {
            match ix.spec_path(id) {
                Some(p) => (r.0.push(p), r.1),
                None => (r.0, r.1.push("Couldn't locate: "@ + id)),
            }
        }
    }
}

/// The outcome of resolving the requested preamble files: the readable
/// paths in request order, and the warnings for names the shared tree
/// lacks.
pub struct ResolvedPreambles {
    pub paths: Vec<String>,
    pub warnings: Vec<String>,
}

/// Resolve each requested preamble-file identifier: keep absolute paths,
/// look bare names up in the shared-tree index, and record a warning for
/// names it lacks.
pub fn resolve_preambles(ids: &Vec<String>, ix: &FileIndex) -> (r: ResolvedPreambles)
    ensures
        r.paths@.len() == spec_resolution(ids@, *ix).0.len(),
        forall|i: int|
            0 <= i < r.paths@.len() ==> (#[trigger] r.paths@[i]@) == spec_resolution(ids@, *ix).0[i],
        r.warnings@.len() == spec_resolution(ids@, *ix).1.len(),
        forall|i: int|
            0 <= i < r.warnings@.len() ==> (#[trigger] r.warnings@[i]@) == spec_resolution(
                ids@,
                *ix,
            ).1[i],
{
    let mut paths: Vec<String> = Vec::new();
    let mut warnings: Vec<String> = Vec::new();
    let mut i: usize = 0;
    proof {
        assert(ids@.take(0) =~= Seq::<String>::empty());
    }
    while i < ids.len()
        invariant
            i <= ids.len(),
            paths@.len() == spec_resolution(ids@.take(i as int), *ix).0.len(),
            forall|j: int|
                0 <= j < paths@.len() ==> (#[trigger] paths@[j]@) == spec_resolution(
                    ids@.take(i as int),
                    *ix,
                ).0[j],
            warnings@.len() == spec_resolution(ids@.take(i as int), *ix).1.len(),
            forall|j: int|
                0 <= j < warnings@.len() ==> (#[trigger] warnings@[j]@) == spec_resolution(
                    ids@.take(i as int),
                    *ix,
                ).1[j],
        decreases ids.len() - i,
    {
        proof {
            assert(ids@.take(i + 1).drop_last() =~= ids@.take(i as int));
        }
        let id = &ids[i];
        let absolute = !id.as_str().is_empty() && id.as_str().get_char(0) == '/';
        if absolute {
            paths.push(id.clone());
        } else {
            match ix.get_path(id.as_str()) {
                Some(p) => paths.push(p.clone()),
                None => warnings.push(concat2("Couldn't locate: ", id.as_str())),
            }
        }
        i = i + 1;
    }
    proof {
        assert(ids@.take(ids@.len() as int) =~= ids@);
    }
    ResolvedPreambles { paths, warnings }
}

/// The text handed to the parser: the builtin preamble first, then the
/// resolved fragments separated by single newlines, and the target file's
/// raw content directly after the last fragment — so every builtin or
/// shared definition is in scope for the target.
pub open spec fn spec_composed(builtin: Seq<char>, frags: Seq<String>, target: Seq<char>) -> Seq<
    char,
> {
    builtin + "\n"@ + joined_lines(frags) + target
}

/// Compose the parse input from the builtin preamble, the resolved
/// fragment contents, and the target bibliography's content.
pub fn compose_preamble(builtin: &str, fragments: &Vec<String>, target: &str) -> (r: String)
    ensures
        r@ == spec_composed(builtin@, fragments@, target@),
{
    let mut r = builtin.to_owned();
    r.append("\n");
    let joined = join_lines(fragments);
    r.append(joined.as_str());
    r.append(target);
    r
}

} // verus!
