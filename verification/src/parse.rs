//! The boundary to the external BibTeX parser: the composed text goes in,
//! plain entries come out. The grammar itself is the parser's own; this
//! module converts its output and, before asking for the full parse, keeps
//! the call inside the parser's terminating domain: its value scanner
//! cannot survive a text ending in an unterminated value boundary (see
//! `parse_hazard`), and its `@string` expansion recurses without bound on
//! cyclic definitions, so both are rejected as parse failures up front.

use vstd::prelude::*;
use crate::entry::{NormalizedEntry, RawEntry, Tag, normalize};
use vstd::string::StrSliceExecFns;

verus! {

/// One unexpanded piece of a `@string` definition's value: literal text, or
/// a reference to another abbreviation.
pub enum Chunk {
    Lit(String),
    Abbrev(String),
}

/// The `@string` variables of `text`, unexpanded and in source order, as
/// the external parser reads them: `None` exactly when the text does not
/// parse. The value of this function is fixed by the parser's grammar,
/// which is not restated here.
pub uninterp spec fn raw_vars_of(text: Seq<char>) -> Option<Seq<(String, Vec<Chunk>)>>;

/// What the external BibTeX parser yields on `text`: `None` on a parse
/// failure, else the bibliography entries in source order, with string
/// variables expanded. Fixed by the parser's grammar and expansion rules,
/// which are not restated here.
pub uninterp spec fn parsed_bib(text: Seq<char>) -> Option<Seq<RawEntry>>;

/// A text the external parser's scanners cannot survive: one that ends
/// right after an opening `{` or `"` (its value scanner overruns there),
/// one whose final character is not a single byte (an unterminated value
/// scanned to the end of such a text leaves the scanner's byte position
/// inside that character), or one so long that its internal brace counters
/// could overflow. Real bibliographies end in `}` or a newline, so nothing
/// of value is excluded.
pub open spec fn parse_hazard(text: Seq<char>) -> bool {
    ||| text.len() >= 0x8000_0000
    ||| text.len() > 0 && (text.last() == '{' || text.last() == '"' || text.last() as u32 >= 0x80)
}

/// The unexpanded value of the first variable named `key`, if any: the
/// parser resolves abbreviations against the first definition in source
/// order.
pub open spec fn var_chunks(vars: Seq<(String, Vec<Chunk>)>, key: Seq<char>) -> Option<
    Seq<Chunk>,
>
    decreases vars.len(),
{
    if vars.len() == 0 {
        None
    } else if vars[0].0@ == key {
        Some(vars[0].1@)
    } else {
        var_chunks(vars.drop_first(), key)
    }
}

/// Expanding `chunks[i..]` against `vars` nests abbreviation references at
/// most `fuel` levels deep. An unknown abbreviation costs no depth: the
/// parser stops on it with an error instead of recursing.
pub open spec fn expansion_bounded(
    chunks: Seq<Chunk>,
    i: int,
    vars: Seq<(String, Vec<Chunk>)>,
    fuel: nat,
) -> bool
    decreases fuel, chunks.len() - i,
    when 0 <= i <= chunks.len()
{
    if i == chunks.len() {
        true
    } else {
        (match chunks[i] {
            Chunk::Lit(_) => true,
            Chunk::Abbrev(a) => match var_chunks(vars, a@) {
                None => true,
                Some(inner) => fuel > 0 && expansion_bounded(inner, 0, vars, (fuel - 1) as nat),
            },
        }) && expansion_bounded(chunks, i + 1, vars, fuel)
    }
}

/// No variable's expansion can nest more references than there are
/// variables: exactly the texts on which the parser's expansion terminates,
/// since a deeper nesting must re-enter some definition and then never
/// stops.
pub open spec fn acyclic_vars(vars: Seq<(String, Vec<Chunk>)>) -> bool {
    forall|k: int|
        0 <= k < vars.len() ==> expansion_bounded(
            (#[trigger] vars[k]).1@,
            0,
            vars,
            vars.len() as nat,
        )
}

/// Relies on `nom_bibtex::Bibtex::raw_parse`: the `@string` variables of
/// the text, unexpanded, in source order, converted chunk for chunk;
/// `None` exactly on a parse error. Raw parsing does no expansion, so only
/// the scanner hazards are excluded. The parser recurses once per entry,
/// so an enormous bibliography can exhaust the stack; that resource limit,
/// like memory exhaustion generally, is not modeled here.
#[verifier::external_body]
fn parse_variables(text: &str) -> (r: Option<Vec<(String, Vec<Chunk>)>>)
    requires
        !parse_hazard(text@),
    ensures
        match raw_vars_of(text@) {
            Some(vs) => r matches Some(v) && v@ == vs,
            None => r is None,
        },
{
    let to_chunk = |c| match c {
        nom_bibtex::model::StringValueType::Str(s) => Chunk::Lit(s),
        nom_bibtex::model::StringValueType::Abbreviation(a) => Chunk::Abbrev(a),
    };
    match nom_bibtex::Bibtex::raw_parse(text) {
        Ok(entries) => Some(entries.into_iter().filter_map(|e| match e {
            nom_bibtex::Entry::Variable(kv) =>
                Some((kv.key, kv.value.into_iter().map(to_chunk).collect())),
            _ => None,
        }).collect()),
        Err(_) => None,
    }
}

/// Find the first definition of `key`, as the parser's expansion does.
fn lookup_chunks<'a>(vars: &'a Vec<(String, Vec<Chunk>)>, key: &String) -> (r: Option<
    &'a Vec<Chunk>,
>)
    ensures
        match r {
            Some(v) => var_chunks(vars@, key@) == Some(v@),
            None => var_chunks(vars@, key@) is None,
        },
{
    let mut j: usize = 0;
    proof {
        assert(vars@.skip(0) =~= vars@);
    }
    while j < vars.len()
        invariant
            j <= vars.len(),
            var_chunks(vars@, key@) == var_chunks(vars@.skip(j as int), key@),
        decreases vars.len() - j,
    {
        proof {
            assert(vars@.skip(j as int).drop_first() =~= vars@.skip(j + 1));
        }
        if vars[j].0 == *key {
            return Some(&vars[j].1);
        }
        j = j + 1;
    }
    None
}

/// Decide `expansion_bounded` for one value.
fn chunks_bounded(chunks: &Vec<Chunk>, vars: &Vec<(String, Vec<Chunk>)>, fuel: usize) -> (r:
    bool)
    ensures
        r == expansion_bounded(chunks@, 0, vars@, fuel as nat),
    decreases fuel,
{
    let mut i: usize = 0;
    while i < chunks.len()
        invariant
            i <= chunks.len(),
            expansion_bounded(chunks@, 0, vars@, fuel as nat) == expansion_bounded(
                chunks@,
                i as int,
                vars@,
                fuel as nat,
            ),
        decreases chunks.len() - i,
    {
        match &chunks[i] {
            Chunk::Lit(_) => {},
            Chunk::Abbrev(a) => {
                match lookup_chunks(vars, a) {
                    None => {},
                    Some(inner) => {
                        if fuel == 0 {
                            return false;
                        }
                        if !chunks_bounded(inner, vars, fuel - 1) {
                            return false;
                        }
                    },
                }
            },
        }
        i = i + 1;
    }
    true
}

/// Decide whether every variable's expansion stays within the nesting
/// bound, i.e. whether the parser's expansion terminates on this text.
fn check_acyclic(vars: &Vec<(String, Vec<Chunk>)>) -> (r: bool)
    ensures
        r == acyclic_vars(vars@),
{
    let mut k: usize = 0;
    while k < vars.len()
        invariant
            k <= vars.len(),
            forall|m: int|
                0 <= m < k ==> expansion_bounded(
                    (#[trigger] vars@[m]).1@,
                    0,
                    vars@,
                    vars@.len() as nat,
                ),
        decreases vars.len() - k,
    {
        if !chunks_bounded(&vars[k].1, vars, vars.len()) {
            return false;
        }
        k = k + 1;
    }
    true
}

/// Relies on `nom_bibtex::Bibtex::parse` for the BibTeX grammar: it turns
/// the text into bibliography entries in source order, with string
/// variables expanded, or reports a parse error on malformed input. Each
/// entry is converted field for field. The requires keep the call inside
/// the parser's terminating domain: no scanner-hazard text, and no cyclic
/// `@string` definitions, on which its expansion would recurse without
/// bound. The parser recurses once per entry, so an enormous bibliography
/// can exhaust the stack; that resource limit, like memory exhaustion
/// generally, is not modeled here.
#[verifier::external_body]
fn parse_bibtex(text: &str) -> (r: Option<Vec<RawEntry>>)
    requires
        !parse_hazard(text@),
        raw_vars_of(text@) matches Some(vs) && acyclic_vars(vs),
    ensures
        match parsed_bib(text@) {
            Some(s) => r matches Some(v) && v@ == s,
            None => r is None,
        },
{
    match nom_bibtex::Bibtex::parse(text) {
        Ok(b) => Some(
            b.bibliographies().iter().map(
                |e| RawEntry {
                    key: e.citation_key().to_owned(),
                    entry_type: e.entry_type().to_owned(),
                    tags: e.tags().iter().map(
                        |t| Tag { name: t.0.clone(), value: t.1.clone() },
                    ).collect(),
                },
            ).collect(),
        ),
        Err(_) => None,
    }
}

/// Parse a composed bibliography text into entries. `None` signals a parse
/// failure, which callers treat as fatal: nothing is rendered from a text
/// that did not parse. Texts the parser itself cannot survive — a scanner
/// hazard (see `parse_hazard`), or cyclic `@string` definitions — are
/// reported as parse failures without touching it.
pub fn parse_entries(text: &str) -> (r: Option<Vec<RawEntry>>)
    ensures
        parse_hazard(text@) ==> r is None,
        !parse_hazard(text@) ==> match raw_vars_of(text@) {
            None => r is None,
            Some(vs) => if acyclic_vars(vs) {
                (r is Some <==> parsed_bib(text@) is Some) && (r matches Some(v) ==> parsed_bib(
                    text@,
                ) == Some(v@))
            } else {
                r is None
            },
        },
{
    let n = text.unicode_len();
    if n >= 0x8000_0000 {
        return None;
    }
    if n > 0 {
        let c = text.get_char(n - 1);
        if c == '{' || c == '"' || (c as u32) >= 0x80 {
            return None;
        }
    }
    let vars = match parse_variables(text) {
        Some(v) => v,
        None => {
            return None;
        },
    };
    if !check_acyclic(&vars) {
        return None;
    }
    parse_bibtex(text)
}

/// Normalize every parsed entry, keeping parse order.
pub fn normalize_entries(entries: Vec<RawEntry>) -> (r: Vec<NormalizedEntry>)
    ensures
        r@.len() == entries@.len(),
        forall|i: int|
            0 <= i < r@.len() ==> (#[trigger] r@[i]).wf() && r@[i].raw == entries@[i],
{
    let ghost orig = entries@;
    let mut rest = entries;
    let mut r: Vec<NormalizedEntry> = Vec::new();
    proof {
        assert(rest@ =~= orig.subrange(0, orig.len() as int));
    }
    while rest.len() > 0
        invariant
            r@.len() + rest@.len() == orig.len(),
            rest@ == orig.subrange(r@.len() as int, orig.len() as int),
            forall|j: int|
                0 <= j < r@.len() ==> (#[trigger] r@[j]).wf() && r@[j].raw == orig[j],
        decreases rest.len(),
    {
        let e = rest.remove(0);
        proof {
            assert(e == orig[r@.len() as int]);
        }
        r.push(normalize(e));
        proof {
            assert(rest@ =~= orig.subrange(r@.len() as int, orig.len() as int));
        }
    }
    r
}

} // verus!
