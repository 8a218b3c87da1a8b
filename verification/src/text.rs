//! Display-form text handling: collapsing whitespace runs for single-line
//! display, and ASCII lower-casing for case-insensitive field names.

use vstd::prelude::*;
use vstd::string::StringExecFns;

verus! {

/// A whitespace character for display purposes: space, tab, or line break.
pub open spec fn is_space_char(c: char) -> bool {
    c == ' ' || c == '\t' || c == '\n' || c == '\r'
}

/// One step of whitespace collapsing: extend `r` (the collapsed form of a
/// prefix) with the next character `c`. A whitespace character contributes a
/// single space, and only when the text so far does not already end in one.
pub open spec fn collapse_step(r: Seq<char>, c: char) -> Seq<char> {
    if is_space_char(c) {
        if r.len() == 0 || r.last() == ' ' {
            r
        } else {
            r.push(' ')
        }
    } else {
        r.push(c)
    }
}

/// Collapse every whitespace run of `s` to a single space and drop leading
/// whitespace. At most one trailing space can remain.
pub open spec fn collapse_prefix(s: Seq<char>) -> Seq<char>
    decreases s.len(),
{
    if s.len() == 0 {
        Seq::empty()
    } else {
        collapse_step(collapse_prefix(s.drop_last()), s.last())
    }
}

/// The display form of a string: whitespace runs collapsed to single spaces,
/// no leading or trailing whitespace.
pub open spec fn display_form(s: Seq<char>) -> Seq<char> {
    let r = collapse_prefix(s);
    if r.len() > 0 && r.last() == ' ' {
        r.drop_last()
    } else {
        r
    }
}

/// `t` collapsed up to a possible single trailing space: every whitespace
/// character in `t` is a plain space, no two spaces are adjacent, and `t`
/// does not start with a space.
pub open spec fn semi_collapsed(t: Seq<char>) -> bool {
    &&& forall|i: int| 0 <= i < t.len() && is_space_char(#[trigger] t[i]) ==> t[i] == ' '
    &&& forall|i: int| 0 < i < t.len() && #[trigger] t[i] == ' ' ==> t[i - 1] != ' '
    &&& t.len() > 0 ==> t[0] != ' '
}

/// `t` is fully in display form: `semi_collapsed` and no trailing space.
pub open spec fn is_display_form(t: Seq<char>) -> bool {
    &&& semi_collapsed(t)
    &&& t.len() > 0 ==> t[t.len() - 1] != ' '
}

proof fn lemma_collapse_prefix_semi(s: Seq<char>)
    ensures
        semi_collapsed(collapse_prefix(s)),
    decreases s.len(),
{
    if s.len() > 0 {
        lemma_collapse_prefix_semi(s.drop_last());
    }
}

/// Dropping a trailing space keeps the remaining text collapsed and leaves no
/// new trailing space behind.
proof fn lemma_display_form_shape(s: Seq<char>)
    ensures
        is_display_form(display_form(s)),
{
    lemma_collapse_prefix_semi(s);
    let r = collapse_prefix(s);
    if r.len() > 0 && r.last() == ' ' {
        assert(r.len() >= 2) by {
            assert(r[0] != ' ');
        }
        assert(r[r.len() - 2] != ' ');
    }
}

/// Text that is already collapsed (up to a trailing space) is a fixed point
/// of the collapsing pass.
proof fn lemma_semi_collapsed_fixed(t: Seq<char>)
    requires
        semi_collapsed(t),
    ensures
        collapse_prefix(t) == t,
    decreases t.len(),
{
    if t.len() > 0 {
        let u = t.drop_last();
        assert(semi_collapsed(u));
        lemma_semi_collapsed_fixed(u);
        assert(collapse_step(u, t.last()) =~= t);
    }
}

/// `strformat` applied twice equals `strformat` applied once: collapsing
/// whitespace is idempotent.
pub proof fn lemma_display_form_idempotent(s: Seq<char>)
    ensures
        display_form(display_form(s)) == display_form(s),
{
    lemma_display_form_shape(s);
    let o = display_form(s);
    lemma_semi_collapsed_fixed(o);
    if o.len() > 0 {
        assert(o.last() != ' ');
    }
}

/// The display form of any string has no two adjacent whitespace characters
/// and neither leading nor trailing whitespace.
pub proof fn lemma_display_form_no_stray_whitespace(s: Seq<char>)
    ensures
        is_display_form(display_form(s)),
        forall|i: int|
            0 <= i < display_form(s).len() && is_space_char(#[trigger] display_form(s)[i])
                ==> display_form(s)[i] == ' ',
        forall|i: int|
            0 < i < display_form(s).len() ==> !(is_space_char(display_form(s)[i - 1])
                && is_space_char(#[trigger] display_form(s)[i])),
        display_form(s).len() > 0 ==> !is_space_char(display_form(s)[0]),
        display_form(s).len() > 0 ==> !is_space_char(display_form(s)[display_form(s).len() - 1]),
{
    lemma_display_form_shape(s);
}

/// Relies on `Iterator::collect`: collecting the characters of a string slice
/// yields exactly its character sequence.
#[verifier::external_body]
pub(crate) fn chars_of(s: &str) -> (r: Vec<char>)
    ensures
        r@ == s@,
{
    s.chars().collect()
}

/// Relies on `Iterator::collect`: collecting a sequence of characters yields
/// the string made of exactly those characters.
#[verifier::external_body]
pub(crate) fn string_of(cs: &Vec<char>) -> (r: String)
    ensures
        r@ == cs@,
{
    cs.iter().collect()
}

/// Collapse every run of whitespace in `s` to a single space and trim the
/// result, for single-line display.
pub fn strformat(s: &str) -> (r: String)
    ensures
        r@ == display_form(s@),
        is_display_form(r@),
{
    let cs = chars_of(s);
    let mut out: Vec<char> = Vec::new();
    let mut i: usize = 0;
    while i < cs.len()
        invariant
            i <= cs.len(),
            cs@ == s@,
            out@ == collapse_prefix(s@.take(i as int)),
        decreases cs.len() - i,
    {
        let c = cs[i];
        if c == ' ' || c == '\t' || c == '\n' || c == '\r' {
            if out.len() > 0 && out[out.len() - 1] != ' ' {
                out.push(' ');
            }
        } else {
            out.push(c);
        }
        proof {
            assert(s@.take(i + 1).drop_last() =~= s@.take(i as int));
            assert(out@ == collapse_step(collapse_prefix(s@.take(i as int)), s@[i as int]));
        }
        i = i + 1;
    }
    proof {
        assert(s@.take(s@.len() as int) =~= s@);
    }
    if out.len() > 0 && out[out.len() - 1] == ' ' {
        out.pop();
    }
    proof {
        lemma_display_form_shape(s@);
    }
    string_of(&out)
}

/// The colon-delimited segments of `s`, in order; the empty string has one
/// empty segment.
pub open spec fn colon_segments(s: Seq<char>) -> Seq<Seq<char>>
    decreases s.len(),
{
    if s.len() == 0 {
        seq![Seq::empty()]
    } else {
        let r = colon_segments(s.drop_last());
        if s.last() == ':' {
            r.push(Seq::empty())
        } else {
            r.update(r.len() - 1, r.last().push(s.last()))
        }
    }
}

/// Split `s` at every colon, keeping empty segments.
pub fn split_colons(s: &str) -> (r: Vec<String>)
    ensures
        r@.len() == colon_segments(s@).len(),
        forall|i: int| 0 <= i < r@.len() ==> (#[trigger] r@[i]@) == colon_segments(s@)[i],
{
    let cs = chars_of(s);
    let mut done: Vec<String> = Vec::new();
    let mut cur: Vec<char> = Vec::new();
    let mut i: usize = 0;
    proof {
        assert(s@.take(0) =~= Seq::<char>::empty());
    }
    while i < cs.len()
        invariant
            i <= cs.len(),
            cs@ == s@,
            colon_segments(s@.take(i as int)).len() == done@.len() + 1,
            forall|j: int|
                0 <= j < done@.len() ==> (#[trigger] done@[j]@) == colon_segments(
                    s@.take(i as int),
                )[j],
            cur@ == colon_segments(s@.take(i as int)).last(),
        decreases cs.len() - i,
    {
        proof {
            assert(s@.take(i + 1).drop_last() =~= s@.take(i as int));
        }
        let c = cs[i];
        if c == ':' {
            done.push(string_of(&cur));
            cur = Vec::new();
        } else {
            cur.push(c);
        }
        i = i + 1;
    }
    proof {
        assert(s@.take(s@.len() as int) =~= s@);
    }
    done.push(string_of(&cur));
    done
}

/// Concatenate two string slices.
pub fn concat2(a: &str, b: &str) -> (r: String)
    ensures
        r@ == a@ + b@,
{
    let mut r = a.to_owned();
    r.append(b);
    r
}

/// The lines of `ls` joined with single newline separators, no trailing
/// newline.
pub open spec fn joined_lines(ls: Seq<String>) -> Seq<char>
    decreases ls.len(),
{
    if ls.len() == 0 {
        Seq::empty()
    } else if ls.len() == 1 {
        ls[0]@
    } else {
        joined_lines(ls.drop_last()) + "\n"@ + ls.last()@
    }
}

/// Join `ls` with newline separators, for handing a list to the interactive
/// selection widget.
pub fn join_lines(ls: &Vec<String>) -> (r: String)
    ensures
        r@ == joined_lines(ls@),
{
    let mut r = String::new();
    let mut i: usize = 0;
    while i < ls.len()
        invariant
            i <= ls.len(),
            r@ == joined_lines(ls@.take(i as int)),
        decreases ls.len() - i,
    {
        if i > 0 {
            r.append("\n");
        }
        r.append(ls[i].as_str());
        proof {
            assert(ls@.take(i + 1).drop_last() =~= ls@.take(i as int));
            assert(ls@.take(i + 1).last() == ls@[i as int]);
            if i == 0 {
                assert(joined_lines(ls@.take(1)) == ls@.take(1)[0]@);
            }
        }
        i = i + 1;
    }
    proof {
        assert(ls@.take(ls@.len() as int) =~= ls@);
    }
    r
}

/// The ASCII lower-case form of a character; other characters are unchanged.
pub open spec fn lower_char(c: char) -> char {
    match c {
        'A' => 'a',
        'B' => 'b',
        'C' => 'c',
        'D' => 'd',
        'E' => 'e',
        'F' => 'f',
        'G' => 'g',
        'H' => 'h',
        'I' => 'i',
        'J' => 'j',
        'K' => 'k',
        'L' => 'l',
        'M' => 'm',
        'N' => 'n',
        'O' => 'o',
        'P' => 'p',
        'Q' => 'q',
        'R' => 'r',
        'S' => 's',
        'T' => 't',
        'U' => 'u',
        'V' => 'v',
        'W' => 'w',
        'X' => 'x',
        'Y' => 'y',
        'Z' => 'z',
        _ => c,
    }
}

/// The ASCII lower-case form of a character sequence.
pub open spec fn lower_seq(s: Seq<char>) -> Seq<char> {
    s.map_values(|c: char| lower_char(c))
}

fn lower_char_exec(c: char) -> (r: char)
    ensures
        r == lower_char(c),
{
    match c {
        'A' => 'a',
        'B' => 'b',
        'C' => 'c',
        'D' => 'd',
        'E' => 'e',
        'F' => 'f',
        'G' => 'g',
        'H' => 'h',
        'I' => 'i',
        'J' => 'j',
        'K' => 'k',
        'L' => 'l',
        'M' => 'm',
        'N' => 'n',
        'O' => 'o',
        'P' => 'p',
        'Q' => 'q',
        'R' => 'r',
        'S' => 's',
        'T' => 't',
        'U' => 'u',
        'V' => 'v',
        'W' => 'w',
        'X' => 'x',
        'Y' => 'y',
        'Z' => 'z',
        _ => c,
    }
}

/// The ASCII lower-case form of a string.
pub fn lower_str(s: &str) -> (r: String)
    ensures
        r@ == lower_seq(s@),
{
    let cs = chars_of(s);
    let mut out: Vec<char> = Vec::new();
    let mut i: usize = 0;
    while i < cs.len()
        invariant
            i <= cs.len(),
            cs@ == s@,
            out@ == lower_seq(s@.take(i as int)),
        decreases cs.len() - i,
    {
        let c = cs[i];
        out.push(lower_char_exec(c));
        proof {
            assert(lower_seq(s@.take(i + 1)) =~= lower_seq(s@.take(i as int)).push(
                lower_char(s@[i as int]),
            ));
        }
        i = i + 1;
    }
    proof {
        assert(s@.take(s@.len() as int) =~= s@);
    }
    string_of(&out)
}

} // verus!

