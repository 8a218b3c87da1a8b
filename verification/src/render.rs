//! The two non-interactive projections of a bibliography: the one-line
//! summaries fed to the primary selection list, and the single-entry table
//! of lookup mode, which the selection widget re-invokes as its preview.

use vstd::prelude::*;
use crate::entry::{NormalizedEntry, RawEntry, Tag};
use crate::text::{concat2, display_form, strformat};
use vstd::string::StringExecFns;

verus! {

/// The index of the first entry at or after `i` whose citation key is
/// exactly `key`.
pub open spec fn spec_find_from(entries: Seq<RawEntry>, key: Seq<char>, i: int) -> Option<int>
    decreases entries.len() - i,
    when 0 <= i <= entries.len()
{
    if i >= entries.len() {
        None
    } else if entries[i].key@ == key {
        Some(i)
    } else {
        spec_find_from(entries, key, i + 1)
    }
}

/// The index of the first entry whose citation key is exactly `key`:
/// first match wins, duplicates are not rejected.
pub open spec fn spec_find(entries: Seq<RawEntry>, key: Seq<char>) -> Option<int> {
    spec_find_from(entries, key, 0)
}

/// Scan the entries in parse order for the first exact citation-key match.
pub fn find_entry(entries: &Vec<RawEntry>, key: &str) -> (r: Option<usize>)
    ensures
        match r {
            Some(i) => i < entries@.len() && spec_find(entries@, key@) == Some(i as int),
            None => spec_find(entries@, key@) is None,
        },
{
    let k = key.to_owned();
    let mut i: usize = 0;
    while i < entries.len()
        invariant
            i <= entries.len(),
            k@ == key@,
            spec_find(entries@, key@) == spec_find_from(entries@, key@, i as int),
        decreases entries.len() - i,
    {
        if entries[i].key == k {
            return Some(i);
        }
        i = i + 1;
    }
    None
}

/// The two-column table rows of lookup mode for entry `e`: the citation
/// key, the entry type, then one row per tag, names as the parser gave
/// them, values in display form.
pub open spec fn spec_rows(e: RawEntry) -> Seq<(Seq<char>, Seq<char>)> {
    seq![("key"@, e.key@), ("type"@, e.entry_type@)] + e.tags@.map_values(
        |t: Tag| (t.name@, display_form(t.value@)),
    )
}

/// Build the lookup-mode table rows for an entry.
pub fn entry_rows(e: &RawEntry) -> (r: Vec<(String, String)>)
    ensures
        r@.len() == spec_rows(*e).len(),
        forall|i: int|
            0 <= i < r@.len() ==> ((#[trigger] r@[i]).0@, r@[i].1@) == spec_rows(*e)[i],
{
    let mut r: Vec<(String, String)> = Vec::new();
    r.push(("key".to_owned(), e.key.clone()));
    r.push(("type".to_owned(), e.entry_type.clone()));
    let mut i: usize = 0;
    while i < e.tags.len()
        invariant
            i <= e.tags.len(),
            r@.len() == 2 + i,
            ((r@[0]).0@, r@[0].1@) == spec_rows(*e)[0],
            ((r@[1]).0@, r@[1].1@) == spec_rows(*e)[1],
            forall|j: int|
                2 <= j < r@.len() ==> ((#[trigger] r@[j]).0@, r@[j].1@) == spec_rows(*e)[j],
        decreases e.tags.len() - i,
    {
        let name = e.tags[i].name.clone();
        let value = strformat(e.tags[i].value.as_str());
        r.push((name, value));
        i = i + 1;
    }
    r
}

/// What lookup mode produced: either the table of the first matching entry
/// (the caller prints it and exits with success) or the not-found
/// diagnostic (the caller prints it and exits with failure).
#[derive(Debug, PartialEq, Eq)]
pub enum LookupResult {
    Found { rows: Vec<(String, String)> },
    NotFound { message: String },
}

/// Lookup mode: render the first entry whose citation key is `key`, or the
/// not-found diagnostic when no entry has it.
pub fn lookup_entry(entries: &Vec<RawEntry>, key: &str) -> (r: LookupResult)
    ensures
        match spec_find(entries@, key@) {
            Some(i) => {
                &&& r matches LookupResult::Found { rows }
                &&& rows@.len() == spec_rows(entries@[i]).len()
                &&& forall|j: int|
                    0 <= j < rows@.len() ==> ((#[trigger] rows@[j]).0@, rows@[j].1@) == spec_rows(
                        entries@[i],
                    )[j]
            },
            None => r matches LookupResult::NotFound { message } && message@ == "Couldn't find key "@
                + key@,
        },
{
    match find_entry(entries, key) {
        Some(i) => LookupResult::Found { rows: entry_rows(&entries[i]) },
        None => LookupResult::NotFound { message: concat2("Couldn't find key ", key) },
    }
}

/// The display form of a field for the summary line: whitespace collapsed,
/// or empty when the entry lacks the field.
pub open spec fn spec_summary_field(e: NormalizedEntry, name: Seq<char>) -> Seq<char> {
    match e.spec_field(name) {
        Some(v) => display_form(v),
        None => Seq::empty(),
    }
}

/// The one-line summary shown in the primary list: the citation key, a `|`
/// delimiter, then title, author and year in display form.
pub open spec fn spec_summary_line(e: NormalizedEntry) -> Seq<char> {
    e.raw.key@ + " | "@ + spec_summary_field(e, "title"@) + " - "@ + spec_summary_field(
        e,
        "author"@,
    ) + " - "@ + spec_summary_field(e, "year"@)
}

fn summary_field(e: &NormalizedEntry, name: &str) -> (r: String)
    requires
        e.wf(),
    ensures
        r@ == spec_summary_field(*e, name@),
{
    match e.get_field(name) {
        Some(v) => strformat(v.as_str()),
        None => String::new(),
    }
}

/// Build the summary line of one entry.
pub fn summary_line(e: &NormalizedEntry) -> (r: String)
    requires
        e.wf(),
    ensures
        r@ == spec_summary_line(*e),
{
    let mut r = e.raw.key.clone();
    r.append(" | ");
    let title = summary_field(e, "title");
    r.append(title.as_str());
    r.append(" - ");
    let author = summary_field(e, "author");
    r.append(author.as_str());
    r.append(" - ");
    let year = summary_field(e, "year");
    r.append(year.as_str());
    r
}

/// Build the summary lines of all entries, one per entry, in parse order.
pub fn summary_lines(entries: &Vec<NormalizedEntry>) -> (r: Vec<String>)
    requires
        forall|i: int| 0 <= i < entries@.len() ==> (#[trigger] entries@[i]).wf(),
    ensures
        r@.len() == entries@.len(),
        forall|i: int|
            0 <= i < r@.len() ==> (#[trigger] r@[i]@) == spec_summary_line(entries@[i]),
{
    let mut r: Vec<String> = Vec::new();
    let mut i: usize = 0;
    while i < entries.len()
        invariant
            i <= entries.len(),
            r@.len() == i,
            forall|j: int| 0 <= j < entries@.len() ==> (#[trigger] entries@[j]).wf(),
            forall|j: int| 0 <= j < i ==> (#[trigger] r@[j]@) == spec_summary_line(entries@[j]),
        decreases entries.len() - i,
    {
        r.push(summary_line(&entries[i]));
        i = i + 1;
    }
    r
}

/// The preview command handed to the selection widget: it re-invokes this
/// program in lookup mode on the highlighted row's key column.
pub fn preview_command(exe: &str, bib_path: &str) -> (r: String)
    ensures
        r@ == exe@ + " --key {1} "@ + bib_path@,
{
    let head = concat2(exe, " --key {1} ");
    concat2(head.as_str(), bib_path)
}

} // verus!
