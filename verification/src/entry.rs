//! Bibliographic entries: the raw records the external parser hands over and
//! their normalized, case-insensitively queryable form.

use vstd::prelude::*;
use crate::text::{lower_seq, lower_str};

verus! {

/// One field of a raw entry, exactly as parsed: a tag name (case not
/// normalized, possibly repeated within an entry) and its raw value.
pub struct Tag {
    pub name: String,
    pub value: String,
}

/// One bibliographic record as the external parser produced it: citation
/// key, entry type, and the tags in source order.
pub struct RawEntry {
    pub key: String,
    pub entry_type: String,
    pub tags: Vec<Tag>,
}

/// The raw value of the last tag in `tags` whose lower-cased name equals
/// `name` (`name` must already be lower-cased): later duplicates shadow
/// earlier ones.
pub open spec fn field_of(tags: Seq<Tag>, name: Seq<char>) -> Option<Seq<char>>
    decreases tags.len(),
{
    if tags.len() == 0 {
        None
    } else if lower_seq(tags.last().name@) == name {
        Some(tags.last().value@)
    } else {
        field_of(tags.drop_last(), name)
    }
}

/// A raw entry together with its lookup data: the same tags with
/// lower-cased names, in tag order. Values stay the parser's raw text;
/// whitespace is normalized only at display time.
pub struct NormalizedEntry {
    pub raw: RawEntry,
    pub lowered: Vec<Tag>,
}

impl NormalizedEntry {
    /// The lookup data mirrors the raw tags: same length, same values,
    /// names lower-cased.
    pub open spec fn wf(self) -> bool {
        &&& self.lowered@.len() == self.raw.tags@.len()
        &&& forall|i: int|
            0 <= i < self.raw.tags@.len() ==> (#[trigger] self.lowered@[i].name@) == lower_seq(
                self.raw.tags@[i].name@,
            ) && self.lowered@[i].value@ == self.raw.tags@[i].value@
    }

    /// The case-insensitive field lookup of this entry: the value of the
    /// last tag whose name matches `name` up to ASCII case.
    pub open spec fn spec_field(self, name: Seq<char>) -> Option<Seq<char>> {
        field_of(self.raw.tags@, lower_seq(name))
    }

    /// Look up a field by name, ignoring ASCII case; absent names yield
    /// `None`, never a default value.
    pub fn get_field(&self, name: &str) -> (r: Option<&String>)
        requires
            self.wf(),
        ensures
            match r {
                Some(v) => self.spec_field(name@) == Some(v@),
                None => self.spec_field(name@) is None,
            },
    {
        let lname = lower_str(name);
        let mut i: usize = self.lowered.len();
        proof {
            assert(self.raw.tags@.take(self.raw.tags@.len() as int) =~= self.raw.tags@);
        }
        while i > 0
            invariant
                self.wf(),
                i <= self.lowered.len(),
                lname@ == lower_seq(name@),
                self.spec_field(name@) == field_of(
                    self.raw.tags@.take(i as int),
                    lower_seq(name@),
                ),
            decreases i,
        {
            i = i - 1;
            proof {
                assert(self.raw.tags@.take(i + 1).drop_last() =~= self.raw.tags@.take(i as int));
            }
            if self.lowered[i].name == lname {
                return Some(&self.lowered[i].value);
            }
        }
        proof {
            assert(self.raw.tags@.take(0) =~= Seq::<Tag>::empty());
        }
        None
    }

    /// Whether the entry has a field named `name`, ignoring ASCII case.
    pub fn has_field(&self, name: &str) -> (r: bool)
        requires
            self.wf(),
        ensures
            r == (self.spec_field(name@) is Some),
    {
        match self.get_field(name) {
            Some(_) => true,
            None => false,
        }
    }
}

/// Derive the queryable form of a raw entry. The raw record is kept as is;
/// only the lookup data lower-cases the tag names.
pub fn normalize(raw: RawEntry) -> (r: NormalizedEntry)
    ensures
        r.wf(),
        r.raw == raw,
{
    let mut lowered: Vec<Tag> = Vec::new();
    let mut i: usize = 0;
    while i < raw.tags.len()
        invariant
            i <= raw.tags.len(),
            lowered@.len() == i,
            forall|j: int|
                0 <= j < i ==> (#[trigger] lowered@[j].name@) == lower_seq(raw.tags@[j].name@)
                    && lowered@[j].value@ == raw.tags@[j].value@,
        decreases raw.tags.len() - i,
    {
        let name = lower_str(raw.tags[i].name.as_str());
        let value = raw.tags[i].value.clone();
        lowered.push(Tag { name, value });
        i = i + 1;
    }
    NormalizedEntry { raw, lowered }
}

/// Lookup by any ASCII-case variant of a repeated tag name returns the value
/// of the *last* occurrence in tag order: if position `i` is the last tag
/// whose name matches `name` up to case, the lookup yields its value.
pub proof fn lemma_field_of_last_occurrence(tags: Seq<Tag>, i: int, name: Seq<char>)
    requires
        0 <= i < tags.len(),
        lower_seq(tags[i].name@) == lower_seq(name),
        forall|j: int| i < j < tags.len() ==> lower_seq((#[trigger] tags[j].name@)) != lower_seq(name),
    ensures
        field_of(tags, lower_seq(name)) == Some(tags[i].value@),
    decreases tags.len(),
{
    if i < tags.len() - 1 {
        assert(lower_seq(tags.last().name@) != lower_seq(name));
        lemma_field_of_last_occurrence(tags.drop_last(), i, name);
    }
}

} // verus!
