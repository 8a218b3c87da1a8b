//! The entry-contextual action menu and its dispatch state machine: a static
//! table of actions, each gated by a required field, each mapped to one
//! external effect that the caller performs.

use vstd::prelude::*;
use crate::entry::NormalizedEntry;
use crate::settings::Settings;
use crate::text::{colon_segments, concat2, split_colons};

verus! {

/// One action the user can trigger on a selected entry.
#[derive(Clone, Copy, Debug, PartialEq, Eq, Structural)]
pub enum Action {
    OpenPdf,
    OpenUrl,
    OpenDoi,
    CopyKey,
    CopyCite,
}

/// The label a menu row shows for an action.
pub open spec fn spec_label(a: Action) -> Seq<char> {
    match a {
        Action::OpenPdf => "Open PDF"@,
        Action::OpenUrl => "Open URL"@,
        Action::OpenDoi => "Open DOI"@,
        Action::CopyKey => "Copy key"@,
        Action::CopyCite => "Copy \\cite"@,
    }
}

/// The label a menu row shows for an action.
pub fn label(a: Action) -> (r: String)
    ensures
        r@ == spec_label(a),
{
    match a {
        Action::OpenPdf => "Open PDF".to_owned(),
        Action::OpenUrl => "Open URL".to_owned(),
        Action::OpenDoi => "Open DOI".to_owned(),
        Action::CopyKey => "Copy key".to_owned(),
        Action::CopyCite => "Copy \\cite".to_owned(),
    }
}

/// The field an action needs, or `None` for the two always-available
/// actions. This is exactly the field the handler itself reads, so a
/// handler never fires on missing data.
pub open spec fn spec_required_field(a: Action) -> Option<Seq<char>> {
    match a {
        Action::OpenPdf => Some("file"@),
        Action::OpenUrl => Some("url"@),
        Action::OpenDoi => Some("doi"@),
        Action::CopyKey => None,
        Action::CopyCite => None,
    }
}

/// Whether the menu offers `a` for entry `e`: the required field, if any, is
/// present in `e`'s field map (field names compared case-insensitively).
pub open spec fn spec_available(a: Action, e: NormalizedEntry) -> bool {
    match spec_required_field(a) {
        Some(f) => e.spec_field(f) is Some,
        None => true,
    }
}

/// The menu for entry `e`: the action table filtered to the available
/// actions, in the table's declared order.
pub open spec fn spec_menu(e: NormalizedEntry) -> Seq<Action> {
    (if spec_available(Action::OpenPdf, e) {
        seq![Action::OpenPdf]
    } else {
        Seq::empty()
    }) + (if spec_available(Action::OpenUrl, e) {
        seq![Action::OpenUrl]
    } else {
        Seq::empty()
    }) + (if spec_available(Action::OpenDoi, e) {
        seq![Action::OpenDoi]
    } else {
        Seq::empty()
    }) + seq![Action::CopyKey, Action::CopyCite]
}

/// Build the action menu for an entry.
pub fn available_actions(e: &NormalizedEntry) -> (r: Vec<Action>)
    requires
        e.wf(),
    ensures
        r@ == spec_menu(*e),
{
    let mut r: Vec<Action> = Vec::new();
    if e.has_field("file") {
        r.push(Action::OpenPdf);
    }
    if e.has_field("url") {
        r.push(Action::OpenUrl);
    }
    if e.has_field("doi") {
        r.push(Action::OpenDoi);
    }
    r.push(Action::CopyKey);
    r.push(Action::CopyCite);
    proof {
        assert(r@ =~= spec_menu(*e));
    }
    r
}

/// The labels of the menu rows, in menu order.
pub fn menu_labels(actions: &Vec<Action>) -> (r: Vec<String>)
    ensures
        r@.len() == actions@.len(),
        forall|i: int| 0 <= i < r@.len() ==> (#[trigger] r@[i]@) == spec_label(actions@[i]),
{
    let mut r: Vec<String> = Vec::new();
    let mut i: usize = 0;
    while i < actions.len()
        invariant
            i <= actions.len(),
            r@.len() == i,
            forall|j: int| 0 <= j < i ==> (#[trigger] r@[j]@) == spec_label(actions@[j]),
        decreases actions.len() - i,
    {
        r.push(label(actions[i]));
        i = i + 1;
    }
    r
}

/// An entry lacking `file`, `url`, and `doi` gets exactly the two
/// always-available actions; an entry with all three gets all five, in the
/// table's declared order.
pub proof fn lemma_menu_filter(e: NormalizedEntry)
    ensures
        e.spec_field("file"@) is None && e.spec_field("url"@) is None && e.spec_field("doi"@)
            is None ==> spec_menu(e) == seq![Action::CopyKey, Action::CopyCite],
        e.spec_field("file"@) is Some && e.spec_field("url"@) is Some && e.spec_field("doi"@)
            is Some ==> spec_menu(e) == seq![
            Action::OpenPdf,
            Action::OpenUrl,
            Action::OpenDoi,
            Action::CopyKey,
            Action::CopyCite,
        ],
{
    if e.spec_field("file"@) is None && e.spec_field("url"@) is None && e.spec_field("doi"@)
        is None {
        assert(spec_menu(e) =~= seq![Action::CopyKey, Action::CopyCite]);
    }
    if e.spec_field("file"@) is Some && e.spec_field("url"@) is Some && e.spec_field("doi"@)
        is Some {
        assert(spec_menu(e) =~= seq![
            Action::OpenPdf,
            Action::OpenUrl,
            Action::OpenDoi,
            Action::CopyKey,
            Action::CopyCite,
        ]);
    }
}

/// What a dispatched action decides to do; the caller performs the one
/// external effect. Spawn failures are deliberately not surfaced: opening a
/// document is best-effort.
#[derive(Debug, PartialEq, Eq)]
pub enum Outcome {
    /// Launch `program` with `arg` as its sole argument.
    Spawn { program: String, arg: String },
    /// Write `line` to standard output.
    Emit { line: String },
    /// Report a diagnostic to the user; no side effect.
    Notice { message: String },
}

/// The mathematical shape of an `Outcome`.
pub enum OutcomeView {
    Spawn { program: Seq<char>, arg: Seq<char> },
    Emit { line: Seq<char> },
    Notice { message: Seq<char> },
}

impl View for Outcome {
    type V = OutcomeView;

    open spec fn view(&self) -> OutcomeView {
        match self {
            Outcome::Spawn { program, arg } => OutcomeView::Spawn {
                program: program@,
                arg: arg@,
            },
            Outcome::Emit { line } => OutcomeView::Emit { line: line@ },
            Outcome::Notice { message } => OutcomeView::Notice { message: message@ },
        }
    }
}

/// What dispatching action `a` on entry `e` under settings `s` does.
///
/// Open PDF reads the raw (never whitespace-normalized) `file` value, whose
/// colon-delimited form is `description:path:type`; fewer than three
/// segments is a malformed field and only reported. Open DOI prefixes the
/// raw `doi` value with the resolver URL; Open URL passes the raw `url`
/// value through. The copy actions print. Each handler re-checks its field
/// and degrades to a diagnostic when it is absent.
pub open spec fn spec_dispatch(a: Action, e: NormalizedEntry, s: Settings) -> OutcomeView {
    match a {
        Action::OpenPdf => match e.spec_field("file"@) {
            Some(v) => {
                let segs = colon_segments(v);
                if segs.len() < 3 {
                    OutcomeView::Notice { message: "'file' field not recognized"@ }
                } else {
                    OutcomeView::Spawn { program: s.open_pdf@, arg: segs[1] }
                }
            },
            None => OutcomeView::Notice { message: "No PDF in entry "@ + e.raw.key@ },
        },
        Action::OpenUrl => match e.spec_field("url"@) {
            Some(v) => OutcomeView::Spawn { program: s.open_url@, arg: v },
            None => OutcomeView::Notice { message: "No URL in entry "@ + e.raw.key@ },
        },
        Action::OpenDoi => match e.spec_field("doi"@) {
            Some(v) => OutcomeView::Spawn {
                program: s.open_doi@,
                arg: "https://dx.doi.org/"@ + v,
            },
            None => OutcomeView::Notice { message: "No DOI in entry "@ + e.raw.key@ },
        },
        Action::CopyKey => OutcomeView::Emit { line: e.raw.key@ },
        Action::CopyCite => OutcomeView::Emit { line: "\\cite{"@ + e.raw.key@ + "}"@ },
    }
}

/// Decide the effect of action `a` on entry `e` under settings `s`.
pub fn dispatch(a: Action, e: &NormalizedEntry, s: &Settings) -> (r: Outcome)
    requires
        e.wf(),
    ensures
        r@ == spec_dispatch(a, *e, *s),
{
    match a {
        Action::OpenPdf => match e.get_field("file") {
            Some(v) => {
                let segs = split_colons(v.as_str());
                if segs.len() < 3 {
                    Outcome::Notice { message: "'file' field not recognized".to_owned() }
                } else {
                    let arg = segs[1].clone();
                    Outcome::Spawn { program: s.open_pdf.clone(), arg }
                }
            },
            None => Outcome::Notice { message: concat2("No PDF in entry ", e.raw.key.as_str()) },
        },
        Action::OpenUrl => match e.get_field("url") {
            Some(v) => Outcome::Spawn { program: s.open_url.clone(), arg: v.clone() },
            None => Outcome::Notice { message: concat2("No URL in entry ", e.raw.key.as_str()) },
        },
        Action::OpenDoi => match e.get_field("doi") {
            Some(v) => Outcome::Spawn {
                program: s.open_doi.clone(),
                arg: concat2("https://dx.doi.org/", v.as_str()),
            },
            None => Outcome::Notice { message: concat2("No DOI in entry ", e.raw.key.as_str()) },
        },
        Action::CopyKey => Outcome::Emit { line: e.raw.key.clone() },
        Action::CopyCite => Outcome::Emit {
            line: concat2(concat2("\\cite{", e.raw.key.as_str()).as_str(), "}"),
        },
    }
}

} // verus!
