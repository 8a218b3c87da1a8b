//! The resolved configuration: one external command per action, the builtin
//! preamble, and the preamble-file settings. The caller overlays a user
//! configuration file onto the defaults before handing the result over.

use vstd::prelude::*;

verus! {

/// The configuration the library's decisions depend on.
pub struct Settings {
    /// Command launched to open an attached PDF.
    pub open_pdf: String,
    /// Command launched to open a DOI resolver URL.
    pub open_doi: String,
    /// Command launched to open a plain URL.
    pub open_url: String,
    /// Configured clipboard command for the citation key (the default
    /// binding only prints the key).
    pub copy_key: String,
    /// Configured clipboard command for the `\cite` string (the default
    /// binding only prints it).
    pub copy_cite: String,
    /// The builtin preamble prepended to every parse.
    pub preamble: String,
    /// Identifiers of extra preamble files: absolute paths or names to
    /// resolve against the shared bibliography tree.
    pub preamble_files: Vec<String>,
    /// Root under which the shared bibliography tree is searched.
    pub texlive_path: String,
}

/// The builtin month-abbreviation definitions that precede every parse.
pub open spec fn spec_default_preamble() -> Seq<char> {
    "
    @String { jan = \"January\" }
    @String { feb = \"February\" }
    @String { mar = \"March\" }
    @String { apr = \"April\" }
    @String { mai = \"Mai\" }
    @String { jun = \"June\" }
    @String { jul = \"July\" }
    @String { aug = \"August\" }
    @String { sep = \"September\" }
    @String { oct = \"October\" }
    @String { mov = \"November\" }
    @String { dec = \"December\" }"@
}

/// The builtin defaults: `open` for the three openers, `pbcopy` for the two
/// clipboard commands, the month-abbreviation preamble, no extra preamble
/// files, and the usual TeX Live root.
pub fn default_settings() -> (r: Settings)
    ensures
        r.open_pdf@ == "open"@,
        r.open_doi@ == "open"@,
        r.open_url@ == "open"@,
        r.copy_key@ == "pbcopy"@,
        r.copy_cite@ == "pbcopy"@,
        r.preamble@ == spec_default_preamble(),
        r.preamble_files@.len() == 0,
        r.texlive_path@ == "/usr/local/texlive"@,
{
    Settings {
        open_pdf: "open".to_owned(),
        open_doi: "open".to_owned(),
        open_url: "open".to_owned(),
        copy_key: "pbcopy".to_owned(),
        copy_cite: "pbcopy".to_owned(),
        preamble: "
    @String { jan = \"January\" }
    @String { feb = \"February\" }
    @String { mar = \"March\" }
    @String { apr = \"April\" }
    @String { mai = \"Mai\" }
    @String { jun = \"June\" }
    @String { jul = \"July\" }
    @String { aug = \"August\" }
    @String { sep = \"September\" }
    @String { oct = \"October\" }
    @String { mov = \"November\" }
    @String { dec = \"December\" }".to_owned(),
        preamble_files: Vec::new(),
        texlive_path: "/usr/local/texlive".to_owned(),
    }
}

} // verus!
