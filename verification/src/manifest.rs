//! The output section of the book manifest that the rendering backend
//! writes beside the pages.
use vstd::prelude::*;
use vstd::string::*;

verus! {

/// Folding of the book's table of contents.
#[derive(Clone, Copy, Debug, PartialEq, Eq)]
pub struct BookFold {
    pub enable: bool,
    pub level: usize,
}

/// The settings of the HTML renderer.
#[derive(Clone, Debug, PartialEq, Eq)]
pub struct BookHtml {
    pub default_theme: String,
    pub preferred_dark_theme: String,
    pub mathjax_support: bool,
    pub no_section_label: bool,
    pub site_url: String,
    pub fold: BookFold,
}

/// The output section of the manifest.
#[derive(Clone, Debug, PartialEq, Eq)]
pub struct BookOutput {
    pub html: BookHtml,
}

/// The site URL under which the book is served: the configured one, or the
/// root.
pub open spec fn site_url_or_root(site_url: Option<String>) -> Seq<char> {
    match site_url {
        Some(url) => url@,
        None => "/"@,
    }
}

impl BookOutput {
    /// The output section for a book served under `site_url`, or under the
    /// root where none is configured: the dark theme as default and as
    /// preferred dark theme, formulas rendered, sections unnumbered, the
    /// table of contents unfolded.
    pub fn new(site_url: Option<String>) -> (r: BookOutput)
        ensures
            r.html.default_theme@ == "ayu"@,
            r.html.preferred_dark_theme@ == "ayu"@,
            r.html.mathjax_support,
            r.html.no_section_label,
            r.html.site_url@ == site_url_or_root(site_url),
            !r.html.fold.enable,
            r.html.fold.level == 0,
    {
        let site_url = match site_url {
            Some(url) => url,
            None => "/".to_owned(),
        };
        BookOutput {
            html: BookHtml {
                default_theme: "ayu".to_owned(),
                preferred_dark_theme: "ayu".to_owned(),
                mathjax_support: true,
                no_section_label: true,
                site_url,
                fold: BookFold { enable: false, level: 0 },
            },
        }
    }
}

} // verus!
