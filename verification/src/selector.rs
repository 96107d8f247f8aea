//! The document selector: which opened files the language server handles.

use vstd::prelude::*;

verus! {

/// One filter of a document selector: a language tag, a file glob and a URI
/// scheme, each optional.
#[derive(Debug, PartialEq, Eq)]
pub struct DocumentFilter {
    pub language: Option<String>,
    pub pattern: Option<String>,
    pub scheme: Option<String>,
}

/// A filter that selects the LaTeX family of files: language tag `tex`, the
/// fixed glob over TeX sources, styles, classes and bibliographies, and no
/// scheme restriction.
pub open spec fn is_latex_filter(f: DocumentFilter) -> bool {
    &&& f.language matches Some(l) && l@ == "tex"@
    &&& f.pattern matches Some(p) && p@ == "**/*.{tex,sty,cls,bib}"@
    &&& f.scheme is None
}

/// A selector made of exactly one LaTeX filter.
pub open spec fn is_latex_selector(s: Seq<DocumentFilter>) -> bool {
    s.len() == 1 && is_latex_filter(s[0])
}

/// Builds the selector the launcher always uses: one LaTeX filter.
pub fn latex_document_selector() -> (r: Vec<DocumentFilter>)
    ensures
        is_latex_selector(r@),
{
    let filter = DocumentFilter {
        language: Some("tex".to_owned()),
        pattern: Some("**/*.{tex,sty,cls,bib}".to_owned()),
        scheme: None,
    };
    let mut r: Vec<DocumentFilter> = Vec::new();
    r.push(filter);
    r
}

} // verus!
