//! Markdown rendering. The conversion itself is CommonMark's business; this
//! crate names its result and builds contracts on that name.
use vstd::prelude::*;

verus! {

/// The HTML fragment that CommonMark rendering produces for `md`.
pub uninterp spec fn markdown_html(md: Seq<char>) -> Seq<char>;

/// Relies on `pulldown_cmark::Parser::new` and
/// `pulldown_cmark::html::push_html`: rendering is a total, deterministic
/// function of the input text alone; unrecognized syntax passes through as
/// literal text. The output is only as trustworthy as the input, so post
/// content must stay author-controlled.
#[verifier::external_body]
pub(crate) fn render_markdown(md: &str) -> (r: String)
    ensures
        r@ == markdown_html(md@),
{
    let parser = pulldown_cmark::Parser::new(md);
    let mut html = String::new();
    pulldown_cmark::html::push_html(&mut html, parser);
    html
}

} // verus!
