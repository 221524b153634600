//! The page template: every HTML response is one fixed document shell around
//! a title and a body fragment. Rendering is plain string composition, so
//! what the finished page contains is proved outright.
use vstd::prelude::*;
use vstd::string::StringExecFns;
use crate::dates::date_string;
use crate::metadata::MetadataModel;
use crate::metadata::PostMetadata;
use crate::text::has_sub;
use crate::text::lemma_has_sub_concat_left;
use crate::text::lemma_has_sub_concat_right;
use crate::text::lemma_has_sub_suffix;

verus! {

/// The complete HTML document around a page title and a body fragment.
pub open spec fn page_html(title: Seq<char>, body: Seq<char>) -> Seq<char> {
    "<!DOCTYPE html><html><head><meta charset=\"utf-8\"><title>"@ + title
        + "</title><link rel=\"stylesheet\" href=\"/assets/style.css\"></head><body>"@ + body
        + "</body></html>"@
}

/// Wraps a body fragment into the document shell.
pub fn render_page(title: &str, body: &str) -> (r: String)
    ensures
        r@ == page_html(title@, body@),
{
    let mut out = String::from_str("<!DOCTYPE html><html><head><meta charset=\"utf-8\"><title>");
    out.append(title);
    out.append("</title><link rel=\"stylesheet\" href=\"/assets/style.css\"></head><body>");
    out.append(body);
    out.append("</body></html>");
    proof {
        assert(out@ =~= page_html(title@, body@));
    }
    out
}

/// The body of a post page: title heading, author, both dates rendered
/// date-only, and the rendered Markdown content.
pub open spec fn post_body_html(m: MetadataModel, content: Seq<char>) -> Seq<char> {
    "<article><h1>"@ + m.title + "</h1><p class=\"byline\">"@ + m.author
        + "</p><p class=\"dates\">Published: "@ + date_string(m.date_published) + ", updated: "@
        + date_string(m.date_updated) + "</p><section>"@ + content + "</section></article>"@
}

/// The finished page for a decoded post and its rendered content.
pub open spec fn post_page(m: MetadataModel, content: Seq<char>) -> Seq<char> {
    page_html(m.title, post_body_html(m, content))
}

/// Combines decoded metadata with rendered content into the finished page.
pub fn render_post(m: &PostMetadata, content_html: &str) -> (r: String)
    ensures
        r@ == post_page(m@, content_html@),
{
    let mut body = String::from_str("<article><h1>");
    body.append(m.title.as_str());
    body.append("</h1><p class=\"byline\">");
    body.append(m.author.as_str());
    body.append("</p><p class=\"dates\">Published: ");
    let dp = m.date_published.render();
    body.append(dp.as_str());
    body.append(", updated: ");
    let du = m.date_updated.render();
    body.append(du.as_str());
    body.append("</p><section>");
    body.append(content_html);
    body.append("</section></article>");
    proof {
        assert(body@ =~= post_body_html(m@, content_html@));
    }
    render_page(m.title.as_str(), body.as_str())
}

/// Law: the rendered post page contains the title, the author, both dates in
/// their date-only form, and the rendered content, whatever their values.
pub proof fn lemma_post_page_complete(m: MetadataModel, content: Seq<char>)
    ensures
        has_sub(post_page(m, content), m.title),
        has_sub(post_page(m, content), m.author),
        has_sub(post_page(m, content), date_string(m.date_published)),
        has_sub(post_page(m, content), date_string(m.date_updated)),
        has_sub(post_page(m, content), content),
{
    let h1 = "<!DOCTYPE html><html><head><meta charset=\"utf-8\"><title>"@;
    let h2 = "</title><link rel=\"stylesheet\" href=\"/assets/style.css\"></head><body>"@;
    let h3 = "</body></html>"@;
    let b1 = "<article><h1>"@;
    let b2 = "</h1><p class=\"byline\">"@;
    let b3 = "</p><p class=\"dates\">Published: "@;
    let b4 = ", updated: "@;
    let b5 = "</p><section>"@;
    let b6 = "</section></article>"@;
    let dp = date_string(m.date_published);
    let du = date_string(m.date_updated);
    let body = post_body_html(m, content);

    // Each piece of the body is contained in the body.
    lemma_has_sub_suffix(b1, m.title);
    lemma_has_sub_concat_left(b1 + m.title, b2, m.title);
    lemma_has_sub_concat_left(b1 + m.title + b2, m.author, m.title);
    lemma_has_sub_concat_left(b1 + m.title + b2 + m.author, b3, m.title);
    lemma_has_sub_concat_left(b1 + m.title + b2 + m.author + b3, dp, m.title);
    lemma_has_sub_concat_left(b1 + m.title + b2 + m.author + b3 + dp, b4, m.title);
    lemma_has_sub_concat_left(b1 + m.title + b2 + m.author + b3 + dp + b4, du, m.title);
    lemma_has_sub_concat_left(b1 + m.title + b2 + m.author + b3 + dp + b4 + du, b5, m.title);
    lemma_has_sub_concat_left(b1 + m.title + b2 + m.author + b3 + dp + b4 + du + b5, content, m.title);
    lemma_has_sub_concat_left(
        b1 + m.title + b2 + m.author + b3 + dp + b4 + du + b5 + content,
        b6,
        m.title,
    );

    lemma_has_sub_suffix(b1 + m.title + b2, m.author);
    lemma_has_sub_concat_left(b1 + m.title + b2 + m.author, b3, m.author);
    lemma_has_sub_concat_left(b1 + m.title + b2 + m.author + b3, dp, m.author);
    lemma_has_sub_concat_left(b1 + m.title + b2 + m.author + b3 + dp, b4, m.author);
    lemma_has_sub_concat_left(b1 + m.title + b2 + m.author + b3 + dp + b4, du, m.author);
    lemma_has_sub_concat_left(b1 + m.title + b2 + m.author + b3 + dp + b4 + du, b5, m.author);
    lemma_has_sub_concat_left(
        b1 + m.title + b2 + m.author + b3 + dp + b4 + du + b5,
        content,
        m.author,
    );
    lemma_has_sub_concat_left(
        b1 + m.title + b2 + m.author + b3 + dp + b4 + du + b5 + content,
        b6,
        m.author,
    );

    lemma_has_sub_suffix(b1 + m.title + b2 + m.author + b3, dp);
    lemma_has_sub_concat_left(b1 + m.title + b2 + m.author + b3 + dp, b4, dp);
    lemma_has_sub_concat_left(b1 + m.title + b2 + m.author + b3 + dp + b4, du, dp);
    lemma_has_sub_concat_left(b1 + m.title + b2 + m.author + b3 + dp + b4 + du, b5, dp);
    lemma_has_sub_concat_left(b1 + m.title + b2 + m.author + b3 + dp + b4 + du + b5, content, dp);
    lemma_has_sub_concat_left(
        b1 + m.title + b2 + m.author + b3 + dp + b4 + du + b5 + content,
        b6,
        dp,
    );

    lemma_has_sub_suffix(b1 + m.title + b2 + m.author + b3 + dp + b4, du);
    lemma_has_sub_concat_left(b1 + m.title + b2 + m.author + b3 + dp + b4 + du, b5, du);
    lemma_has_sub_concat_left(b1 + m.title + b2 + m.author + b3 + dp + b4 + du + b5, content, du);
    lemma_has_sub_concat_left(
        b1 + m.title + b2 + m.author + b3 + dp + b4 + du + b5 + content,
        b6,
        du,
    );

    lemma_has_sub_suffix(b1 + m.title + b2 + m.author + b3 + dp + b4 + du + b5, content);
    lemma_has_sub_concat_left(
        b1 + m.title + b2 + m.author + b3 + dp + b4 + du + b5 + content,
        b6,
        content,
    );

    // The body, and the title again, are contained in the whole page.
    lemma_has_sub_suffix(h1, m.title);
    lemma_has_sub_concat_left(h1 + m.title, h2, m.title);
    lemma_has_sub_concat_left(h1 + m.title + h2, body, m.title);
    lemma_has_sub_concat_left(h1 + m.title + h2 + body, h3, m.title);

    lemma_has_sub_concat_right(h1 + m.title + h2, body, m.author);
    lemma_has_sub_concat_left(h1 + m.title + h2 + body, h3, m.author);
    lemma_has_sub_concat_right(h1 + m.title + h2, body, dp);
    lemma_has_sub_concat_left(h1 + m.title + h2 + body, h3, dp);
    lemma_has_sub_concat_right(h1 + m.title + h2, body, du);
    lemma_has_sub_concat_left(h1 + m.title + h2 + body, h3, du);
    lemma_has_sub_concat_right(h1 + m.title + h2, body, content);
    lemma_has_sub_concat_left(h1 + m.title + h2 + body, h3, content);
}

} // verus!
