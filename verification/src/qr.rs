//! The QR info responder: a tiny dynamic page that echoes the identifier
//! from the request path (or a fixed default) and the connection's peer
//! address. Nothing is stored; any id and any address are accepted.
use vstd::prelude::*;
use vstd::string::StringExecFns;
use crate::pages::page_html;
use crate::pages::render_page;
use crate::text::has_sub;
use crate::text::lemma_has_sub_concat_left;
use crate::text::lemma_has_sub_concat_right;
use crate::text::lemma_has_sub_suffix;

verus! {

/// The info line shown on the page: the id and the client address.
pub open spec fn qr_content(id: Seq<char>, ip: Seq<char>) -> Seq<char> {
    "QR-ID: "@ + id + ", IP: "@ + ip
}

/// The finished info page.
pub open spec fn qr_page(id: Seq<char>, ip: Seq<char>) -> Seq<char> {
    page_html("Rice Co."@, qr_content(id, ip))
}

/// The id used when the request path carries none.
pub fn default_qr_id() -> (r: &'static str)
    ensures
        r@ == "DEFAULT"@,
{
    "DEFAULT"
}

/// Renders the info page for this id and client address. There is no
/// failure path.
pub fn respond(qr_id: &str, client_ip: &str) -> (r: String)
    ensures
        r@ == qr_page(qr_id@, client_ip@),
{
    let mut content = String::from_str("QR-ID: ");
    content.append(qr_id);
    content.append(", IP: ");
    content.append(client_ip);
    proof {
        assert(content@ =~= qr_content(qr_id@, client_ip@));
    }
    render_page("Rice Co.", content.as_str())
}

/// Law: the info page echoes both the id and the client address, whatever
/// their values.
pub proof fn lemma_qr_page_echoes(id: Seq<char>, ip: Seq<char>)
    ensures
        has_sub(qr_page(id, ip), id),
        has_sub(qr_page(id, ip), ip),
{
    let h1 = "<!DOCTYPE html><html><head><meta charset=\"utf-8\"><title>"@;
    let h2 = "</title><link rel=\"stylesheet\" href=\"/assets/style.css\"></head><body>"@;
    let h3 = "</body></html>"@;
    let t = "Rice Co."@;
    let c1 = "QR-ID: "@;
    let c2 = ", IP: "@;
    let body = qr_content(id, ip);

    lemma_has_sub_suffix(c1, id);
    lemma_has_sub_concat_left(c1 + id, c2, id);
    lemma_has_sub_concat_left(c1 + id + c2, ip, id);
    lemma_has_sub_suffix(c1 + id + c2, ip);

    lemma_has_sub_concat_right(h1 + t + h2, body, id);
    lemma_has_sub_concat_left(h1 + t + h2 + body, h3, id);
    lemma_has_sub_concat_right(h1 + t + h2, body, ip);
    lemma_has_sub_concat_left(h1 + t + h2 + body, h3, ip);
}

} // verus!
