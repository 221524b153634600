//! The redirect enforcer: every plaintext request is rewritten to its HTTPS
//! equivalent. The host is rewritten by plain textual replacement of the
//! plaintext port number by the TLS port number wherever it appears — a
//! documented, deliberately literal rule — the scheme becomes `https`, and a
//! missing path defaults to `/`. With scheme, authority and path all
//! present, only the rewritten authority can fail to parse back, so that is
//! the one failure stated here.
use vstd::prelude::*;
use vstd::string::StringExecFns;
use crate::dates::dec_str;
use crate::dates::dec_string;
use crate::text::chars_string;
use crate::text::has_sub;
use crate::text::str_chars;
use crate::Args;
use crate::ErrModel;
use crate::ServeError;

verus! {

/// Leftmost, non-overlapping textual replacement of `from` by `to` in `h`.
/// An empty needle replaces nothing.
pub open spec fn spec_replace(h: Seq<char>, from: Seq<char>, to: Seq<char>) -> Seq<char>
    decreases h.len(),
{
    if from.len() == 0 || h.len() < from.len() {
        h
    } else if h.subrange(0, from.len() as int) == from {
        to + spec_replace(h.skip(from.len() as int), from, to)
    } else {
        seq![h[0]] + spec_replace(h.skip(1), from, to)
    }
}

/// Whether `h` matches `f` at position `i`.
fn eq_at(h: &Vec<char>, f: &Vec<char>, i: usize) -> (r: bool)
    requires
        i + f@.len() <= h@.len(),
    ensures
        r == (h@.subrange(i as int, i + f@.len()) == f@),
{
    let n: usize = h.len();
    let mut k: usize = 0;
    let mut m: usize = i;
    while k < f.len()
        invariant
            n == h@.len(),
            i + f@.len() <= h@.len(),
            0 <= k <= f@.len(),
            m == i + k,
            forall|j: int| 0 <= j < k ==> h@[i + j] == f@[j],
        decreases f@.len() - k,
    {
        if h[m] != f[k] {
            proof {
                assert(h@.subrange(i as int, i + f@.len())[k as int] == h@[i + k]);
            }
            return false;
        }
        k = k + 1;
        proof {
            assert(m < n);
        }
        m = m + 1;
    }
    proof {
        assert(h@.subrange(i as int, i + f@.len()) =~= f@);
    }
    true
}

/// Replaces every occurrence of `from` in `hay` by `to`, leftmost first,
/// never re-scanning what was inserted.
pub fn replace_all(hay: &str, from: &str, to: &str) -> (r: String)
    ensures
        r@ == spec_replace(hay@, from@, to@),
{
    let h = str_chars(hay);
    let f = str_chars(from);
    let t = str_chars(to);
    if f.len() == 0 {
        return String::from_str(hay);
    }
    let mut out: Vec<char> = Vec::new();
    let mut i: usize = 0;
    proof {
        assert(h@.skip(0) =~= h@);
        assert(out@ + spec_replace(h@.skip(0), f@, t@) =~= spec_replace(hay@, from@, to@));
    }
    while i < h.len()
        invariant
            h@ == hay@,
            f@ == from@,
            t@ == to@,
            f@.len() >= 1,
            0 <= i <= h@.len(),
            spec_replace(hay@, from@, to@) == out@ + spec_replace(h@.skip(i as int), f@, t@),
        decreases h@.len() - i,
    {
        let ghost rest = h@.skip(i as int);
        if f.len() <= h.len() - i && eq_at(&h, &f, i) {
            proof {
                assert(rest.subrange(0, f@.len() as int) =~= h@.subrange(i as int, i + f@.len()));
                assert(rest.skip(f@.len() as int) =~= h@.skip(i + f@.len()));
            }
            let mut k: usize = 0;
            let ghost out0 = out@;
            while k < t.len()
                invariant
                    t@ == to@,
                    0 <= k <= t@.len(),
                    out@ == out0 + t@.subrange(0, k as int),
                decreases t@.len() - k,
            {
                out.push(t[k]);
                proof {
                    assert(out@ =~= out0 + t@.subrange(0, k + 1 as int));
                }
                k = k + 1;
            }
            proof {
                assert(t@.subrange(0, t@.len() as int) =~= t@);
                assert(out@ + spec_replace(h@.skip(i + f@.len()), f@, t@) =~= out0 + spec_replace(
                    rest,
                    f@,
                    t@,
                ));
            }
            i = i + f.len();
        } else {
            proof {
                if rest.len() >= f@.len() {
                    assert(rest.subrange(0, f@.len() as int) =~= h@.subrange(
                        i as int,
                        i + f@.len(),
                    ));
                }
                assert(rest.skip(1) =~= h@.skip(i + 1));
                assert(rest[0] == h@[i as int]);
            }
            out.push(h[i]);
            proof {
                assert(out@ + spec_replace(h@.skip(i + 1), f@, t@) =~= spec_replace(
                    hay@,
                    from@,
                    to@,
                ));
            }
            i = i + 1;
        }
    }
    proof {
        assert(h@.skip(i as int) =~= Seq::<char>::empty());
        assert(out@ =~= spec_replace(hay@, from@, to@));
    }
    chars_string(&out)
}

/// The host with the plaintext port textually replaced by the TLS port.
pub open spec fn spec_rewrite_host(host: Seq<char>, args: Args) -> Seq<char> {
    spec_replace(host, dec_str(args.http_port as int), dec_str(args.https_port as int))
}

/// Whether the HTTP library accepts `s` as a URI authority.
pub uninterp spec fn authority_parses(s: Seq<char>) -> bool;

/// Relies on `http::uri::Authority`'s `FromStr`: accepts exactly the
/// strings that form a valid URI authority.
#[verifier::external_body]
fn is_authority(s: &str) -> (r: bool)
    ensures
        r == authority_parses(s@),
{
    s.parse::<http::uri::Authority>().is_ok()
}

/// Model of a redirect target.
pub struct RedirectModel {
    pub host: Seq<char>,
    pub path_and_query: Seq<char>,
}

/// The HTTPS equivalent of an inbound plaintext request. The scheme is
/// always `https`; the path and query pass through unchanged, or default to
/// `/` when the inbound URI had none.
#[derive(Clone, Debug)]
pub struct RedirectTarget {
    pub host: String,
    pub path_and_query: String,
}

impl View for RedirectTarget {
    type V = RedirectModel;

    open spec fn view(&self) -> RedirectModel {
        RedirectModel { host: self.host@, path_and_query: self.path_and_query@ }
    }
}

/// The view of an optional path-and-query string.
pub open spec fn spec_opt_path(pq: Option<Seq<char>>) -> Seq<char> {
    match pq {
        Some(p) => p,
        None => "/"@,
    }
}

/// What rewriting yields: the rewritten target, or a conversion failure
/// exactly when the rewritten host is no longer a valid authority.
pub open spec fn spec_make_https(host: Seq<char>, pq: Option<Seq<char>>, args: Args) -> Result<
    RedirectModel,
    ErrModel,
> {
    if authority_parses(spec_rewrite_host(host, args)) {
        Ok(RedirectModel { host: spec_rewrite_host(host, args), path_and_query: spec_opt_path(pq) })
    } else {
        Err(ErrModel::ConversionError)
    }
}

/// The view of the optional inbound path.
pub open spec fn opt_str_view(pq: Option<&str>) -> Option<Seq<char>> {
    match pq {
        Some(p) => Some(p@),
        None => None,
    }
}

/// Rewrites an inbound plaintext request to its HTTPS target.
pub fn make_https(host: &str, path_and_query: Option<&str>, args: Args) -> (r: Result<
    RedirectTarget,
    ServeError,
>)
    ensures
        match r {
            Ok(t) => spec_make_https(host@, opt_str_view(path_and_query), args) == Ok::<
                RedirectModel,
                ErrModel,
            >(t@),
            Err(e) => spec_make_https(host@, opt_str_view(path_and_query), args) == Err::<
                RedirectModel,
                ErrModel,
            >(e@),
        },
{
    let from = dec_string(args.http_port);
    let to = dec_string(args.https_port);
    let new_host = replace_all(host, from.as_str(), to.as_str());
    if is_authority(new_host.as_str()) {
        let pq = match path_and_query {
            Some(p) => String::from_str(p),
            None => String::from_str("/"),
        };
        Ok(RedirectTarget { host: new_host, path_and_query: pq })
    } else {
        Err(ServeError::ConversionError)
    }
}

impl RedirectTarget {
    /// The full redirect location that the permanent redirect points at.
    pub fn uri_string(&self) -> (r: String)
        ensures
            r@ == "https://"@ + self.host@ + self.path_and_query@,
    {
        let mut out = String::from_str("https://");
        out.append(self.host.as_str());
        out.append(self.path_and_query.as_str());
        proof {
            assert(out@ =~= "https://"@ + self.host@ + self.path_and_query@);
        }
        out
    }
}

/// Law: a needle that occurs nowhere in the haystack leaves replacement
/// with nothing to do.
pub proof fn lemma_replace_absent(h: Seq<char>, from: Seq<char>, to: Seq<char>)
    requires
        !has_sub(h, from),
    ensures
        spec_replace(h, from, to) == h,
    decreases h.len(),
{
    if from.len() == 0 {
        assert(h.subrange(0, 0) =~= from);
    } else if h.len() < from.len() {
    } else {
        if h.subrange(0, from.len() as int) == from {
            let z: int = 0;
            assert(h.subrange(z, z + from.len() as int) == from);
            assert(false);
        }
        if has_sub(h.skip(1), from) {
            let i = choose|i: int|
                0 <= i && i + from.len() <= h.skip(1).len() && #[trigger] h.skip(1).subrange(
                    i,
                    i + from.len() as int,
                ) == from;
            assert(h.subrange(i + 1, i + 1 + from.len() as int) =~= h.skip(1).subrange(
                i,
                i + from.len() as int,
            ));
            assert(false);
        }
        lemma_replace_absent(h.skip(1), from, to);
        assert(seq![h[0]] + h.skip(1) =~= h);
    }
}

/// Law: the path of a successful rewrite is the inbound path unchanged, or
/// `/` when the inbound URI had none; the scheme is `https` by construction.
pub proof fn lemma_redirect_path_preserved(host: Seq<char>, pq: Option<Seq<char>>, args: Args)
    ensures
        spec_make_https(host, pq, args) matches Ok(t) ==> t.path_and_query == spec_opt_path(pq),
{
}

/// Law: rewriting is idempotent on an already-rewritten request: when the
/// plaintext port does not occur in the host of a valid authority, the
/// target keeps that host and the path exactly.
pub proof fn lemma_make_https_idempotent(host: Seq<char>, pq: Option<Seq<char>>, args: Args)
    requires
        !has_sub(host, dec_str(args.http_port as int)),
        authority_parses(host),
    ensures
        spec_make_https(host, pq, args) == Ok::<RedirectModel, ErrModel>(
            RedirectModel { host: host, path_and_query: spec_opt_path(pq) },
        ),
{
    lemma_replace_absent(host, dec_str(args.http_port as int), dec_str(args.https_port as int));
}

} // verus!
