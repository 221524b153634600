//! The asset resolver: a requested name is mapped to a file under its
//! family's directory, its MIME type is settled from the path text alone,
//! and only then may the serving edge touch the filesystem. Images degrade
//! to a fixed placeholder when absent; favicons do not; the stylesheet is
//! the degenerate case with neither ambiguity nor fallback.
use vstd::prelude::*;
use vstd::string::StringExecFns;
use crate::text::chars_string;
use crate::text::str_chars;
use crate::ErrModel;
use crate::ServeError;

verus! {

/// The two asset families served by name, with different directories and a
/// different way with missing files.
#[derive(Clone, Copy, Debug, PartialEq, Eq, Structural)]
pub enum AssetFamily {
    Image,
    Favicon,
}

/// What the MIME library guesses for a path, from its extension alone.
pub uninterp spec fn mime_guess_of(path: Seq<char>) -> Option<Seq<char>>;

/// Relies on `mime_guess::from_path` and `MimeGuess::first_raw`: the first
/// registered MIME type for the path's extension, a function of the path
/// text alone, or nothing when the extension is unknown.
#[verifier::external_body]
fn guess_mime(path: &str) -> (r: Option<String>)
    ensures
        r is Some <==> mime_guess_of(path@) is Some,
        r matches Some(m) ==> mime_guess_of(path@) == Some(m@),
{
    match mime_guess::from_path(path).first_raw() {
        Some(m) => Some(m.to_owned()),
        None => None,
    }
}

/// The directory that a family's assets live under.
pub open spec fn spec_family_dir(f: AssetFamily) -> Seq<char> {
    match f {
        AssetFamily::Image => "assets/img/"@,
        AssetFamily::Favicon => "assets/favicon/"@,
    }
}

/// The file that a request for `name` in family `f` points at.
pub open spec fn spec_asset_path(f: AssetFamily, name: Seq<char>) -> Seq<char> {
    spec_family_dir(f) + name
}

/// The position of the last `/` in `s`, or -1 when there is none.
pub open spec fn last_slash(s: Seq<char>) -> int
    decreases s.len(),
{
    if s.len() == 0 {
        -1
    } else if s[s.len() - 1] == '/' {
        s.len() - 1
    } else {
        last_slash(s.take(s.len() - 1))
    }
}

/// Everything after the last `/`: the file's base name.
pub open spec fn spec_base_name(s: Seq<char>) -> Seq<char> {
    s.skip(last_slash(s) + 1)
}

proof fn lemma_last_slash_bounds(s: Seq<char>)
    ensures
        -1 <= last_slash(s) < s.len(),
    decreases s.len(),
{
    if s.len() != 0 && s[s.len() - 1] != '/' {
        lemma_last_slash_bounds(s.take(s.len() - 1));
    }
}

/// The base name of a path: the part after the last slash.
pub fn base_name(path: &str) -> (r: String)
    ensures
        r@ == spec_base_name(path@),
{
    let v = str_chars(path);
    let mut cut: usize = 0;
    let mut i: usize = 0;
    while i < v.len()
        invariant
            v@ == path@,
            i <= v@.len(),
            cut == last_slash(v@.take(i as int)) + 1,
            0 <= cut <= i,
        decreases v@.len() - i,
    {
        proof {
            lemma_last_slash_bounds(v@.take(i as int));
        }
        if v[i] == '/' {
            cut = i + 1;
        }
        proof {
            let next = v@.take(i + 1 as int);
            assert(next[next.len() - 1] == v@[i as int]);
            assert(next.take(next.len() - 1) =~= v@.take(i as int));
        }
        i = i + 1;
    }
    proof {
        assert(v@.take(v@.len() as int) =~= v@);
        lemma_last_slash_bounds(v@);
    }
    let mut out: Vec<char> = Vec::new();
    let mut j: usize = cut;
    while j < v.len()
        invariant
            v@ == path@,
            cut <= j <= v@.len(),
            out@ == v@.subrange(cut as int, j as int),
        decreases v@.len() - j,
    {
        out.push(v[j]);
        proof {
            assert(out@ =~= v@.subrange(cut as int, j + 1 as int));
        }
        j = j + 1;
    }
    proof {
        assert(out@ =~= spec_base_name(path@));
    }
    chars_string(&out)
}

/// A resolved asset request: which file to serve and with which headers.
/// It is built before any filesystem access; a request whose MIME type
/// cannot be determined is refused without touching a file.
#[derive(Clone, Debug)]
pub struct AssetDescriptor {
    /// The requested file under the family's directory.
    pub path: String,
    /// Value for the Content-Type header.
    pub mime_type: String,
    /// Value for the Content-Disposition header: the file's base name.
    pub display_name: String,
}

/// Whether a request in family `f` for `name` is servable at all: its MIME
/// type can be determined from the path text.
pub open spec fn spec_asset_ok(f: AssetFamily, name: Seq<char>) -> bool {
    mime_guess_of(spec_asset_path(f, name)) is Some
}

/// Settles path, MIME type and display name for an asset request. No
/// filesystem access happens here or before: an undeterminable MIME type is
/// refused from the path text alone.
pub fn resolve_asset(family: AssetFamily, name: &str) -> (r: Result<AssetDescriptor, ServeError>)
    ensures
        r is Ok <==> spec_asset_ok(family, name@),
        r matches Ok(p) ==> p.path@ == spec_asset_path(family, name@) && mime_guess_of(
            spec_asset_path(family, name@),
        ) == Some(p.mime_type@) && p.display_name@ == spec_base_name(spec_asset_path(family, name@)),
        r matches Err(e) ==> e@ == ErrModel::BadRequest("MIME Type couldn't be determined"@),
{
    let mut path = match family {
        AssetFamily::Image => String::from_str("assets/img/"),
        AssetFamily::Favicon => String::from_str("assets/favicon/"),
    };
    path.append(name);
    let mime_type = match guess_mime(path.as_str()) {
        None => {
            return Err(
                ServeError::BadRequest(String::from_str("MIME Type couldn't be determined")),
            );
        },
        Some(m) => m,
    };
    let display_name = base_name(path.as_str());
    Ok(AssetDescriptor { path, mime_type, display_name })
}

/// Where the body of an asset response comes from.
#[derive(Clone, Debug)]
pub enum AssetSource {
    /// The requested file itself.
    Requested,
    /// The fixed placeholder image at this path.
    FallbackImage(String),
}

/// Decides what a family serves once the edge knows whether the requested
/// file exists: a present file is served as is; an absent image degrades to
/// the placeholder; an absent favicon is a hard 404.
pub fn asset_source(family: AssetFamily, requested_exists: bool) -> (r: Result<
    AssetSource,
    ServeError,
>)
    ensures
        requested_exists ==> (r matches Ok(s) && s is Requested),
        !requested_exists && family is Image ==> (r matches Ok(s) && s matches
            AssetSource::FallbackImage(p) && p@ == "assets/img/not-found.png"@),
        !requested_exists && family is Favicon ==> (r matches Err(e) && e@ is NotFound),
{
    if requested_exists {
        Ok(AssetSource::Requested)
    } else {
        match family {
            AssetFamily::Image => Ok(
                AssetSource::FallbackImage(String::from_str("assets/img/not-found.png")),
            ),
            AssetFamily::Favicon => Err(ServeError::NotFound),
        }
    }
}

/// The fixed stylesheet endpoint: known path, fixed MIME type, no fallback.
pub fn style_plan() -> (r: AssetDescriptor)
    ensures
        r.path@ == "assets/style.css"@,
        r.mime_type@ == "text/css; charset=utf-8"@,
        r.display_name@ == "style.css"@,
{
    AssetDescriptor {
        path: String::from_str("assets/style.css"),
        mime_type: String::from_str("text/css; charset=utf-8"),
        display_name: String::from_str("style.css"),
    }
}

/// Value of the Cache-Control header on every asset response.
pub fn cache_control() -> (r: &'static str)
    ensures
        r@ == "max-age=3600, must-revalidate"@,
{
    "max-age=3600, must-revalidate"
}

} // verus!
