//! The post resolver: a post id names a content directory (or falls back to
//! the default one); its metadata document is decoded and its Markdown
//! content rendered into the page template. The serving edge probes and
//! reads the two files and hands their outcomes in as plain values; every
//! decision after that is made and proved here.
use vstd::prelude::*;
use vstd::string::StringExecFns;
use crate::markdown::markdown_html;
use crate::markdown::render_markdown;
use crate::metadata::spec_decode;
use crate::metadata::MetadataModel;
use crate::pages::post_page;
use crate::pages::render_post;
use crate::ErrModel;
use crate::ServeError;

verus! {

/// The outcome of probing and reading one file at the serving edge.
#[derive(Clone, Debug)]
pub enum FileProbe {
    /// The file is not there.
    Missing,
    /// The file is there but could not be read.
    Unreadable,
    /// The file's text.
    Content(String),
}

/// Model of a file probe.
pub enum ProbeModel {
    Missing,
    Unreadable,
    Content(Seq<char>),
}

impl View for FileProbe {
    type V = ProbeModel;

    open spec fn view(&self) -> ProbeModel {
        match self {
            FileProbe::Missing => ProbeModel::Missing,
            FileProbe::Unreadable => ProbeModel::Unreadable,
            FileProbe::Content(s) => ProbeModel::Content(s@),
        }
    }
}

/// The directory a post id resolves to: its own when that directory exists,
/// else the fixed default. This step cannot fail.
pub open spec fn spec_post_dir(post_id: Seq<char>, candidate_exists: bool) -> Seq<char> {
    if candidate_exists {
        "posts/"@ + post_id
    } else {
        "posts/default"@
    }
}

/// The directory that would hold this post, for the edge to probe.
pub fn post_dir_candidate(post_id: &str) -> (r: String)
    ensures
        r@ == "posts/"@ + post_id@,
{
    let mut out = String::from_str("posts/");
    out.append(post_id);
    out
}

/// Picks the post's directory or the default one.
pub fn resolve_post_dir(post_id: &str, candidate_exists: bool) -> (r: String)
    ensures
        r@ == spec_post_dir(post_id@, candidate_exists),
{
    if candidate_exists {
        post_dir_candidate(post_id)
    } else {
        String::from_str("posts/default")
    }
}

/// The metadata document inside a post directory.
pub fn metadata_path(dir: &str) -> (r: String)
    ensures
        r@ == dir@ + "/metadata.toml"@,
{
    let mut out = String::from_str(dir);
    out.append("/metadata.toml");
    out
}

/// The content document inside a post directory.
pub fn content_path(dir: &str) -> (r: String)
    ensures
        r@ == dir@ + "/content.md"@,
{
    let mut out = String::from_str(dir);
    out.append("/content.md");
    out
}

/// What resolving a post yields from the two file probes: the first failing
/// check short-circuits with its diagnostic, and a readable, well-formed
/// pair renders into the finished page.
pub open spec fn spec_resolve(meta: ProbeModel, content: ProbeModel) -> Result<
    Seq<char>,
    ErrModel,
> {
    match meta {
        ProbeModel::Missing => Err(ErrModel::BadRequest("No post metadata found"@)),
        ProbeModel::Unreadable => Err(ErrModel::BadRequest("Metadata can not be read"@)),
        ProbeModel::Content(s) => match spec_decode(s) {
            Err(_) => Err(ErrModel::BadRequest("Metadata can not be parsed"@)),
            Ok(m) => match content {
                ProbeModel::Missing => Err(ErrModel::BadRequest("No post content found"@)),
                ProbeModel::Unreadable => Err(ErrModel::BadRequest("Content can not be read"@)),
                ProbeModel::Content(c) => Ok(post_page(m, markdown_html(c))),
            },
        },
    }
}

/// Resolves a post from its metadata and content documents: decode, render
/// the Markdown, and compose the page.
pub fn resolve_post(meta: &FileProbe, content: &FileProbe) -> (r: Result<String, ServeError>)
    ensures
        match r {
            Ok(page) => spec_resolve(meta@, content@) == Ok::<Seq<char>, ErrModel>(page@),
            Err(e) => spec_resolve(meta@, content@) == Err::<Seq<char>, ErrModel>(e@),
        },
{
    let meta_doc = match meta {
        FileProbe::Missing => {
            return Err(ServeError::BadRequest(String::from_str("No post metadata found")));
        },
        FileProbe::Unreadable => {
            return Err(ServeError::BadRequest(String::from_str("Metadata can not be read")));
        },
        FileProbe::Content(s) => s,
    };
    let pm = match crate::metadata::decode(meta_doc.as_str()) {
        Err(_) => {
            return Err(ServeError::BadRequest(String::from_str("Metadata can not be parsed")));
        },
        Ok(m) => m,
    };
    let content_doc = match content {
        FileProbe::Missing => {
            return Err(ServeError::BadRequest(String::from_str("No post content found")));
        },
        FileProbe::Unreadable => {
            return Err(ServeError::BadRequest(String::from_str("Content can not be read")));
        },
        FileProbe::Content(c) => c,
    };
    let html = render_markdown(content_doc.as_str());
    Ok(render_post(&pm, html.as_str()))
}

/// Law: a post id with no matching directory falls back to the default
/// directory, and a default whose documents are readable and well-formed
/// resolves to a page, never to an error.
pub proof fn lemma_unknown_id_falls_back(
    post_id: Seq<char>,
    meta: Seq<char>,
    content: Seq<char>,
)
    requires
        spec_decode(meta) is Ok,
    ensures
        spec_post_dir(post_id, false) == "posts/default"@,
        spec_resolve(ProbeModel::Content(meta), ProbeModel::Content(content)) matches Ok(page)
            && page == post_page(spec_decode(meta)->Ok_0, markdown_html(content)),
{
}

} // verus!
