//! A document: one parsed template file.
use crate::attributes::Attributes;
use crate::error::BuildError;
use crate::front_matter::{
    attributes_of, body_of, extract_attributes, extract_content, law_no_marker_all_body, marker_at,
    name_key,
};
use crate::paths::{extension, extension_of, file_stem, file_stem_of, relative_path, relative_to};
use vstd::prelude::*;

verus! {

pub open spec fn tpl_ext() -> Seq<char> {
    seq!['t', 'p', 'l']
}

pub open spec fn md_ext() -> Seq<char> {
    seq!['m', 'd']
}

/// Whether the file at `p` is a template: its extension is `tpl` or `md`.
pub open spec fn is_template(p: Seq<char>) -> bool {
    extension(p) == Some(tpl_ext()) || extension(p) == Some(md_ext())
}

/// Whether the file at `p` is markdown: its extension is `md`.
pub open spec fn is_markdown(p: Seq<char>) -> bool {
    extension(p) == Some(md_ext())
}

pub struct Document {
    /// Where the document goes, relative to the output root.
    pub path: String,
    pub attributes: Attributes,
    /// The body, without the front matter.
    pub content: String,
    pub markdown: bool,
}

/// `d` is the document that the file `path` under `source`, holding `text`,
/// parses to.
pub open spec fn parsed_from(d: Document, path: Seq<char>, source: Seq<char>, text: Seq<char>) -> bool {
    &&& relative_to(path, source) == Some(d.path@)
    &&& body_of(text) == Some(d.content@)
    &&& d.attributes@ == attributes_of(file_stem(path), text)
    &&& d.markdown == is_markdown(path)
}

/// Whether the file at `path` has the extension `ext`.
fn has_extension(path: &str, ext: &str) -> (r: bool)
    ensures
        r == (extension(path@) == Some(ext@)),
{
    match extension_of(path) {
        Some(e) => e == String::from_str(ext),
        None => false,
    }
}

/// Whether the file at `path` is a template.
pub fn is_template_path(path: &str) -> (r: bool)
    ensures
        r == is_template(path@),
{
    proof {
        reveal_strlit("tpl");
        reveal_strlit("md");
        assert("tpl"@ =~= tpl_ext());
        assert("md"@ =~= md_ext());
    }
    has_extension(path, "tpl") || has_extension(path, "md")
}

/// Whether the file at `path` is markdown.
pub fn is_markdown_path(path: &str) -> (r: bool)
    ensures
        r == is_markdown(path@),
{
    proof {
        reveal_strlit("md");
        assert("md"@ =~= md_ext());
    }
    has_extension(path, "md")
}

/// The document held by the file `path` under `source`, whose text is `text`.
/// A file with one marker is malformed; a path outside `source` is refused.
pub fn parse_document(path: &str, source: &str, text: &str) -> (r: Result<Document, BuildError>)
    ensures
        body_of(text@) is None ==> (r matches Err(BuildError::Malformed(p)) && p@ == path@),
        body_of(text@) is Some && relative_to(path@, source@) is None ==> (r matches Err(
            BuildError::Path(p),
        ) && p@ == path@),
        body_of(text@) is Some && relative_to(path@, source@) is Some ==> (r matches Ok(d)
            && parsed_from(d, path@, source@, text@)),
{
    let content = match extract_content(text) {
        Some(c) => c,
        None => {
            return Err(BuildError::Malformed(String::from_str(path)));
        },
    };
    let rel = match relative_path(path, source) {
        Some(p) => p,
        None => {
            return Err(BuildError::Path(String::from_str(path)));
        },
    };
    let stem = file_stem_of(path);
    let attributes = extract_attributes(stem.as_str(), text);
    Ok(Document { path: rel, attributes, content, markdown: is_markdown_path(path) })
}

/// A document parsed from a file without front matter carries the file's
/// whole text as its body, and only its stem as `name`.
pub proof fn law_plain_file_document(
    d: Document,
    path: Seq<char>,
    source: Seq<char>,
    text: Seq<char>,
)
    requires
        parsed_from(d, path, source, text),
        forall|i: int| !marker_at(text, i),
    ensures
        d.content@ == text,
        d.attributes@ == map![name_key() => file_stem(path)],
{
    law_no_marker_all_body(file_stem(path), text);
}

} // verus!
