//! Rendering a document through the liquid template engine and its layout.
//!
//! The engine itself is outside this library: what it returns is not stated
//! (its `date` filter reads the clock), so the contracts here fix what is
//! handed to it and which layout is applied.
use crate::attributes::Attributes;
use crate::document::Document;
use crate::error::BuildError;
use vstd::prelude::*;

verus! {

#[verifier::external_type_specification]
#[verifier::external_body]
pub struct ExParser(liquid::Parser);

#[verifier::external_type_specification]
#[verifier::external_body]
pub struct ExTemplate(liquid::Template);

#[verifier::external_type_specification]
#[verifier::external_body]
pub struct ExLiquidError(liquid::Error);

#[verifier::external_type_specification]
#[verifier::external_body]
pub struct ExObject(liquid::Object);

/// Relies on `liquid::ParserBuilder::with_stdlib().build()`: a parser that
/// knows liquid's standard tags, blocks and filters.
#[verifier::external_body]
fn stdlib_parser() -> (r: Result<liquid::Parser, liquid::Error>) {
    liquid::ParserBuilder::with_stdlib().build()
}

/// Relies on `liquid::Parser::parse`: the template that `text` holds, or a
/// syntax error. The parser runs on a `crossbeam` scoped thread, whose join
/// hands back a panic of the parser (an integer literal beyond `i64`) as an
/// error.
#[verifier::external_body]
fn parse_template(parser: &liquid::Parser, text: &str) -> (r: Result<
    liquid::Template,
    liquid::Error,
>) {
    match crossbeam::scope(|s| s.spawn(|_| parser.parse(text)).join()) {
        Ok(Ok(r)) => r,
        _ => Err(liquid::Error::with_msg("the template parser panicked")),
    }
}

/// Relies on building a `liquid::Object`: `vars` as string globals, and
/// `posts` as an array of objects under the global `posts_key`.
#[verifier::external_body]
fn engine_globals(vars: &Attributes, posts_key: &str, posts: &Vec<Attributes>) -> (r:
    liquid::Object) {
    let object = |a: &Attributes| -> liquid::Object {
        a.entries.iter().map(
            |(k, v)| (liquid::model::KString::from(k.clone()), liquid::model::Value::scalar(v.clone())),
        ).collect()
    };
    let mut globals = object(vars);
    let list = posts.iter().map(|p| liquid::model::Value::Object(object(p))).collect();
    globals.insert(liquid::model::KString::from_ref(posts_key), liquid::model::Value::Array(list));
    globals
}

/// Relies on `liquid::Template::render` with `globals`. The rendering runs on
/// a `crossbeam` scoped thread, whose join hands back a panic of the engine
/// (an `i64` overflow in a math filter) as an error.
#[verifier::external_body]
fn render_template(template: &liquid::Template, globals: &liquid::Object) -> (r: Result<
    String,
    liquid::Error,
>) {
    match crossbeam::scope(|s| s.spawn(|_| template.render(globals)).join()) {
        Ok(Ok(r)) => r,
        _ => Err(liquid::Error::with_msg("the template engine panicked")),
    }
}

/// Relies on the `Display` of `liquid::Error`: its message.
#[verifier::external_body]
fn error_message(e: &liquid::Error) -> (r: String) {
    e.to_string()
}

/// The attribute that names a document's layout.
pub open spec fn extends_key() -> Seq<char> {
    seq!['e', 'x', 't', 'e', 'n', 'd', 's']
}

/// The variable under which a layout sees the rendered body.
pub open spec fn content_key() -> Seq<char> {
    seq!['c', 'o', 'n', 't', 'e', 'n', 't']
}

/// The variable under which every template sees the post index.
pub open spec fn posts_key() -> Seq<char> {
    seq!['p', 'o', 's', 't', 's']
}

/// The layout that `doc` asks for: none when it names none, an error when it
/// names one that is not registered.
pub fn layout_for<'a>(doc: &Document, layouts: &'a Attributes) -> (r: Result<
    Option<&'a String>,
    BuildError,
>)
    ensures
        !doc.attributes@.contains_key(extends_key()) ==> r matches Ok(None),
        doc.attributes@.contains_key(extends_key()) && layouts@.contains_key(
            doc.attributes@[extends_key()],
        ) ==> (r matches Ok(Some(t)) && t@ == layouts@[doc.attributes@[extends_key()]]),
        doc.attributes@.contains_key(extends_key()) && !layouts@.contains_key(
            doc.attributes@[extends_key()],
        ) ==> (r matches Err(BuildError::UnknownLayout(p, l)) && p@ == doc.path@ && l@
            == doc.attributes@[extends_key()]),
{
    proof {
        reveal_strlit("extends");
        assert("extends"@ =~= extends_key());
    }
    match doc.attributes.get("extends") {
        None => Ok(None),
        Some(name) => match layouts.get(name.as_str()) {
            Some(text) => Ok(Some(text)),
            None => Err(BuildError::UnknownLayout(doc.path.clone(), name.clone())),
        },
    }
}

/// The variables a layout is rendered with: the document's attributes, with
/// `content` set to the rendered body.
pub fn layout_context(attrs: &Attributes, rendered: String) -> (r: Attributes)
    ensures
        r@ == attrs@.insert(content_key(), rendered@),
{
    let mut vars = attrs.copy_of();
    proof {
        reveal_strlit("content");
        assert("content"@ =~= content_key());
    }
    vars.insert(String::from_str("content"), rendered);
    vars
}

/// The string variables a template is rendered with: `attrs` without
/// `posts`, whose place the post index takes.
pub fn template_vars(attrs: &Attributes) -> (r: Attributes)
    ensures
        r@ == attrs@.remove(posts_key()),
{
    proof {
        reveal_strlit("posts");
        assert("posts"@ =~= posts_key());
    }
    attrs.without("posts")
}

/// What follows the rendering of a body.
pub enum PageStep {
    /// The page is complete.
    Done(String),
    /// The layout (first) remains to be rendered with the variables (second).
    Wrap(String, Attributes),
}

/// The step after `doc`'s body rendered to `body`: without a layout the page
/// is the body itself; with one, the layout is rendered with the document's
/// attributes and `content` set to the body.
pub fn after_body(doc: &Document, layout: Option<&String>, body: String) -> (r: PageStep)
    ensures
        layout is None ==> (r matches PageStep::Done(page) && page@ == body@),
        layout is Some ==> (r matches PageStep::Wrap(t, vars) && t@ == layout->0@ && vars@
            == doc.attributes@.insert(content_key(), body@)),
{
    match layout {
        None => PageStep::Done(body),
        Some(text) => PageStep::Wrap(text.clone(), layout_context(&doc.attributes, body)),
    }
}

/// A render failure of `doc`.
fn render_error(doc: &Document, e: &liquid::Error) -> (r: BuildError)
    ensures
        r matches BuildError::Render(p, _) && p@ == doc.path@,
{
    BuildError::Render(doc.path.clone(), error_message(e))
}

/// Renders `template` with `vars` and the post index.
fn render_text(doc: &Document, text: &str, vars: &Attributes, posts: &Vec<Attributes>) -> (r: Result<
    String,
    BuildError,
>)
    ensures
        r is Err ==> (r matches Err(BuildError::Render(p, _)) && p@ == doc.path@),
{
    let parser = match stdlib_parser() {
        Ok(p) => p,
        Err(e) => {
            return Err(render_error(doc, &e));
        },
    };
    let template = match parse_template(&parser, text) {
        Ok(t) => t,
        Err(e) => {
            return Err(render_error(doc, &e));
        },
    };
    let globals = engine_globals(&template_vars(vars), "posts", posts);
    match render_template(&template, &globals) {
        Ok(s) => Ok(s),
        Err(e) => Err(render_error(doc, &e)),
    }
}

/// The page of `doc`: its body rendered with its attributes and the post
/// index, then the step that `after_body` gives. A layout that is not
/// registered fails before anything is rendered; any other failure is the
/// engine's, reported against the document's path.
pub fn render_page(doc: &Document, layouts: &Attributes, posts: &Vec<Attributes>) -> (r: Result<
    String,
    BuildError,
>)
    ensures
        doc.attributes@.contains_key(extends_key()) && !layouts@.contains_key(
            doc.attributes@[extends_key()],
        ) ==> (r matches Err(BuildError::UnknownLayout(p, l)) && p@ == doc.path@ && l@
            == doc.attributes@[extends_key()]),
        r is Err && !(doc.attributes@.contains_key(extends_key()) && !layouts@.contains_key(
            doc.attributes@[extends_key()],
        )) ==> (r matches Err(BuildError::Render(p, _)) && p@ == doc.path@),
{
    let layout = layout_for(doc, layouts)?;
    let body = render_text(doc, doc.content.as_str(), &doc.attributes, posts)?;
    match after_body(doc, layout, body) {
        PageStep::Done(page) => Ok(page),
        PageStep::Wrap(text, vars) => render_text(doc, text.as_str(), &vars, posts),
    }
}

} // verus!
