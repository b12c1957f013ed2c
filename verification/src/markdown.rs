//! The content layer: what is derived from a markdown source.
//!
//! The functions here are the plain derivations, computed afresh on every call
//! from the inputs of a database. The cached forms are in the module `database`.

use vstd::prelude::*;
use vstd::string::*;
use crate::error::TaekoError;
use crate::matter::{body_of, chars_of, front_of, split_matter};
use crate::store::TaekoCoreDatabase;

verus! {

/// The path names a markdown source: it ends in `.md`, and the file name has
/// something before that.
pub open spec fn markdown_path(p: Seq<char>) -> bool {
    &&& p.len() >= 4
    &&& p[p.len() - 4] != '/'
    &&& p[p.len() - 3] == '.'
    &&& p[p.len() - 2] == 'm'
    &&& p[p.len() - 1] == 'd'
}

/// The HTML that the markdown converter makes of a text.
pub uninterp spec fn markdown_html(text: Seq<char>) -> Seq<char>;

/// The view of an optional string.
pub open spec fn opt_view(o: Option<String>) -> Option<Seq<char>> {
    match o {
        Some(s) => Some(s@),
        None => None,
    }
}

/// The view of the result of a metadata query.
pub open spec fn front_view(r: Result<Option<String>, TaekoError>) -> Result<
    Option<Seq<char>>,
    TaekoError,
> {
    match r {
        Ok(o) => Ok(opt_view(o)),
        Err(e) => Err(e),
    }
}

/// The view of the result of a query that gives a text.
pub open spec fn text_view(r: Result<String, TaekoError>) -> Result<Seq<char>, TaekoError> {
    match r {
        Ok(s) => Ok(s@),
        Err(e) => Err(e),
    }
}

/// What the metadata query owes for a path, given the texts that are set.
pub open spec fn front_result(texts: Map<Seq<char>, Seq<char>>, path: Seq<char>) -> Result<
    Option<Seq<char>>,
    TaekoError,
> {
    if !markdown_path(path) {
        Err(TaekoError::InvalidPath)
    } else if !texts.contains_key(path) {
        Err(TaekoError::NotFound)
    } else {
        Ok(front_of(texts[path]))
    }
}

/// What the body query owes for a path, given the texts that are set.
pub open spec fn content_result(texts: Map<Seq<char>, Seq<char>>, path: Seq<char>) -> Result<
    Seq<char>,
    TaekoError,
> {
    if !markdown_path(path) {
        Err(TaekoError::InvalidPath)
    } else if !texts.contains_key(path) {
        Err(TaekoError::NotFound)
    } else {
        Ok(body_of(texts[path]))
    }
}

/// What the HTML query owes for a path: the conversion of the body.
pub open spec fn html_result(texts: Map<Seq<char>, Seq<char>>, path: Seq<char>) -> Result<
    Seq<char>,
    TaekoError,
> {
    match content_result(texts, path) {
        Ok(body) => Ok(markdown_html(body)),
        Err(e) => Err(e),
    }
}

/// Converts markdown to HTML with `pulldown_cmark`: `Parser::new` on the text,
/// with no options, and `html::push_html` into an empty string. The contract
/// gives the outcome its name and claims nothing else of it.
#[verifier::external_body]
pub(crate) fn render_markdown(text: &str) -> (html: String)
    ensures
        html@ == markdown_html(text@),
{
    let parser = pulldown_cmark::Parser::new(text);
    let mut out = String::new();
    pulldown_cmark::html::push_html(&mut out, parser);
    out
}

/// Tells whether a path names a markdown source.
pub fn is_markdown_path(path: &String) -> (r: bool)
    ensures
        r == markdown_path(path@),
{
    let v = chars_of(path.as_str());
    let n: usize = v.len();
    n >= 4 && v[n - 4] != '/' && v[n - 3] == '.' && v[n - 2] == 'm' && v[n - 1] == 'd'
}

/// The metadata block of a text, if it has one.
pub fn front_text(text: &str) -> (r: Option<String>)
    ensures
        opt_view(r) == front_of(text@),
{
    match split_matter(text) {
        Some(parts) => Some(parts.0),
        None => None,
    }
}

/// A text without its metadata block.
pub fn body_text(text: &str) -> (r: String)
    ensures
        r@ == body_of(text@),
{
    match split_matter(text) {
        Some(parts) => parts.1,
        None => String::from_str(text),
    }
}

/// The raw metadata block of the markdown source at `path`; `None` where the
/// source has no well-formed block.
pub fn frontmatter<D: TaekoCoreDatabase>(db: &D, path: String) -> (r: Result<
    Option<String>,
    TaekoError,
>)
    requires
        db.valid(),
    ensures
        front_view(r) == front_result(db.texts(), path@),
{
    if !is_markdown_path(&path) {
        return Err(TaekoError::InvalidPath);
    }
    match db.text(&path) {
        Ok(text) => Ok(front_text(text.as_str())),
        Err(e) => Err(e),
    }
}

/// The markdown source at `path` without its metadata block.
pub fn content<D: TaekoCoreDatabase>(db: &D, path: String) -> (r: Result<String, TaekoError>)
    requires
        db.valid(),
    ensures
        text_view(r) == content_result(db.texts(), path@),
{
    if !is_markdown_path(&path) {
        return Err(TaekoError::InvalidPath);
    }
    match db.text(&path) {
        Ok(text) => Ok(body_text(text.as_str())),
        Err(e) => Err(e),
    }
}

/// The body of the markdown source at `path`, converted to HTML.
pub fn as_html<D: TaekoCoreDatabase>(db: &D, path: String) -> (r: Result<String, TaekoError>)
    requires
        db.valid(),
    ensures
        text_view(r) == html_result(db.texts(), path@),
{
    match content(db, path) {
        Ok(body) => Ok(render_markdown(body.as_str())),
        Err(e) => Err(e),
    }
}

} // verus!
