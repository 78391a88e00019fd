//! Between TOML text and documents: reading and writing is the `toml` crate's work.

use vstd::prelude::*;
use crate::document::{Doc, Node};

verus! {

/// Why a text is no TOML document.
#[derive(Debug, PartialEq, Eq)]
pub struct SyntaxError {
    /// What went wrong.
    pub message: String,
    /// Where in the text it went wrong, as the offsets in bytes of the start and the end.
    pub span: Option<(usize, usize)>,
}

/// The view of a [`SyntaxError`].
pub struct SyntaxErrorView {
    pub message: Seq<char>,
    pub span: Option<(usize, usize)>,
}

impl View for SyntaxError {
    type V = SyntaxErrorView;

    open spec fn view(&self) -> SyntaxErrorView {
        SyntaxErrorView { message: self.message@, span: self.span }
    }
}

/// `toml::Value`, a value of the `toml` crate. Nothing is known of it here: it is only handed
/// from the crate's reader to [`from_toml`], and from [`to_toml`] to the crate's writer.
#[verifier::external_type_specification]
#[verifier::external_body]
pub struct ExTomlValue(toml::Value);

/// What `toml::from_str` makes of a text: the document that the text stands for, or why it
/// stands for none. Which texts are documents is the crate's to say; here it has only a name.
pub uninterp spec fn parsed_toml(text: Seq<char>) -> Result<Doc, SyntaxErrorView>;

/// The TOML text that `toml::to_string_pretty` writes for a document, if it can write one.
/// What the text looks like is the crate's to say; here it has only a name.
pub uninterp spec fn rendered_toml(document: Doc) -> Option<Seq<char>>;

/// The conversion in [`parse_toml`]: a [`Node`] for a `toml::Value`, variant by variant. The
/// entries of a table come in the order in which `toml::Table` hands them out. Nothing is
/// proved of it, and nothing is claimed of it but through [`parse_toml`].
#[verifier::external_body]
fn from_toml(value: toml::Value) -> Node {
    match value {
        toml::Value::String(text) => Node::String(text),
        toml::Value::Integer(number) => Node::Integer(number),
        toml::Value::Float(_) => Node::Float,
        toml::Value::Boolean(flag) => Node::Boolean(flag),
        toml::Value::Datetime(_) => Node::Datetime,
        toml::Value::Array(items) => Node::Array(items.into_iter().map(from_toml).collect()),
        toml::Value::Table(table) => Node::Table(
            table.into_iter().map(|(key, value)| (key, from_toml(value))).collect(),
        ),
    }
}

/// The conversion in [`render_toml`]: a `toml::Value` for a [`Node`], variant by variant.
/// There is none for a [`Node::Float`] or a [`Node::Datetime`], which do not keep what they
/// held. Nothing is proved of it, and nothing is claimed of it but through [`render_toml`].
#[verifier::external_body]
fn to_toml(value: &Node) -> Option<toml::Value> {
    match value {
        Node::String(text) => Some(toml::Value::String(text.clone())),
        Node::Integer(number) => Some(toml::Value::Integer(*number)),
        Node::Boolean(flag) => Some(toml::Value::Boolean(*flag)),
        Node::Array(items) => Some(
            toml::Value::Array(items.iter().map(to_toml).collect::<Option<_>>()?),
        ),
        Node::Table(entries) => Some(
            toml::Value::Table(
                entries.iter().map(|(key, value)| Some((key.clone(), to_toml(value)?)))
                    .collect::<Option<_>>()?,
            ),
        ),
        Node::Float | Node::Datetime => None,
    }
}

/// Calls `toml::from_str` to read `text` as a table, and converts what comes back.
///
/// Believed, not proved: the same text always gives the same result, which [`parsed_toml`]
/// names. It is the document that the crate read, or the message and the span of the crate's
/// error.
#[verifier::external_body]
fn parse_toml(text: &str) -> (parsed: Result<Node, SyntaxError>)
    ensures
        match parsed {
            Ok(document) => parsed_toml(text@) == Ok::<Doc, SyntaxErrorView>(document@),
            Err(error) => parsed_toml(text@) == Err::<Doc, SyntaxErrorView>(error@),
        },
{
    match toml::from_str::<toml::Table>(text) {
        Ok(table) => Ok(from_toml(toml::Value::Table(table))),
        Err(error) => Err(
            SyntaxError {
                message: error.message().to_string(),
                span: error.span().map(|span| (span.start, span.end)),
            },
        ),
    }
}

/// Converts `document` and calls `toml::to_string_pretty` to write it.
///
/// Believed, not proved: the same document always gives the same result, which
/// [`rendered_toml`] names. There is no text where the document holds what was not kept, or
/// where the crate refuses it, as it does a document that is no table.
#[verifier::external_body]
fn render_toml(document: &Node) -> (text: Option<String>)
    ensures
        match text {
            Some(written) => rendered_toml(document@) == Some(written@),
            None => rendered_toml(document@) is None,
        },
{
    toml::to_string_pretty(&to_toml(document)?).ok()
}

/// Reads a TOML text: the document it stands for, or why it stands for none.
pub fn parse_document(text: &str) -> (parsed: Result<Node, SyntaxError>)
    ensures
        match parsed {
            Ok(document) => parsed_toml(text@) == Ok::<Doc, SyntaxErrorView>(document@),
            Err(error) => parsed_toml(text@) == Err::<Doc, SyntaxErrorView>(error@),
        },
{
    parse_toml(text)
}

/// Writes a document as TOML text, if there is a text for it.
pub fn render_document(document: &Node) -> (text: Option<String>)
    ensures
        match text {
            Some(written) => rendered_toml(document@) == Some(written@),
            None => rendered_toml(document@) is None,
        },
{
    render_toml(document)
}

} // verus!
