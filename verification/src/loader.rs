//! Loading the settings: from the text of the settings file, or from the fact that there is
//! none, to settings that can always be used.
//!
//! A text that cannot be read as settings never stops the start: the defaults are used whole,
//! and the error is handed back beside them for the caller to report.

use vstd::prelude::*;
use crate::decode::config_of;
use crate::document::{Doc, Node};
use crate::fields::{SchemaError, SchemaErrorView};
use crate::schema::{Config, ConfigView};
use crate::syntax::{parse_document, parsed_toml, SyntaxError, SyntaxErrorView};

verus! {

/// What was found where the settings file should be.
#[derive(Debug, PartialEq, Eq)]
pub enum DocumentSource {
    /// There is no file.
    Absent,
    /// There is a file, and reading it failed with this message.
    Unreadable(String),
    /// The text of the file.
    Contents(String),
}

/// The view of a [`DocumentSource`].
pub enum DocumentSourceView {
    Absent,
    Unreadable(Seq<char>),
    Contents(Seq<char>),
}

impl View for DocumentSource {
    type V = DocumentSourceView;

    open spec fn view(&self) -> DocumentSourceView {
        match self {
            DocumentSource::Absent => DocumentSourceView::Absent,
            DocumentSource::Unreadable(message) => DocumentSourceView::Unreadable(message@),
            DocumentSource::Contents(text) => DocumentSourceView::Contents(text@),
        }
    }
}

/// Why the defaults were used in place of the settings file.
#[derive(Debug, PartialEq, Eq)]
pub enum LoadError {
    /// The file could not be read.
    Io(String),
    /// The text is no TOML document.
    Syntax(SyntaxError),
    /// The document holds something that is no setting, or a setting of the wrong kind.
    Schema(SchemaError),
}

/// The view of a [`LoadError`].
pub enum LoadErrorView {
    Io(Seq<char>),
    Syntax(SyntaxErrorView),
    Schema(SchemaErrorView),
}

impl View for LoadError {
    type V = LoadErrorView;

    open spec fn view(&self) -> LoadErrorView {
        match self {
            LoadError::Io(message) => LoadErrorView::Io(message@),
            LoadError::Syntax(error) => LoadErrorView::Syntax(error@),
            LoadError::Schema(error) => LoadErrorView::Schema(error@),
        }
    }
}

/// The view of settings together with the error that was met on the way to them.
pub open spec fn outcome(loaded: (Config, Option<LoadError>)) -> (
    ConfigView,
    Option<LoadErrorView>,
) {
    (
        loaded.0@,
        match loaded.1 {
            Some(error) => Some(error@),
            None => None,
        },
    )
}

/// What loading makes of a document: its settings, or the defaults and the fault.
pub open spec fn loaded_from_document(document: Doc) -> (ConfigView, Option<LoadErrorView>) {
    match config_of(document) {
        Ok(config) => (config, None),
        Err(error) => (ConfigView::defaults(), Some(LoadErrorView::Schema(error))),
    }
}

/// What loading makes of a text that was parsed: what it makes of the document, or the
/// defaults and the syntax error.
pub open spec fn loaded_from_parsed(parsed: Result<Doc, SyntaxErrorView>) -> (
    ConfigView,
    Option<LoadErrorView>,
) {
    match parsed {
        Ok(document) => loaded_from_document(document),
        Err(error) => (ConfigView::defaults(), Some(LoadErrorView::Syntax(error))),
    }
}

/// What loading makes of a source. No file gives the defaults and no error; a file that
/// cannot be read gives the defaults and the error; a text is parsed.
pub open spec fn loaded(source: DocumentSourceView) -> (ConfigView, Option<LoadErrorView>) {
    match source {
        DocumentSourceView::Absent => (ConfigView::defaults(), None),
        DocumentSourceView::Unreadable(message) => (
            ConfigView::defaults(),
            Some(LoadErrorView::Io(message)),
        ),
        DocumentSourceView::Contents(text) => loaded_from_parsed(parsed_toml(text)),
    }
}

/// Loads the settings from a document.
pub fn load_document(document: &Node) -> (loaded: (Config, Option<LoadError>))
    ensures
        outcome(loaded) == loaded_from_document(document@),
{
    match Config::from_document(document) {
        Ok(config) => (config, None),
        Err(error) => (Config::default(), Some(LoadError::Schema(error))),
    }
}

/// Loads the settings from what parsing a text gave.
pub fn load_parsed(parsed: Result<Node, SyntaxError>) -> (loaded: (Config, Option<LoadError>))
    ensures
        outcome(loaded) == loaded_from_parsed(
            match parsed {
                Ok(document) => Ok(document@),
                Err(error) => Err(error@),
            },
        ),
{
    match parsed {
        Ok(document) => load_document(&document),
        Err(error) => (Config::default(), Some(LoadError::Syntax(error))),
    }
}

/// Loads the settings from the text of a settings file.
pub fn load_text(text: &str) -> (loaded: (Config, Option<LoadError>))
    ensures
        outcome(loaded) == loaded_from_parsed(parsed_toml(text@)),
{
    load_parsed(parse_document(text))
}

/// Loads the settings from what was found where the settings file should be.
pub fn load(source: DocumentSource) -> (made: (Config, Option<LoadError>))
    ensures
        outcome(made) == loaded(source@),
{
    match source {
        DocumentSource::Absent => (Config::default(), None),
        DocumentSource::Unreadable(message) => (Config::default(), Some(LoadError::Io(message))),
        DocumentSource::Contents(text) => load_text(text.as_str()),
    }
}

} // verus!
