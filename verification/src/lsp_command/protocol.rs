//! The parts of the language server protocol that the editor reads and writes.
use std::ops::Range;
use vstd::prelude::*;

use crate::editor::search::Bias;

verus! {

pub type LanguageServerId = usize;

/// A place in a document, in the words of the protocol.
#[derive(Clone, Copy, Debug, PartialEq, Eq, Structural)]
pub struct Position {
    pub line: u32,
    pub character: u32,
}

/// A place in a text, with columns in units of UTF-16.
#[derive(Clone, Copy, Debug, PartialEq, Eq, Structural)]
pub struct PointUtf16 {
    pub row: u32,
    pub column: u32,
}

/// A place that stays where it is in a text while the text around it changes.
#[derive(Clone, Copy, Debug, PartialEq, Eq, Structural)]
pub struct PointAnchor {
    pub position: PointUtf16,
    pub bias: Bias,
}

/// A range that a server speaks of, with what it is in the text that there is.
#[derive(Clone, Copy, Debug, PartialEq, Eq, Structural)]
pub struct PlacedRange {
    pub start: PointUtf16,
    pub end: PointUtf16,
    /// The start, moved left to where the text has a place.
    pub clipped_start: PointUtf16,
    /// The end, moved left to where the text has a place.
    pub clipped_end: PointUtf16,
}

impl PlacedRange {
    /// Whether both ends are places in the text.
    pub open spec fn is_in_text(self) -> bool {
        self.clipped_start == self.start && self.clipped_end == self.end
    }

    /// What the range is in the text, such that it does not grow with what is typed at its ends.
    pub open spec fn inner(self) -> Range<PointAnchor> {
        Range {
            start: PointAnchor { position: self.clipped_start, bias: Bias::Right },
            end: PointAnchor { position: self.clipped_end, bias: Bias::Left },
        }
    }

    /// What the range is in the text, such that it grows with what is typed at its ends.
    pub open spec fn outer(self) -> Range<PointAnchor> {
        Range {
            start: PointAnchor { position: self.clipped_start, bias: Bias::Left },
            end: PointAnchor { position: self.clipped_end, bias: Bias::Right },
        }
    }

    /// Whether both ends are places in the text.
    pub fn fits(&self) -> (r: bool)
        ensures
            r == self.is_in_text(),
    {
        self.clipped_start == self.start && self.clipped_end == self.end
    }

    /// What the range is in the text, such that it does not grow with what is typed at its ends.
    pub fn anchors_inside(&self) -> (r: Range<PointAnchor>)
        ensures
            r == self.inner(),
    {
        Range {
            start: PointAnchor { position: self.clipped_start, bias: Bias::Right },
            end: PointAnchor { position: self.clipped_end, bias: Bias::Left },
        }
    }

    /// What the range is in the text, such that it grows with what is typed at its ends.
    pub fn anchors_outside(&self) -> (r: Range<PointAnchor>)
        ensures
            r == self.outer(),
    {
        Range {
            start: PointAnchor { position: self.clipped_start, bias: Bias::Left },
            end: PointAnchor { position: self.clipped_end, bias: Bias::Right },
        }
    }
}

/// A place in the words of the protocol.
pub open spec fn position_of(point: PointUtf16) -> Position {
    Position { line: point.row, character: point.column }
}

/// A range in the words of the protocol.
pub open spec fn range_of(range: Range<PointUtf16>) -> Range<Position> {
    Range { start: position_of(range.start), end: position_of(range.end) }
}

/// A place in the words of the protocol.
pub fn point_to_lsp(point: PointUtf16) -> (r: Position)
    ensures
        r == position_of(point),
{
    Position { line: point.row, character: point.column }
}

/// A range in the words of the protocol.
pub fn range_to_lsp(range: &Range<PointUtf16>) -> (r: Range<Position>)
    ensures
        r == range_of(*range),
{
    Range { start: point_to_lsp(range.start), end: point_to_lsp(range.end) }
}

/// What `url::Url::from_file_path` makes of a path, as text.
pub uninterp spec fn url_of_file(path: Seq<char>) -> Option<Seq<char>>;

/// Whether a path starts at the root of the file system.
pub open spec fn is_absolute(path: Seq<char>) -> bool {
    path.len() > 0 && path[0] == '/'
}

/// Calls `Url::from_file_path` of the `url` crate, as `lsp_types` hands it on, on a system with
/// paths as Unix has them. It is a function of the path, and gives a URL exactly for the paths
/// that are absolute. Which characters it escapes is left to it.
#[verifier::external_body]
pub(crate) fn file_url(path: &str) -> (r: Option<String>)
    ensures
        match r {
            Some(url) => url_of_file(path@) == Some(url@),
            None => url_of_file(path@) is None,
        },
        r is Some <==> is_absolute(path@),
{
    lsp_types::Url::from_file_path(path).ok().map(|url| url.to_string())
}

/// One of two things.
#[derive(Debug)]
pub enum OneOf<A, B> {
    Left(A),
    Right(B),
}

/// How a server renames.
#[derive(Clone, Copy, Debug, PartialEq, Eq, Structural)]
pub struct RenameOptions {
    pub prepare_provider: Option<bool>,
}

/// Whether a server finds the definitions of types.
#[derive(Clone, Copy, Debug, PartialEq, Eq, Structural)]
pub enum TypeDefinitionProviderCapability {
    Simple(bool),
    Options,
}

/// Whether a server offers changes of the code.
#[derive(Clone, Copy, Debug, PartialEq, Eq, Structural)]
pub enum CodeActionProviderCapability {
    Simple(bool),
    Options { resolve_provider: Option<bool> },
}

/// What a server formats as it is typed.
#[derive(Debug)]
pub struct DocumentOnTypeFormattingOptions {
    pub first_trigger_character: String,
    pub more_trigger_character: Option<Vec<String>>,
}

/// How a server offers hints within the text.
#[derive(Clone, Copy, Debug, PartialEq, Eq, Structural)]
pub enum InlayHintServerCapabilities {
    Options { resolve_provider: Option<bool> },
    RegistrationOptions { resolve_provider: Option<bool> },
}

/// What a server can do.
#[derive(Debug)]
pub struct ServerCapabilities {
    pub rename_provider: Option<OneOf<bool, RenameOptions>>,
    pub type_definition_provider: Option<TypeDefinitionProviderCapability>,
    /// Whether the server is able to highlight; options say no more than `true` does.
    pub document_highlight_provider: Option<bool>,
    pub code_action_provider: Option<CodeActionProviderCapability>,
    pub document_on_type_formatting_provider: Option<DocumentOnTypeFormattingOptions>,
    pub inlay_hint_provider: Option<OneOf<bool, InlayHintServerCapabilities>>,
}

/// How a server is to format.
#[derive(Clone, Copy, Debug, PartialEq, Eq, Structural)]
pub struct LspFormattingOptions {
    pub tab_size: u32,
    pub insert_spaces: bool,
    pub trim_trailing_whitespace: Option<bool>,
    pub insert_final_newline: Option<bool>,
    pub trim_final_newlines: Option<bool>,
}

/// How a document is to be formatted: with spaces, and with a newline at its end.
pub open spec fn formatting_options(tab_size: u32) -> LspFormattingOptions {
    LspFormattingOptions {
        tab_size,
        insert_spaces: true,
        trim_trailing_whitespace: None,
        insert_final_newline: Some(true),
        trim_final_newlines: None,
    }
}

/// How a document is to be formatted: with spaces, and with a newline at its end.
pub fn lsp_formatting_options(tab_size: u32) -> (r: LspFormattingOptions)
    ensures
        r == formatting_options(tab_size),
{
    LspFormattingOptions {
        tab_size,
        insert_spaces: true,
        trim_trailing_whitespace: None,
        insert_final_newline: Some(true),
        trim_final_newlines: None,
    }
}

/// Why an answer cannot be used.
#[derive(Debug)]
pub enum LspError<E> {
    /// No server is at work on the buffer.
    NoLanguageServerForBuffer,
    /// The server is not known.
    NoSuchLanguageServer,
    /// The project failed.
    Failed(E),
}

impl<E> LspError<E> {
    /// What is wrong, unless something else says so.
    pub open spec fn explanation(self) -> Option<Seq<char>> {
        match self {
            LspError::NoLanguageServerForBuffer => Some("no language server found for buffer"@),
            LspError::NoSuchLanguageServer => Some("no such language server"@),
            LspError::Failed(_) => None,
        }
    }

    /// What is wrong, unless something else says so.
    pub fn message(&self) -> (r: Option<&'static str>)
        ensures
            match r {
                Some(message) => self.explanation() == Some(message@),
                None => self.explanation() is None,
            },
    {
        match self {
            LspError::NoLanguageServerForBuffer => Some("no language server found for buffer"),
            LspError::NoSuchLanguageServer => Some("no such language server"),
            LspError::Failed(_) => None,
        }
    }
}

/// The server that is at work on a buffer, as the project answers.
pub fn language_server_for_buffer<S, E>(server: Result<Option<S>, E>) -> (r: Result<
    S,
    LspError<E>,
>)
    ensures
        r == match server {
            Ok(Some(server)) => Ok(server),
            Ok(None) => Err(LspError::NoLanguageServerForBuffer),
            Err(error) => Err(LspError::Failed(error)),
        },
{
    match server {
        Ok(Some(server)) => Ok(server),
        Ok(None) => Err(LspError::NoLanguageServerForBuffer),
        Err(error) => Err(LspError::Failed(error)),
    }
}

}
