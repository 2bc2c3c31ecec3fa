//! The requests that an editor sends to language servers.
use std::ops::Range;
use vstd::prelude::*;

use crate::editor::search::Anchor;
use crate::lsp_command::protocol::{
    file_url, lsp_formatting_options, point_to_lsp, range_to_lsp, CodeActionProviderCapability,
    InlayHintServerCapabilities, LspFormattingOptions, OneOf, PointUtf16, Position,
    ServerCapabilities, TypeDefinitionProviderCapability,
};
use crate::text::{contains, copy_strings};

verus! {

/// What a request is about, besides what the request itself says.
#[derive(Debug)]
pub struct RequestContext {
    /// Where in the buffer the range of the request is.
    pub range: Range<PointUtf16>,
    /// What is wrong with the text in the range, each written out as it is sent.
    pub diagnostics: Vec<String>,
    /// The kinds of code actions that the server offers.
    pub code_action_kinds: Option<Vec<String>>,
}

/// Something that can be asked of a language server.
pub trait LspCommand: Sized {
    /// What is sent.
    type Params;

    /// Whether a server with these capabilities can be asked.
    spec fn is_offered(&self, capabilities: ServerCapabilities) -> bool;

    /// Whether these are the parameters of the request for the file at the path.
    spec fn is_sent(&self, path: Seq<char>, context: RequestContext, params: Self::Params) -> bool;

    /// Whether a server with these capabilities can be asked.
    fn check_capabilities(&self, capabilities: &ServerCapabilities) -> (r: bool)
        ensures
            r == self.is_offered(*capabilities),
    ;

    /// The parameters of the request for the file at the path.
    fn to_lsp(&self, path: &str, context: &RequestContext) -> (r: Self::Params)
        requires
            crate::lsp_command::protocol::is_absolute(path@),
        ensures
            self.is_sent(path@, *context, r),
    ;
}

/// A place in a document.
#[derive(Debug)]
pub struct TextDocumentPositionParams {
    pub uri: String,
    pub position: Position,
}

/// Whether the text is the URL of the file at the path.
pub open spec fn is_url_of(uri: String, path: Seq<char>) -> bool {
    crate::lsp_command::protocol::url_of_file(path) == Some(uri@)
}

impl TextDocumentPositionParams {
    /// Whether this is the given place in the file at the path.
    pub open spec fn is_at(self, path: Seq<char>, point: PointUtf16) -> bool {
        &&& is_url_of(self.uri, path)
        &&& self.position == crate::lsp_command::protocol::position_of(point)
    }
}

fn url_of(path: &str) -> (r: String)
    requires
        crate::lsp_command::protocol::is_absolute(path@),
    ensures
        is_url_of(r, path@),
{
    file_url(path).unwrap()
}

fn place_in_file(path: &str, point: PointUtf16) -> (r: TextDocumentPositionParams)
    requires
        crate::lsp_command::protocol::is_absolute(path@),
    ensures
        r.is_at(path@, point),
{
    TextDocumentPositionParams { uri: url_of(path), position: point_to_lsp(point) }
}

/// Asks what would be renamed.
#[derive(Debug)]
pub struct PrepareRename {
    pub position: PointUtf16,
}

impl LspCommand for PrepareRename {
    type Params = TextDocumentPositionParams;

    open spec fn is_offered(&self, capabilities: ServerCapabilities) -> bool {
        &&& capabilities.rename_provider matches Some(OneOf::Right(rename))
        &&& rename.prepare_provider == Some(true)
    }

    open spec fn is_sent(
        &self,
        path: Seq<char>,
        context: RequestContext,
        params: TextDocumentPositionParams,
    ) -> bool {
        params.is_at(path, self.position)
    }

    fn check_capabilities(&self, capabilities: &ServerCapabilities) -> bool {
        match &capabilities.rename_provider {
            Some(OneOf::Right(rename)) => match rename.prepare_provider {
                Some(prepares) => prepares,
                None => false,
            },
            _ => false,
        }
    }

    fn to_lsp(&self, path: &str, context: &RequestContext) -> TextDocumentPositionParams {
        place_in_file(path, self.position)
    }
}

/// Asks for what is at a place to have another name.
#[derive(Debug)]
pub struct PerformRename {
    pub position: PointUtf16,
    pub new_name: String,
    pub push_to_history: bool,
}

/// What is sent to have something renamed.
#[derive(Debug)]
pub struct RenameParams {
    pub text_document_position: TextDocumentPositionParams,
    pub new_name: String,
}

impl LspCommand for PerformRename {
    type Params = RenameParams;

    open spec fn is_offered(&self, capabilities: ServerCapabilities) -> bool {
        true
    }

    open spec fn is_sent(
        &self,
        path: Seq<char>,
        context: RequestContext,
        params: RenameParams,
    ) -> bool {
        &&& params.text_document_position.is_at(path, self.position)
        &&& params.new_name == self.new_name
    }

    fn check_capabilities(&self, capabilities: &ServerCapabilities) -> bool {
        true
    }

    fn to_lsp(&self, path: &str, context: &RequestContext) -> RenameParams {
        RenameParams {
            text_document_position: place_in_file(path, self.position),
            new_name: self.new_name.clone(),
        }
    }
}

/// Asks where what is at a place is defined.
#[derive(Debug)]
pub struct GetDefinition {
    pub position: PointUtf16,
}

impl LspCommand for GetDefinition {
    type Params = TextDocumentPositionParams;

    open spec fn is_offered(&self, capabilities: ServerCapabilities) -> bool {
        true
    }

    open spec fn is_sent(
        &self,
        path: Seq<char>,
        context: RequestContext,
        params: TextDocumentPositionParams,
    ) -> bool {
        params.is_at(path, self.position)
    }

    fn check_capabilities(&self, capabilities: &ServerCapabilities) -> bool {
        true
    }

    fn to_lsp(&self, path: &str, context: &RequestContext) -> TextDocumentPositionParams {
        place_in_file(path, self.position)
    }
}

/// Asks where the type of what is at a place is defined.
#[derive(Debug)]
pub struct GetTypeDefinition {
    pub position: PointUtf16,
}

impl LspCommand for GetTypeDefinition {
    type Params = TextDocumentPositionParams;

    open spec fn is_offered(&self, capabilities: ServerCapabilities) -> bool {
        match capabilities.type_definition_provider {
            None => false,
            Some(provider) => provider != TypeDefinitionProviderCapability::Simple(false),
        }
    }

    open spec fn is_sent(
        &self,
        path: Seq<char>,
        context: RequestContext,
        params: TextDocumentPositionParams,
    ) -> bool {
        params.is_at(path, self.position)
    }

    fn check_capabilities(&self, capabilities: &ServerCapabilities) -> bool {
        match &capabilities.type_definition_provider {
            None => false,
            Some(TypeDefinitionProviderCapability::Simple(false)) => false,
            _ => true,
        }
    }

    fn to_lsp(&self, path: &str, context: &RequestContext) -> TextDocumentPositionParams {
        place_in_file(path, self.position)
    }
}

/// Asks where what is at a place is implemented.
#[derive(Debug)]
pub struct GetImplementation {
    pub position: PointUtf16,
}

impl LspCommand for GetImplementation {
    type Params = TextDocumentPositionParams;

    open spec fn is_offered(&self, capabilities: ServerCapabilities) -> bool {
        true
    }

    open spec fn is_sent(
        &self,
        path: Seq<char>,
        context: RequestContext,
        params: TextDocumentPositionParams,
    ) -> bool {
        params.is_at(path, self.position)
    }

    fn check_capabilities(&self, capabilities: &ServerCapabilities) -> bool {
        true
    }

    fn to_lsp(&self, path: &str, context: &RequestContext) -> TextDocumentPositionParams {
        place_in_file(path, self.position)
    }
}

/// Asks where what is at a place is referred to.
#[derive(Debug)]
pub struct GetReferences {
    pub position: PointUtf16,
}

/// What is sent to ask for references.
#[derive(Debug)]
pub struct ReferenceParams {
    pub text_document_position: TextDocumentPositionParams,
    pub include_declaration: bool,
}

impl LspCommand for GetReferences {
    type Params = ReferenceParams;

    open spec fn is_offered(&self, capabilities: ServerCapabilities) -> bool {
        true
    }

    open spec fn is_sent(
        &self,
        path: Seq<char>,
        context: RequestContext,
        params: ReferenceParams,
    ) -> bool {
        &&& params.text_document_position.is_at(path, self.position)
        &&& params.include_declaration
    }

    fn check_capabilities(&self, capabilities: &ServerCapabilities) -> bool {
        true
    }

    fn to_lsp(&self, path: &str, context: &RequestContext) -> ReferenceParams {
        ReferenceParams {
            text_document_position: place_in_file(path, self.position),
            include_declaration: true,
        }
    }
}

/// Asks what in the document belongs with what is at a place.
#[derive(Debug)]
pub struct GetDocumentHighlights {
    pub position: PointUtf16,
}

impl LspCommand for GetDocumentHighlights {
    type Params = TextDocumentPositionParams;

    open spec fn is_offered(&self, capabilities: ServerCapabilities) -> bool {
        capabilities.document_highlight_provider is Some
    }

    open spec fn is_sent(
        &self,
        path: Seq<char>,
        context: RequestContext,
        params: TextDocumentPositionParams,
    ) -> bool {
        params.is_at(path, self.position)
    }

    fn check_capabilities(&self, capabilities: &ServerCapabilities) -> bool {
        capabilities.document_highlight_provider.is_some()
    }

    fn to_lsp(&self, path: &str, context: &RequestContext) -> TextDocumentPositionParams {
        place_in_file(path, self.position)
    }
}

/// Asks what there is to say about what is at a place.
#[derive(Debug)]
pub struct GetHover {
    pub position: PointUtf16,
}

impl LspCommand for GetHover {
    type Params = TextDocumentPositionParams;

    open spec fn is_offered(&self, capabilities: ServerCapabilities) -> bool {
        true
    }

    open spec fn is_sent(
        &self,
        path: Seq<char>,
        context: RequestContext,
        params: TextDocumentPositionParams,
    ) -> bool {
        params.is_at(path, self.position)
    }

    fn check_capabilities(&self, capabilities: &ServerCapabilities) -> bool {
        true
    }

    fn to_lsp(&self, path: &str, context: &RequestContext) -> TextDocumentPositionParams {
        place_in_file(path, self.position)
    }
}

/// Asks what can be typed at a place.
#[derive(Debug)]
pub struct GetCompletions {
    pub position: PointUtf16,
}

impl LspCommand for GetCompletions {
    type Params = TextDocumentPositionParams;

    open spec fn is_offered(&self, capabilities: ServerCapabilities) -> bool {
        true
    }

    open spec fn is_sent(
        &self,
        path: Seq<char>,
        context: RequestContext,
        params: TextDocumentPositionParams,
    ) -> bool {
        params.is_at(path, self.position)
    }

    fn check_capabilities(&self, capabilities: &ServerCapabilities) -> bool {
        true
    }

    fn to_lsp(&self, path: &str, context: &RequestContext) -> TextDocumentPositionParams {
        place_in_file(path, self.position)
    }
}

/// Asks what can be done with a range of the text.
#[derive(Debug)]
pub struct GetCodeActions {
    pub range: Range<Anchor>,
    pub kinds: Option<Vec<String>>,
}

/// What is sent to ask for code actions.
#[derive(Debug)]
pub struct CodeActionParams {
    pub uri: String,
    pub range: Range<Position>,
    pub diagnostics: Vec<String>,
    pub only: Option<Vec<String>>,
}

impl LspCommand for GetCodeActions {
    type Params = CodeActionParams;

    open spec fn is_offered(&self, capabilities: ServerCapabilities) -> bool {
        match capabilities.code_action_provider {
            None => false,
            Some(provider) => provider != CodeActionProviderCapability::Simple(false),
        }
    }

    /// The kinds that are asked for are those of the request, or else those of the server.
    open spec fn is_sent(
        &self,
        path: Seq<char>,
        context: RequestContext,
        params: CodeActionParams,
    ) -> bool {
        &&& is_url_of(params.uri, path)
        &&& params.range == crate::lsp_command::protocol::range_of(context.range)
        &&& params.diagnostics@ == context.diagnostics@
        &&& match (self.kinds, context.code_action_kinds) {
            (Some(kinds), _) => params.only is Some && params.only->0@ == kinds@,
            (None, Some(kinds)) => params.only is Some && params.only->0@ == kinds@,
            (None, None) => params.only is None,
        }
    }

    fn check_capabilities(&self, capabilities: &ServerCapabilities) -> bool {
        match &capabilities.code_action_provider {
            None => false,
            Some(CodeActionProviderCapability::Simple(false)) => false,
            _ => true,
        }
    }

    fn to_lsp(&self, path: &str, context: &RequestContext) -> CodeActionParams {
        let only = match &self.kinds {
            Some(kinds) => Some(copy_strings(kinds)),
            None => match &context.code_action_kinds {
                Some(kinds) => Some(copy_strings(kinds)),
                None => None,
            },
        };
        let diagnostics = copy_strings(&context.diagnostics);
        CodeActionParams { uri: url_of(path), range: range_to_lsp(&context.range), diagnostics, only }
    }
}

impl GetCodeActions {
    /// Whether the server can say more of an action that it offered.
    pub open spec fn resolves(capabilities: ServerCapabilities) -> bool {
        &&& capabilities.code_action_provider matches Some(
            CodeActionProviderCapability::Options { resolve_provider },
        )
        &&& resolve_provider == Some(true)
    }

    /// Whether the server can say more of an action that it offered.
    pub fn can_resolve_actions(capabilities: &ServerCapabilities) -> (r: bool)
        ensures
            r == Self::resolves(*capabilities),
    {
        match &capabilities.code_action_provider {
            Some(CodeActionProviderCapability::Options { resolve_provider }) => {
                match resolve_provider {
                    Some(resolves) => *resolves,
                    None => false,
                }
            },
            _ => false,
        }
    }
}

/// How an editor formats.
#[derive(Clone, Copy, Debug, PartialEq, Eq, Structural)]
pub struct FormattingOptions {
    pub tab_size: u32,
}

impl vstd::std_specs::convert::FromSpecImpl<LspFormattingOptions> for FormattingOptions {
    open spec fn obeys_from_spec() -> bool {
        true
    }

    open spec fn from_spec(value: LspFormattingOptions) -> Self {
        FormattingOptions { tab_size: value.tab_size }
    }
}

impl From<LspFormattingOptions> for FormattingOptions {
    fn from(value: LspFormattingOptions) -> (r: Self) {
        FormattingOptions { tab_size: value.tab_size }
    }
}

/// Asks how the text changes after something was typed.
#[derive(Debug)]
pub struct OnTypeFormatting {
    pub position: PointUtf16,
    pub trigger: String,
    pub options: FormattingOptions,
    pub push_to_history: bool,
}

/// What is sent after something was typed.
#[derive(Debug)]
pub struct DocumentOnTypeFormattingParams {
    pub text_document_position: TextDocumentPositionParams,
    pub ch: String,
    pub options: LspFormattingOptions,
}

impl LspCommand for OnTypeFormatting {
    type Params = DocumentOnTypeFormattingParams;

    /// A server is asked where one of the texts that it names has the trigger in it.
    open spec fn is_offered(&self, capabilities: ServerCapabilities) -> bool {
        &&& capabilities.document_on_type_formatting_provider matches Some(options)
        &&& {
            ||| crate::text::occurs(options.first_trigger_character@, self.trigger@)
            ||| options.more_trigger_character is Some && exists|i: int|
                0 <= i < options.more_trigger_character->0@.len() && crate::text::occurs(
                    #[trigger] options.more_trigger_character->0@[i]@,
                    self.trigger@,
                )
        }
    }

    open spec fn is_sent(
        &self,
        path: Seq<char>,
        context: RequestContext,
        params: DocumentOnTypeFormattingParams,
    ) -> bool {
        &&& params.text_document_position.is_at(path, self.position)
        &&& params.ch == self.trigger
        &&& params.options == crate::lsp_command::protocol::formatting_options(
            self.options.tab_size,
        )
    }

    fn check_capabilities(&self, capabilities: &ServerCapabilities) -> bool {
        let options = match &capabilities.document_on_type_formatting_provider {
            Some(options) => options,
            None => {
                return false;
            },
        };
        if contains(options.first_trigger_character.as_str(), self.trigger.as_str()) {
            return true;
        }
        let more = match &options.more_trigger_character {
            Some(more) => more,
            None => {
                return false;
            },
        };
        let mut i: usize = 0;
        while i < more.len()
            invariant
                i <= more.len(),
                capabilities.document_on_type_formatting_provider == Some(*options),
                options.more_trigger_character == Some(*more),
                forall|j: int|
                    0 <= j < i ==> !crate::text::occurs(#[trigger] more@[j]@, self.trigger@),
            decreases more.len() - i,
        {
            if contains(more[i].as_str(), self.trigger.as_str()) {
                assert(crate::text::occurs(
                    options.more_trigger_character->0@[i as int]@,
                    self.trigger@,
                ));
                return true;
            }
            i = i + 1;
        }
        false
    }

    fn to_lsp(&self, path: &str, context: &RequestContext) -> DocumentOnTypeFormattingParams {
        DocumentOnTypeFormattingParams {
            text_document_position: place_in_file(path, self.position),
            ch: self.trigger.clone(),
            options: lsp_formatting_options(self.options.tab_size),
        }
    }
}

/// Asks for hints within a range of the text.
#[derive(Debug)]
pub struct InlayHints {
    pub range: Range<Anchor>,
}

/// What is sent to ask for hints.
#[derive(Debug)]
pub struct InlayHintParams {
    pub uri: String,
    pub range: Range<Position>,
}

impl LspCommand for InlayHints {
    type Params = InlayHintParams;

    open spec fn is_offered(&self, capabilities: ServerCapabilities) -> bool {
        match capabilities.inlay_hint_provider {
            None => false,
            Some(OneOf::Left(enabled)) => enabled,
            Some(OneOf::Right(provider)) => provider is Options,
        }
    }

    open spec fn is_sent(
        &self,
        path: Seq<char>,
        context: RequestContext,
        params: InlayHintParams,
    ) -> bool {
        &&& is_url_of(params.uri, path)
        &&& params.range == crate::lsp_command::protocol::range_of(context.range)
    }

    fn check_capabilities(&self, capabilities: &ServerCapabilities) -> bool {
        match &capabilities.inlay_hint_provider {
            None => false,
            Some(OneOf::Left(enabled)) => *enabled,
            Some(OneOf::Right(provider)) => match provider {
                InlayHintServerCapabilities::Options { .. } => true,
                InlayHintServerCapabilities::RegistrationOptions { .. } => false,
            },
        }
    }

    fn to_lsp(&self, path: &str, context: &RequestContext) -> InlayHintParams {
        InlayHintParams { uri: url_of(path), range: range_to_lsp(&context.range) }
    }
}

impl InlayHints {
    /// Whether the server can say more of a hint that it gave.
    pub open spec fn resolves(capabilities: ServerCapabilities) -> bool {
        match capabilities.inlay_hint_provider {
            Some(OneOf::Right(InlayHintServerCapabilities::Options { resolve_provider })) => {
                resolve_provider == Some(true)
            },
            Some(
                OneOf::Right(InlayHintServerCapabilities::RegistrationOptions { resolve_provider }),
            ) => resolve_provider == Some(true),
            _ => false,
        }
    }

    /// Whether the server can say more of a hint that it gave.
    pub fn can_resolve_inlays(capabilities: &ServerCapabilities) -> (r: bool)
        ensures
            r == Self::resolves(*capabilities),
    {
        let resolve_provider = match &capabilities.inlay_hint_provider {
            Some(OneOf::Right(InlayHintServerCapabilities::Options { resolve_provider })) => {
                *resolve_provider
            },
            Some(
                OneOf::Right(InlayHintServerCapabilities::RegistrationOptions { resolve_provider }),
            ) => *resolve_provider,
            _ => None,
        };
        match resolve_provider {
            Some(resolves) => resolves,
            None => false,
        }
    }
}

/// What is sent of the formatting options of an editor holds all of them.
pub proof fn law_formatting_options_survive(options: FormattingOptions)
    ensures
        <FormattingOptions as vstd::std_specs::convert::FromSpec<LspFormattingOptions>>::from_spec(
            crate::lsp_command::protocol::formatting_options(options.tab_size),
        ) == options,
{
}

}
