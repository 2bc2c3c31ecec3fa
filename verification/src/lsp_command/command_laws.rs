//! Who is asked, and what is sent, whatever the request.
use vstd::prelude::*;

use crate::lsp_command::command::{
    CodeActionParams, DocumentOnTypeFormattingParams, GetCodeActions,
    GetCompletions, GetDefinition, GetDocumentHighlights, GetHover, GetImplementation,
    GetReferences, GetTypeDefinition, InlayHintParams, InlayHints, LspCommand, OnTypeFormatting,
    PerformRename, PrepareRename, ReferenceParams, RenameParams, RequestContext,
    TextDocumentPositionParams,
};
use crate::lsp_command::protocol::{
    CodeActionProviderCapability, InlayHintServerCapabilities, LspError, LspFormattingOptions,
    OneOf, PointUtf16, RenameOptions, ServerCapabilities, TypeDefinitionProviderCapability,
};

verus! {

/// Where things are defined, implemented and referred to, what there is to say of them, what can
/// be typed, and other names are asked of every server.
pub proof fn law_some_things_are_asked_of_every_server(
    capabilities: ServerCapabilities,
    rename: PerformRename,
    definition: GetDefinition,
    implementation: GetImplementation,
    references: GetReferences,
    hover: GetHover,
    completions: GetCompletions,
)
    ensures
        rename.is_offered(capabilities),
        definition.is_offered(capabilities),
        implementation.is_offered(capabilities),
        references.is_offered(capabilities),
        hover.is_offered(capabilities),
        completions.is_offered(capabilities),
{
}

/// What would be renamed is asked only of a server that says that it prepares renaming.
pub proof fn law_who_prepares_renaming(command: PrepareRename, capabilities: ServerCapabilities)
    ensures
        match capabilities.rename_provider {
            Some(OneOf::Right(RenameOptions { prepare_provider: Some(prepares) })) => {
                command.is_offered(capabilities) == prepares
            },
            Some(OneOf::Right(RenameOptions { prepare_provider: None })) => {
                !command.is_offered(capabilities)
            },
            Some(OneOf::Left(_)) => !command.is_offered(capabilities),
            None => !command.is_offered(capabilities),
        },
{
}

/// Where types are defined, and what can be done with the code, is asked of a server that does not
/// say that it cannot tell; what belongs together of one that says anything of it.
pub proof fn law_who_finds_types_actions_and_highlights(
    types: GetTypeDefinition,
    actions: GetCodeActions,
    highlights: GetDocumentHighlights,
    capabilities: ServerCapabilities,
)
    ensures
        match capabilities.type_definition_provider {
            Some(TypeDefinitionProviderCapability::Simple(finds)) => {
                types.is_offered(capabilities) == finds
            },
            Some(TypeDefinitionProviderCapability::Options) => types.is_offered(capabilities),
            None => !types.is_offered(capabilities),
        },
        match capabilities.code_action_provider {
            Some(CodeActionProviderCapability::Simple(offers)) => {
                &&& actions.is_offered(capabilities) == offers
                &&& !GetCodeActions::resolves(capabilities)
            },
            Some(CodeActionProviderCapability::Options { resolve_provider }) => {
                &&& actions.is_offered(capabilities)
                &&& GetCodeActions::resolves(capabilities) == match resolve_provider {
                    Some(resolves) => resolves,
                    None => false,
                }
            },
            None => !actions.is_offered(capabilities) && !GetCodeActions::resolves(capabilities),
        },
        match capabilities.document_highlight_provider {
            Some(_) => highlights.is_offered(capabilities),
            None => !highlights.is_offered(capabilities),
        },
{
}

/// Hints are asked of a server that says that it gives them, or how, but not where it says that
/// it does so for registered documents only. More is to be said of them where it says so.
pub proof fn law_who_gives_hints(hints: InlayHints, capabilities: ServerCapabilities)
    ensures
        match capabilities.inlay_hint_provider {
            Some(OneOf::Left(gives)) => {
                &&& hints.is_offered(capabilities) == gives
                &&& !InlayHints::resolves(capabilities)
            },
            Some(OneOf::Right(InlayHintServerCapabilities::Options { resolve_provider })) => {
                &&& hints.is_offered(capabilities)
                &&& InlayHints::resolves(capabilities) == match resolve_provider {
                    Some(resolves) => resolves,
                    None => false,
                }
            },
            Some(
                OneOf::Right(InlayHintServerCapabilities::RegistrationOptions { resolve_provider }),
            ) => {
                &&& !hints.is_offered(capabilities)
                &&& InlayHints::resolves(capabilities) == match resolve_provider {
                    Some(resolves) => resolves,
                    None => false,
                }
            },
            None => !hints.is_offered(capabilities) && !InlayHints::resolves(capabilities),
        },
{
}

/// Whether a text has another somewhere in it.
pub open spec fn has_within(text: Seq<char>, part: Seq<char>) -> bool {
    exists|at: int|
        0 <= at <= text.len() - part.len() && #[trigger] text.subrange(at, at + part.len()) == part
}

proof fn lemma_occurs_is_within(text: Seq<char>, part: Seq<char>)
    ensures
        crate::text::occurs(text, part) <==> has_within(text, part),
{
    if crate::text::occurs(text, part) {
        let at = choose|at: int| crate::text::occurs_at(text, part, at);
        assert(text.subrange(at, at + part.len()) == part);
    }
    if has_within(text, part) {
        let at = choose|at: int|
            0 <= at <= text.len() - part.len() && #[trigger] text.subrange(at, at + part.len())
                == part;
        assert(crate::text::occurs_at(text, part, at));
    }
}

/// A server is told of what was typed exactly where what was typed is somewhere in one of the
/// texts that it names for that, the first or one of the others.
pub proof fn law_who_formats_what_is_typed(
    command: OnTypeFormatting,
    capabilities: ServerCapabilities,
)
    ensures
        command.is_offered(capabilities) <==> match capabilities.document_on_type_formatting_provider {
            Some(options) => {
                ||| has_within(options.first_trigger_character@, command.trigger@)
                ||| match options.more_trigger_character {
                    Some(more) => exists|i: int|
                        0 <= i < more@.len() && has_within(#[trigger] more@[i]@, command.trigger@),
                    None => false,
                }
            },
            None => false,
        },
{
    if let Some(options) = capabilities.document_on_type_formatting_provider {
        lemma_occurs_is_within(options.first_trigger_character@, command.trigger@);
        if let Some(more) = options.more_trigger_character {
            assert forall|i: int| #![trigger more@[i]] 0 <= i < more@.len() implies (
            crate::text::occurs(more@[i]@, command.trigger@) <==> has_within(
                more@[i]@,
                command.trigger@,
            )) by {
                lemma_occurs_is_within(more@[i]@, command.trigger@);
            }
            if exists|i: int|
                0 <= i < more@.len() && has_within(#[trigger] more@[i]@, command.trigger@) {
                let i = choose|i: int|
                    0 <= i < more@.len() && has_within(#[trigger] more@[i]@, command.trigger@);
                assert(crate::text::occurs(
                    options.more_trigger_character->0@[i]@,
                    command.trigger@,
                ));
            }
        }
    }
}

/// The place to rename at is sent as it is, in the file that it is in.
pub proof fn law_prepare_rename_sends_its_place(
    command: PrepareRename,
    path: Seq<char>,
    context: RequestContext,
    params: TextDocumentPositionParams,
)
    requires
        command.is_sent(path, context, params),
    ensures
        crate::lsp_command::protocol::url_of_file(path) == Some(params.uri@),
        params.position.line == command.position.row,
        params.position.character == command.position.column,
{
}

/// The place whose definition is asked for is sent as it is, in the file that it is in.
pub proof fn law_get_definition_sends_its_place(
    command: GetDefinition,
    path: Seq<char>,
    context: RequestContext,
    params: TextDocumentPositionParams,
)
    requires
        command.is_sent(path, context, params),
    ensures
        crate::lsp_command::protocol::url_of_file(path) == Some(params.uri@),
        params.position.line == command.position.row,
        params.position.character == command.position.column,
{
}

/// The place whose type is asked for is sent as it is, in the file that it is in.
pub proof fn law_get_type_definition_sends_its_place(
    command: GetTypeDefinition,
    path: Seq<char>,
    context: RequestContext,
    params: TextDocumentPositionParams,
)
    requires
        command.is_sent(path, context, params),
    ensures
        crate::lsp_command::protocol::url_of_file(path) == Some(params.uri@),
        params.position.line == command.position.row,
        params.position.character == command.position.column,
{
}

/// The place whose implementation is asked for is sent as it is, in the file that it is in.
pub proof fn law_get_implementation_sends_its_place(
    command: GetImplementation,
    path: Seq<char>,
    context: RequestContext,
    params: TextDocumentPositionParams,
)
    requires
        command.is_sent(path, context, params),
    ensures
        crate::lsp_command::protocol::url_of_file(path) == Some(params.uri@),
        params.position.line == command.position.row,
        params.position.character == command.position.column,
{
}

/// The place whose like is to be highlighted is sent as it is, in the file that it is in.
pub proof fn law_get_document_highlights_sends_its_place(
    command: GetDocumentHighlights,
    path: Seq<char>,
    context: RequestContext,
    params: TextDocumentPositionParams,
)
    requires
        command.is_sent(path, context, params),
    ensures
        crate::lsp_command::protocol::url_of_file(path) == Some(params.uri@),
        params.position.line == command.position.row,
        params.position.character == command.position.column,
{
}

/// The place that is pointed at is sent as it is, in the file that it is in.
pub proof fn law_get_hover_sends_its_place(
    command: GetHover,
    path: Seq<char>,
    context: RequestContext,
    params: TextDocumentPositionParams,
)
    requires
        command.is_sent(path, context, params),
    ensures
        crate::lsp_command::protocol::url_of_file(path) == Some(params.uri@),
        params.position.line == command.position.row,
        params.position.character == command.position.column,
{
}

/// The place that is typed at is sent as it is, in the file that it is in.
pub proof fn law_get_completions_sends_its_place(
    command: GetCompletions,
    path: Seq<char>,
    context: RequestContext,
    params: TextDocumentPositionParams,
)
    requires
        command.is_sent(path, context, params),
    ensures
        crate::lsp_command::protocol::url_of_file(path) == Some(params.uri@),
        params.position.line == command.position.row,
        params.position.character == command.position.column,
{
}

/// What is to have another name is sent with that name.
pub proof fn law_rename_sends_all_of_it(
    command: PerformRename,
    path: Seq<char>,
    context: RequestContext,
    params: RenameParams,
)
    requires
        command.is_sent(path, context, params),
    ensures
        crate::lsp_command::protocol::url_of_file(path) == Some(
            params.text_document_position.uri@,
        ),
        params.text_document_position.position.line == command.position.row,
        params.text_document_position.position.character == command.position.column,
        params.new_name == command.new_name,
{
}

/// What is referred to is sent, and its declaration is asked for too.
pub proof fn law_references_sends_all_of_it(
    command: GetReferences,
    path: Seq<char>,
    context: RequestContext,
    params: ReferenceParams,
)
    requires
        command.is_sent(path, context, params),
    ensures
        crate::lsp_command::protocol::url_of_file(path) == Some(
            params.text_document_position.uri@,
        ),
        params.text_document_position.position.line == command.position.row,
        params.text_document_position.position.character == command.position.column,
        params.include_declaration,
{
}

/// What was typed is sent, and where; tabs are as wide as the editor has them, the text is indented
/// with spaces and ends with a newline.
pub proof fn law_on_type_formatting_sends_all_of_it(
    command: OnTypeFormatting,
    path: Seq<char>,
    context: RequestContext,
    params: DocumentOnTypeFormattingParams,
)
    requires
        command.is_sent(path, context, params),
    ensures
        crate::lsp_command::protocol::url_of_file(path) == Some(
            params.text_document_position.uri@,
        ),
        params.text_document_position.position.line == command.position.row,
        params.text_document_position.position.character == command.position.column,
        params.ch == command.trigger,
        params.options.tab_size == command.options.tab_size,
        params.options.insert_spaces,
        params.options.insert_final_newline == Some(true),
        params.options.trim_trailing_whitespace is None,
        params.options.trim_final_newlines is None,
{
}

/// What can be done is asked for the whole range, with all that is wrong in it; of the kinds that
/// the request names, or else of those that the server does.
pub proof fn law_code_actions_are_asked_for_the_range(
    command: GetCodeActions,
    path: Seq<char>,
    context: RequestContext,
    params: CodeActionParams,
)
    requires
        command.is_sent(path, context, params),
    ensures
        crate::lsp_command::protocol::url_of_file(path) == Some(params.uri@),
        params.range.start.line == context.range.start.row,
        params.range.start.character == context.range.start.column,
        params.range.end.line == context.range.end.row,
        params.range.end.character == context.range.end.column,
        params.diagnostics@ == context.diagnostics@,
        command.kinds matches Some(kinds) ==> params.only is Some && params.only->0@ == kinds@,
        command.kinds is None ==> match context.code_action_kinds {
            Some(kinds) => params.only is Some && params.only->0@ == kinds@,
            None => params.only is None,
        },
{
}

/// Hints are asked for the whole range.
pub proof fn law_hints_are_asked_for_the_range(
    command: InlayHints,
    path: Seq<char>,
    context: RequestContext,
    params: InlayHintParams,
)
    requires
        command.is_sent(path, context, params),
    ensures
        crate::lsp_command::protocol::url_of_file(path) == Some(params.uri@),
        params.range.start.line == context.range.start.row,
        params.range.start.character == context.range.start.column,
        params.range.end.line == context.range.end.row,
        params.range.end.character == context.range.end.column,
{
}

/// Places and ranges keep their rows and columns, and tabs their width, in the words of the
/// protocol; and what is sent of the way to format indents with spaces and ends with a newline.
pub proof fn law_words_of_the_protocol(
    start: PointUtf16,
    end: PointUtf16,
    tab_size: u32,
)
    ensures
        crate::lsp_command::protocol::position_of(start).line == start.row,
        crate::lsp_command::protocol::position_of(start).character == start.column,
        crate::lsp_command::protocol::range_of(std::ops::Range { start, end }).start
            == crate::lsp_command::protocol::position_of(start),
        crate::lsp_command::protocol::range_of(std::ops::Range { start, end }).end
            == crate::lsp_command::protocol::position_of(end),
        crate::lsp_command::protocol::formatting_options(tab_size) == (LspFormattingOptions {
            tab_size,
            insert_spaces: true,
            trim_trailing_whitespace: None,
            insert_final_newline: Some(true),
            trim_final_newlines: None,
        }),
{
}

/// What is said where no server, or no such server, is there; a failure of the project speaks for
/// itself.
pub proof fn law_errors_of_servers_in_words<E>(error: LspError<E>)
    ensures
        error is NoLanguageServerForBuffer ==> error.explanation() == Some(
            "no language server found for buffer"@,
        ),
        error is NoSuchLanguageServer ==> error.explanation() == Some("no such language server"@),
        error is Failed ==> error.explanation() is None,
{
}

}
