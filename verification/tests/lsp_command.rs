use std::ops::Range;

use zed::editor::search::{Bias, CharKind, OffsetAnchor};
use zed::lsp_command::actions::CodeActionOrCommand;
use zed::lsp_command::command::{
    FormattingOptions, GetCodeActions, GetCompletions, GetDefinition, GetDocumentHighlights,
    GetHover, GetImplementation, GetReferences, GetTypeDefinition, InlayHints, LspCommand,
    OnTypeFormatting, PerformRename, PrepareRename, RequestContext, TextDocumentPositionParams,
};
use zed::lsp_command::completions::{
    completion, completions, AdaptedCompletion, CompletionAnswer, CompletionContext,
    CompletionEdit, CompletionItem, CompletionLabel, CompletionResponse,
    CompletionTextEdit, DefaultEditRange, EditRange, ItemDefaults,
};
use zed::lsp_command::highlights::{
    LspDocumentHighlight, HIGHLIGHT_READ, HIGHLIGHT_TEXT, HIGHLIGHT_WRITE,
};
use zed::lsp_command::hints::{
    HintServer, InlayHint, InlayHintKind, InlayHintLabel, LspInlayHint, LspInlayHintLabel,
    LspInlayHintLabelPart, LspTooltip, MarkupContent, PlacedHint, ResolveState, Tooltip,
    HINT_PARAMETER, HINT_TYPE,
};
use zed::lsp_command::hover::{
    HoverBlockKind, HoverContents, LspHover, LspMarkupContent, MarkedString, MarkupKind,
    PrepareRenameResponse,
};
use zed::lsp_command::locations::{
    location_links_from_lsp, GotoDefinitionResponse, LspLocation, LspLocationLink, OpenedBuffer,
    Resolution,
};
use zed::lsp_command::protocol::{
    lsp_formatting_options, CodeActionProviderCapability, DocumentOnTypeFormattingOptions,
    InlayHintServerCapabilities, LspError, OneOf, PlacedRange, PointAnchor, PointUtf16, Position,
    RenameOptions, ServerCapabilities, TypeDefinitionProviderCapability,
};

fn point(row: u32, column: u32) -> PointUtf16 {
    PointUtf16 { row, column }
}

fn position(line: u32, character: u32) -> Position {
    Position { line, character }
}

/// A range on one row of a text with ten columns.
fn placed(row: u32, start: u32, end: u32) -> PlacedRange {
    PlacedRange {
        start: point(row, start),
        end: point(row, end),
        clipped_start: point(row, start.min(10)),
        clipped_end: point(row, end.min(10)),
    }
}

fn inside(row: u32, start: u32, end: u32) -> Range<PointAnchor> {
    PointAnchor { position: point(row, start), bias: Bias::Right }
        ..PointAnchor { position: point(row, end), bias: Bias::Left }
}

fn outside(row: u32, start: u32, end: u32) -> Range<PointAnchor> {
    PointAnchor { position: point(row, start), bias: Bias::Left }
        ..PointAnchor { position: point(row, end), bias: Bias::Right }
}

fn capabilities() -> ServerCapabilities {
    ServerCapabilities {
        rename_provider: None,
        type_definition_provider: None,
        document_highlight_provider: None,
        code_action_provider: None,
        document_on_type_formatting_provider: None,
        inlay_hint_provider: None,
    }
}

fn context() -> RequestContext {
    RequestContext {
        range: point(1, 2)..point(3, 4),
        diagnostics: vec!["unused".to_string()],
        code_action_kinds: Some(vec!["quickfix".to_string()]),
    }
}

fn at(params: &TextDocumentPositionParams) -> (&str, u32, u32) {
    (params.uri.as_str(), params.position.line, params.position.character)
}

#[test]
fn requests_name_files_by_url() {
    let uri = "file:///tmp/a%20b.rs";
    let path = "/tmp/a b.rs";
    let position = point(4, 5);
    assert_eq!(at(&PrepareRename { position }.to_lsp(path, &context())), (uri, 4, 5));
    assert_eq!(at(&GetDefinition { position }.to_lsp(path, &context())), (uri, 4, 5));
    assert_eq!(at(&GetTypeDefinition { position }.to_lsp(path, &context())), (uri, 4, 5));
    assert_eq!(at(&GetImplementation { position }.to_lsp(path, &context())), (uri, 4, 5));
    assert_eq!(at(&GetDocumentHighlights { position }.to_lsp(path, &context())), (uri, 4, 5));
    assert_eq!(at(&GetHover { position }.to_lsp(path, &context())), (uri, 4, 5));
    assert_eq!(at(&GetCompletions { position }.to_lsp(path, &context())), (uri, 4, 5));
    let references = GetReferences { position }.to_lsp(path, &context());
    assert_eq!(at(&references.text_document_position), (uri, 4, 5));
    assert!(references.include_declaration);
    let rename = PerformRename { position, new_name: "n".to_string(), push_to_history: true };
    let rename = rename.to_lsp(path, &context());
    assert_eq!(at(&rename.text_document_position), (uri, 4, 5));
    assert_eq!(rename.new_name, "n");
}

#[test]
fn requests_about_ranges() {
    let hints = InlayHints { range: 0..9 }.to_lsp("/tmp/a.rs", &context());
    assert_eq!(hints.uri, "file:///tmp/a.rs");
    assert_eq!(hints.range, position(1, 2)..position(3, 4));

    let asked = GetCodeActions { range: 0..9, kinds: Some(vec!["refactor".to_string()]) };
    let params = asked.to_lsp("/tmp/a.rs", &context());
    assert_eq!(params.only, Some(vec!["refactor".to_string()]));
    assert_eq!(params.diagnostics, vec!["unused".to_string()]);
    assert_eq!(params.range, position(1, 2)..position(3, 4));
    let open = GetCodeActions { range: 0..9, kinds: None };
    assert_eq!(
        open.to_lsp("/tmp/a.rs", &context()).only,
        Some(vec!["quickfix".to_string()])
    );
}

#[test]
fn formatting_goes_by_the_tab_size() {
    let options = lsp_formatting_options(3);
    assert_eq!(options.tab_size, 3);
    assert!(options.insert_spaces);
    assert_eq!(options.insert_final_newline, Some(true));
    assert_eq!(options.trim_trailing_whitespace, None);
    assert_eq!(options.trim_final_newlines, None);
    assert_eq!(FormattingOptions::from(options), FormattingOptions { tab_size: 3 });

    let params = on_type(";").to_lsp("/tmp/a.rs", &context());
    assert_eq!(params.ch, ";");
    assert_eq!(params.options, lsp_formatting_options(4));
}

fn on_type(trigger: &str) -> OnTypeFormatting {
    OnTypeFormatting {
        position: point(0, 0),
        trigger: trigger.to_string(),
        options: FormattingOptions { tab_size: 4 },
        push_to_history: true,
    }
}

#[test]
fn servers_that_prepare_renames() {
    let command = PrepareRename { position: point(0, 0) };
    let mut server = capabilities();
    assert!(!command.check_capabilities(&server));
    server.rename_provider = Some(OneOf::Left(true));
    assert!(!command.check_capabilities(&server));
    server.rename_provider = Some(OneOf::Right(RenameOptions { prepare_provider: None }));
    assert!(!command.check_capabilities(&server));
    server.rename_provider = Some(OneOf::Right(RenameOptions { prepare_provider: Some(true) }));
    assert!(command.check_capabilities(&server));
}

#[test]
fn servers_that_find_types() {
    let command = GetTypeDefinition { position: point(0, 0) };
    let mut server = capabilities();
    assert!(!command.check_capabilities(&server));
    server.type_definition_provider = Some(TypeDefinitionProviderCapability::Simple(false));
    assert!(!command.check_capabilities(&server));
    server.type_definition_provider = Some(TypeDefinitionProviderCapability::Simple(true));
    assert!(command.check_capabilities(&server));
    server.type_definition_provider = Some(TypeDefinitionProviderCapability::Options);
    assert!(command.check_capabilities(&server));
    assert!(GetDefinition { position: point(0, 0) }.check_capabilities(&capabilities()));
}

#[test]
fn servers_that_highlight() {
    let command = GetDocumentHighlights { position: point(0, 0) };
    let mut server = capabilities();
    assert!(!command.check_capabilities(&server));
    server.document_highlight_provider = Some(false);
    assert!(command.check_capabilities(&server));
}

#[test]
fn servers_that_offer_code_actions() {
    let command = GetCodeActions { range: 0..1, kinds: None };
    let mut server = capabilities();
    assert!(!command.check_capabilities(&server));
    assert!(!GetCodeActions::can_resolve_actions(&server));
    server.code_action_provider = Some(CodeActionProviderCapability::Simple(false));
    assert!(!command.check_capabilities(&server));
    server.code_action_provider = Some(CodeActionProviderCapability::Simple(true));
    assert!(command.check_capabilities(&server));
    assert!(!GetCodeActions::can_resolve_actions(&server));
    server.code_action_provider =
        Some(CodeActionProviderCapability::Options { resolve_provider: Some(true) });
    assert!(command.check_capabilities(&server));
    assert!(GetCodeActions::can_resolve_actions(&server));
}

#[test]
fn servers_that_format_on_type() {
    let mut server = capabilities();
    assert!(!on_type(";").check_capabilities(&server));
    server.document_on_type_formatting_provider = Some(DocumentOnTypeFormattingOptions {
        first_trigger_character: "}".to_string(),
        more_trigger_character: Some(vec![";".to_string(), "\n".to_string()]),
    });
    assert!(on_type("}").check_capabilities(&server));
    assert!(on_type("\n").check_capabilities(&server));
    assert!(!on_type(")").check_capabilities(&server));
    // Every text has nothing in it.
    assert!(on_type("").check_capabilities(&server));
}

#[test]
fn servers_that_hint() {
    let command = InlayHints { range: 0..1 };
    let mut server = capabilities();
    assert!(!command.check_capabilities(&server));
    assert!(!InlayHints::can_resolve_inlays(&server));
    server.inlay_hint_provider = Some(OneOf::Left(true));
    assert!(command.check_capabilities(&server));
    assert!(!InlayHints::can_resolve_inlays(&server));
    let resolve_provider = Some(true);
    server.inlay_hint_provider =
        Some(OneOf::Right(InlayHintServerCapabilities::Options { resolve_provider }));
    assert!(command.check_capabilities(&server));
    assert!(InlayHints::can_resolve_inlays(&server));
    server.inlay_hint_provider =
        Some(OneOf::Right(InlayHintServerCapabilities::RegistrationOptions { resolve_provider }));
    assert!(!command.check_capabilities(&server));
    assert!(InlayHints::can_resolve_inlays(&server));
}

fn location(uri: &str, line: u32) -> LspLocation {
    LspLocation { uri: uri.to_string(), range: position(line, 0)..position(line, 3) }
}

fn next_uri(resolution: &Resolution<&'static str>) -> Option<String> {
    resolution.next().map(|(link, _)| link.target_uri.clone())
}

fn opened(buffer: u64, origin: bool) -> Result<OpenedBuffer, &'static str> {
    let origin = if origin { Some(point(0, 1)..point(0, 2)) } else { None };
    Ok(OpenedBuffer { buffer, origin, target: point(buffer as u32, 0)..point(buffer as u32, 3) })
}

#[test]
fn definitions_are_opened_in_order() {
    let message = GotoDefinitionResponse::Array(vec![location("file:///a", 1), location("file:///b", 2)]);
    let command = GetDefinition { position: point(0, 0) };
    let server: Result<_, &str> = Ok(Some("server"));
    let mut resolution = command.response_from_lsp(Some(message), 1, server).unwrap();
    assert_eq!(next_uri(&resolution), Some("file:///a".to_string()));
    resolution.opened(opened(20, false)).unwrap();
    assert_eq!(next_uri(&resolution), Some("file:///b".to_string()));
    resolution.opened(opened(30, false)).unwrap();
    assert!(resolution.next().is_none());
    let links = resolution.finish();
    assert_eq!(links.len(), 2);
    assert!(links[0].origin.is_none());
    assert_eq!((links[0].target.buffer, links[1].target.buffer), (20, 30));
    assert_eq!(links[1].target.range, inside(30, 0, 3));
}

#[test]
fn links_lead_from_the_buffer() {
    let message = GotoDefinitionResponse::Link(vec![LspLocationLink {
        origin_selection_range: Some(position(0, 1)..position(0, 2)),
        target_uri: "file:///a".to_string(),
        target_range: position(5, 0)..position(9, 0),
        target_selection_range: position(6, 0)..position(6, 3),
    }]);
    let command = GetTypeDefinition { position: point(0, 0) };
    let server: Result<_, &str> = Ok(Some("server"));
    let mut resolution = command.response_from_lsp(Some(message), 1, server).unwrap();
    let (link, name) = resolution.next().unwrap();
    assert_eq!(link.target_range, position(6, 0)..position(6, 3));
    assert_eq!(*name, "server");
    resolution.opened(opened(6, true)).unwrap();
    let links = resolution.finish();
    let origin = links[0].origin.as_ref().unwrap();
    assert_eq!((origin.buffer, origin.range.clone()), (1, inside(0, 1, 2)));
}

#[test]
fn definitions_need_a_server_only_with_an_answer() {
    let none = location_links_from_lsp::<&str, &str>(None, 1, Ok(None)).unwrap();
    assert_eq!(none.finish().len(), 0);
    let scalar = || Some(GotoDefinitionResponse::Scalar(location("file:///a", 1)));
    let command = GetImplementation { position: point(0, 0) };
    let missing = command.response_from_lsp::<&str, &str>(scalar(), 1, Ok(None)).unwrap_err();
    assert_eq!(missing.message(), Some("no language server found for buffer"));
    let failed = location_links_from_lsp::<&str, &str>(scalar(), 1, Err("down")).unwrap_err();
    assert!(matches!(failed, LspError::Failed("down")));
    assert_eq!(failed.message(), None);
}

#[test]
fn a_file_that_does_not_open_ends_it() {
    let message = Some(GotoDefinitionResponse::Scalar(location("file:///a", 1)));
    let mut resolution = location_links_from_lsp::<_, &str>(message, 1, Ok(Some("server"))).unwrap();
    assert!(matches!(resolution.opened(Err("denied")), Err(LspError::Failed("denied"))));
}

#[test]
fn references_need_a_server_in_any_case() {
    let command = || GetReferences { position: point(0, 0) };
    assert!(command().response_from_lsp::<&str, &str>(None, 1, Ok(None)).is_err());
    let none = command().response_from_lsp::<_, &str>(None, 1, Ok(Some("server"))).unwrap();
    assert_eq!(none.finish().len(), 0);
    let mut some = command()
        .response_from_lsp::<_, &str>(Some(vec![location("file:///a", 1)]), 1, Ok(Some("server")))
        .unwrap();
    some.opened(opened(8, false)).unwrap();
    let references = GetReferences::references(some.finish());
    assert_eq!((references.len(), references[0].buffer), (1, 8));
}

fn lsp_highlight(line: u32, start: u32, end: u32, kind: Option<i32>) -> LspDocumentHighlight {
    LspDocumentHighlight { place: placed(line, start, end), kind }
}

#[test]
fn highlights_are_in_order() {
    let command = GetDocumentHighlights { position: point(0, 0) };
    let highlights = command.response_from_lsp(Some(vec![
        lsp_highlight(2, 0, 1, Some(HIGHLIGHT_WRITE)),
        lsp_highlight(1, 4, 5, None),
        lsp_highlight(1, 4, 20, Some(HIGHLIGHT_TEXT)),
        lsp_highlight(1, 2, 3, Some(9)),
    ]));
    let ranges: Vec<_> = highlights.iter().map(|highlight| highlight.range.clone()).collect();
    assert_eq!(
        ranges,
        vec![inside(1, 2, 3), inside(1, 4, 10), inside(1, 4, 5), inside(2, 0, 1)]
    );
    let kinds: Vec<_> = highlights.iter().map(|highlight| highlight.kind).collect();
    assert_eq!(kinds, vec![9, HIGHLIGHT_TEXT, HIGHLIGHT_READ, HIGHLIGHT_WRITE]);
    assert!(GetDocumentHighlights { position: point(0, 0) }.response_from_lsp(None).is_empty());
}

fn hover(contents: HoverContents) -> Vec<(String, String)> {
    let message = LspHover { contents, range: Some(placed(1, 2, 30)) };
    let hover = GetHover { position: point(0, 0) }
        .response_from_lsp(Some(message), Some("rust"))
        .unwrap();
    assert_eq!(hover.range, Some(inside(1, 2, 10)));
    assert_eq!(hover.language, Some("rust"));
    hover.contents.into_iter().map(|block| (block.text, format!("{:?}", block.kind))).collect()
}

#[test]
fn hovers_show_blocks() {
    let pair = |text: &str, kind: &str| (text.to_string(), kind.to_string());
    let code = |value: &str| MarkedString::LanguageString {
        language: "rust".to_string(),
        value: value.to_string(),
    };
    assert_eq!(
        hover(HoverContents::Scalar(MarkedString::String("text".to_string()))),
        vec![pair("text", "Markdown")]
    );
    assert_eq!(hover(HoverContents::Scalar(code(""))), vec![]);
    assert_eq!(
        hover(HoverContents::Array(vec![
            code("fn a()"),
            MarkedString::String(String::new()),
            MarkedString::String("b".to_string()),
        ])),
        vec![pair("fn a()", "Code { language: \"rust\" }"), pair("b", "Markdown")]
    );
    let markup = |kind, value: &str| {
        HoverContents::Markup(LspMarkupContent { kind, value: value.to_string() })
    };
    assert_eq!(hover(markup(MarkupKind::Markdown, "m")), vec![pair("m", "Markdown")]);
    assert_eq!(hover(markup(MarkupKind::PlainText, "")), vec![pair("", "PlainText")]);
    let nothing = GetHover { position: point(0, 0) }.response_from_lsp::<u8>(None, None);
    assert!(nothing.is_none());
}

#[test]
fn renames_are_of_what_is_in_the_text() {
    let prepare = |message| PrepareRename { position: point(0, 0) }.response_from_lsp(message);
    assert_eq!(prepare(None), None);
    assert_eq!(
        prepare(Some(PrepareRenameResponse::Range(placed(1, 2, 5)))),
        Some(inside(1, 2, 5))
    );
    assert_eq!(prepare(Some(PrepareRenameResponse::Range(placed(1, 2, 11)))), None);
    let placeholder = "p".to_string();
    assert_eq!(
        prepare(Some(PrepareRenameResponse::RangeWithPlaceholder {
            range: placed(1, 2, 5),
            placeholder,
        })),
        Some(inside(1, 2, 5))
    );
    let default_behavior = true;
    assert_eq!(prepare(Some(PrepareRenameResponse::DefaultBehavior { default_behavior })), None);
}

fn item(label: &str, text_edit: Option<CompletionTextEdit>) -> CompletionItem {
    CompletionItem {
        label: label.to_string(),
        filter_text: None,
        insert_text: None,
        text_edit,
        documentation: None,
        data: "{}".to_string(),
    }
}

fn edit(start: u32, end: u32, new_text: &str) -> Option<CompletionTextEdit> {
    Some(CompletionTextEdit::Edit { range: placed(1, start, end), new_text: new_text.to_string() })
}

fn completion_context(clipped_position: PointUtf16) -> CompletionContext {
    CompletionContext {
        clipped_position,
        offset: 42,
        word: 40..44,
        word_kind: Some(CharKind::Word),
    }
}

fn complete(
    response: CompletionResponse,
    context: CompletionContext,
) -> Vec<(String, Option<Range<PointAnchor>>)> {
    GetCompletions { position: point(1, 4) }
        .response_from_lsp::<&str>(Some(response), Ok(true), &context)
        .unwrap()
        .into_iter()
        .map(|edit| match edit.old_range {
            EditRange::Points(range) => (edit.new_text, Some(range)),
            EditRange::Offsets(_) => (edit.new_text, None),
        })
        .collect()
}

#[test]
fn completions_that_name_ranges() {
    let insert_and_replace = |insert| {
        Some(CompletionTextEdit::InsertAndReplace {
            new_text: "both".to_string(),
            insert,
            replace: placed(1, 0, 99),
        })
    };
    let response = CompletionResponse::Array(vec![
        item("a", edit(2, 4, "alpha")),
        item("b", edit(2, 14, "beyond")),
        item("c", insert_and_replace(placed(1, 3, 4))),
        item("d", insert_and_replace(placed(1, 3, 40))),
    ]);
    // Where the request was about does not matter to completions with a range.
    assert_eq!(
        complete(response, completion_context(point(1, 3))),
        vec![
            ("alpha".to_string(), Some(outside(1, 2, 4))),
            ("both".to_string(), Some(outside(1, 3, 4))),
        ]
    );
}

#[test]
fn completions_without_ranges() {
    let items = || {
        let mut inserted = item("label", None);
        inserted.insert_text = Some("inserted".to_string());
        vec![inserted, item("label", None)]
    };
    let texts = |range: Option<Range<PointAnchor>>| {
        vec![("inserted".to_string(), range.clone()), ("label".to_string(), range)]
    };
    let array = complete(CompletionResponse::Array(items()), completion_context(point(1, 4)));
    assert_eq!(array, texts(None));
    let list = |edit_range| CompletionResponse::List {
        items: items(),
        item_defaults: Some(ItemDefaults { edit_range }),
    };
    let named = DefaultEditRange::Range(placed(1, 1, 4));
    assert_eq!(
        complete(list(Some(named)), completion_context(point(1, 4))),
        texts(Some(outside(1, 1, 4)))
    );
    let beyond = DefaultEditRange::Range(placed(1, 1, 14));
    assert_eq!(complete(list(Some(beyond)), completion_context(point(1, 4))), vec![]);
    let pair = DefaultEditRange::InsertAndReplace {
        insert: placed(1, 1, 4),
        replace: placed(1, 1, 5),
    };
    assert_eq!(complete(list(Some(pair)), completion_context(point(1, 4))), texts(None));
    // The request was about a place that the text does not have.
    assert_eq!(
        complete(CompletionResponse::Array(items()), completion_context(point(1, 3))),
        vec![]
    );
}

#[test]
fn completions_replace_the_word_at_the_cursor() {
    let token = |word_kind| {
        let mut context = completion_context(point(1, 4));
        context.word_kind = word_kind;
        let edits = GetCompletions { position: point(1, 4) }
            .response_from_lsp::<&str>(
                Some(CompletionResponse::Array(vec![item("a", None)])),
                Ok(true),
                &context,
            )
            .unwrap();
        match &edits[0].old_range {
            EditRange::Offsets(range) => range.clone(),
            other => panic!("not of the text: {:?}", other),
        }
    };
    let anchor = |offset, bias| OffsetAnchor { excerpt: None, offset, bias };
    assert_eq!(token(Some(CharKind::Word)), anchor(40, Bias::Left)..anchor(44, Bias::Right));
    assert_eq!(token(None), anchor(42, Bias::Left)..anchor(42, Bias::Right));
}

#[test]
fn completions_need_a_known_server() {
    let command = GetCompletions { position: point(1, 4) };
    let context = completion_context(point(1, 4));
    let unknown = command.response_from_lsp::<&str>(None, Ok(false), &context).unwrap_err();
    assert_eq!(unknown.message(), Some("no such language server"));
    let failed = command.response_from_lsp(None, Err("down"), &context).unwrap_err();
    assert!(matches!(failed, LspError::Failed("down")));
    assert!(command.response_from_lsp::<&str>(None, Ok(true), &context).unwrap().is_empty());
}

#[test]
fn completions_are_labelled() {
    let range = || EditRange::Points(outside(1, 1, 4));
    let mut plain = item("label", None);
    plain.filter_text = Some("filter".to_string());
    let shown = completion::<u8, &str>(range(), "x\ny".to_string(), plain, None, Some("doc"), 5);
    assert_eq!((shown.new_text.as_str(), shown.server_id), ("x\ny", 5));
    assert_eq!(shown.documentation, None);
    assert!(matches!(
        shown.label,
        CompletionLabel::Plain { text, filter_text }
            if text == "label" && filter_text.as_deref() == Some("filter")
    ));
    let mut documented = item("label", None);
    documented.documentation = Some("doc".to_string());
    let shown = completion(range(), String::new(), documented, Some(7), Some("doc"), 5);
    assert_eq!(shown.documentation, Some("doc"));
    assert!(matches!(shown.label, CompletionLabel::Styled(7)));
    assert_eq!(shown.lsp_completion.label, "label");
}

#[test]
fn completions_are_finished_in_order() {
    let edit = |label: &str, start| CompletionEdit {
        old_range: EditRange::Points(outside(1, start, 9)),
        new_text: "a\r\nb".to_string(),
        lsp_completion: item(label, None),
    };
    let mut documented = item("adapted", None);
    documented.documentation = Some("doc".to_string());
    let answers = vec![
        CompletionAnswer {
            normalized_text: "first".to_string(),
            adapted: Some(AdaptedCompletion { lsp_completion: documented, label: Some(7) }),
            documentation: Some("shown"),
        },
        CompletionAnswer {
            normalized_text: "second".to_string(),
            adapted: None,
            documentation: None,
        },
    ];
    let finished = completions(vec![edit("one", 1), edit("two", 2)], answers, 5);
    assert_eq!(finished.len(), 2);
    assert!(matches!(&finished[0].old_range, EditRange::Points(range) if *range == outside(1, 1, 9)));
    assert_eq!(finished[0].new_text, "first");
    assert!(matches!(finished[0].label, CompletionLabel::Styled(7)));
    assert_eq!(finished[0].documentation, Some("shown"));
    assert_eq!(finished[0].lsp_completion.label, "adapted");
    assert!(matches!(&finished[1].old_range, EditRange::Points(range) if *range == outside(1, 2, 9)));
    assert_eq!(finished[1].new_text, "second");
    assert!(matches!(&finished[1].label, CompletionLabel::Plain { text, .. } if text == "two"));
    assert_eq!(finished[1].documentation, None);
    assert_eq!(finished[1].server_id, 5);
}

#[test]
fn code_actions_without_commands() {
    let command = GetCodeActions { range: 3..7, kinds: None };
    let actions = command.response_from_lsp(
        Some(vec![
            CodeActionOrCommand::CodeAction("fix"),
            CodeActionOrCommand::Command(1),
            CodeActionOrCommand::CodeAction("inline"),
        ]),
        9,
    );
    let actions: Vec<_> = actions
        .into_iter()
        .map(|action| (action.lsp_action, action.range, action.server_id))
        .collect();
    assert_eq!(actions, vec![("fix", 3..7, 9), ("inline", 3..7, 9)]);
    let command = GetCodeActions { range: 3..7, kinds: None };
    assert!(command.response_from_lsp::<u8, u8>(None, 9).is_empty());
}

#[test]
fn edits_are_applied_for_a_server() {
    let rename = |push_to_history| PerformRename {
        position: point(0, 0),
        new_name: "n".to_string(),
        push_to_history,
    };
    let none = rename(true).response_from_lsp::<&str, &str, &str>(None, Ok(None));
    assert!(none.unwrap().is_none());
    let edits = rename(false).response_from_lsp::<_, _, &str>(Some("edit"), Ok(Some("server")));
    let edits = edits.unwrap().unwrap();
    assert_eq!((edits.edits, edits.push_to_history, edits.server), ("edit", false, "server"));
    let missing = rename(true).response_from_lsp::<_, &str, &str>(Some("edit"), Ok(None));
    assert!(matches!(missing, Err(LspError::NoLanguageServerForBuffer)));

    let edits = on_type(";").response_from_lsp::<_, _, &str>(Some("edit"), Ok(Some("server")));
    assert!(edits.unwrap().unwrap().push_to_history);
    let failed = on_type(";").response_from_lsp::<_, &str, _>(Some("edit"), Err("down"));
    assert!(matches!(failed, Err(LspError::Failed("down"))));
}

fn markdown(value: &str) -> LspTooltip {
    LspTooltip::MarkupContent(LspMarkupContent {
        kind: MarkupKind::Markdown,
        value: value.to_string(),
    })
}

fn lsp_hint(kind: Option<i32>) -> LspInlayHint {
    LspInlayHint {
        position: position(1, 20),
        label: LspInlayHintLabel::LabelParts(vec![
            LspInlayHintLabelPart {
                value: "Vec".to_string(),
                tooltip: Some(markdown("a list")),
                location: Some(location("file:///vec.rs", 3)),
                command: Some("open".to_string()),
            },
            LspInlayHintLabelPart {
                value: "<u8>".to_string(),
                tooltip: None,
                location: None,
                command: None,
            },
        ]),
        kind,
        text_edits: Some("insert".to_string()),
        tooltip: Some(LspTooltip::String("type".to_string())),
        padding_left: Some(true),
        padding_right: None,
        data: Some("17".to_string()),
    }
}

fn hint_server(name: &str, resolve_provider: Option<bool>) -> HintServer {
    HintServer {
        adapter_name: name.to_string(),
        server_id: 6,
        capabilities: ServerCapabilities {
            inlay_hint_provider: Some(OneOf::Right(InlayHintServerCapabilities::Options {
                resolve_provider,
            })),
            ..capabilities()
        },
    }
}

fn hints(server: HintServer, kind: Option<i32>) -> Vec<InlayHint> {
    let message = vec![PlacedHint { lsp_hint: lsp_hint(kind), clipped_position: point(1, 10) }];
    InlayHints { range: 0..9 }
        .response_from_lsp::<&str>(Some(message), Ok(Some(server)), 6)
        .unwrap()
}

#[test]
fn hints_are_placed_and_labelled() {
    let hints = hints(hint_server("rust-analyzer", Some(true)), Some(HINT_TYPE));
    let hint = &hints[0];
    assert_eq!(hint.kind, Some(InlayHintKind::Type));
    assert_eq!(hint.position, PointAnchor { position: point(1, 10), bias: Bias::Right });
    assert!(hint.padding_left);
    assert!(!hint.padding_right);
    assert!(matches!(&hint.tooltip, Some(Tooltip::String(text)) if text == "type"));
    assert!(matches!(
        &hint.resolve_state,
        ResolveState::CanResolve(6, Some(data)) if data == "17"
    ));
    let InlayHintLabel::LabelParts(parts) = &hint.label else {
        panic!("not in parts")
    };
    assert_eq!(parts.len(), 2);
    let (server, place) = parts[0].location.as_ref().unwrap();
    assert_eq!((*server, place.uri.as_str()), (6, "file:///vec.rs"));
    assert!(matches!(
        &parts[0].tooltip,
        Some(Tooltip::MarkupContent(MarkupContent { kind: HoverBlockKind::Markdown, value }))
            if value == "a list"
    ));
}

#[test]
fn hints_for_parameters_stay_before_what_is_typed() {
    let hint = &hints(hint_server("other", None), Some(HINT_PARAMETER))[0];
    assert_eq!(hint.position.bias, Bias::Left);
    assert_eq!(hint.kind, Some(InlayHintKind::Parameter));
    assert!(matches!(hint.resolve_state, ResolveState::Resolved));
    let unknown = &hints(hint_server("other", None), Some(3))[0];
    assert_eq!((unknown.kind, unknown.position.bias), (None, Bias::Right));
}

#[test]
fn padding_of_types_is_dropped_for_typescript() {
    let typescript = || hint_server("typescript-language-server", None);
    assert!(!hints(typescript(), Some(HINT_TYPE))[0].padding_left);
    assert!(hints(typescript(), Some(HINT_PARAMETER))[0].padding_left);
    assert!(hints(typescript(), None)[0].padding_left);
}

#[test]
fn hints_need_a_server() {
    let command = || InlayHints { range: 0..9 };
    let missing = command().response_from_lsp::<&str>(None, Ok(None), 6).unwrap_err();
    assert!(matches!(missing, LspError::NoLanguageServerForBuffer));
    let failed = command().response_from_lsp(None, Err("down"), 6).unwrap_err();
    assert!(matches!(failed, LspError::Failed("down")));
    let server = hint_server("other", None);
    assert!(command().response_from_lsp::<&str>(None, Ok(Some(server)), 6).unwrap().is_empty());
}

#[test]
fn servers_get_their_hints_back() {
    let hint = hints(hint_server("other", Some(true)), Some(HINT_TYPE)).remove(0);
    let sent = InlayHints::project_to_lsp_hint(hint, point(2, 8));
    let mut expected = lsp_hint(Some(HINT_TYPE));
    expected.position = position(2, 8);
    expected.text_edits = None;
    expected.padding_right = Some(false);
    if let LspInlayHintLabel::LabelParts(parts) = &mut expected.label {
        parts[0].command = None;
    }
    assert_eq!(format!("{:?}", sent), format!("{:?}", expected));
}

#[test]
fn hints_come_back_from_servers() {
    let hint = || InlayHint {
        position: PointAnchor { position: point(1, 1), bias: Bias::Left },
        label: InlayHintLabel::String("name:".to_string()),
        kind: Some(InlayHintKind::Parameter),
        padding_left: false,
        padding_right: true,
        tooltip: Some(Tooltip::MarkupContent(MarkupContent {
            kind: HoverBlockKind::PlainText,
            value: "plain".to_string(),
        })),
        resolve_state: ResolveState::Resolved,
    };
    let sent = InlayHints::project_to_lsp_hint(hint(), point(1, 1));
    assert_eq!(sent.data, None);
    let back =
        InlayHints::lsp_to_project_hint(sent, point(1, 1), 6, ResolveState::Resolved, false);
    assert_eq!(format!("{:?}", back), format!("{:?}", hint()));
}

#[test]
fn code_is_no_tooltip_of_the_protocol() {
    let hint = InlayHint {
        position: PointAnchor { position: point(1, 1), bias: Bias::Right },
        label: InlayHintLabel::String("u8".to_string()),
        kind: None,
        padding_left: false,
        padding_right: false,
        tooltip: Some(Tooltip::MarkupContent(MarkupContent {
            kind: HoverBlockKind::Code { language: "rust".to_string() },
            value: "u8".to_string(),
        })),
        resolve_state: ResolveState::Resolving,
    };
    let sent = InlayHints::project_to_lsp_hint(hint, point(1, 1));
    assert!(sent.tooltip.is_none());
    assert_eq!(sent.kind, None);
    assert_eq!(sent.data, None);
}
