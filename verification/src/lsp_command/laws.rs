//! What the answers of language servers come to, whatever they hold.
use std::ops::Range;
use vstd::prelude::*;

use crate::editor::item::BufferId;
use crate::editor::search::{Anchor, Bias, CharKind, OffsetAnchor};
use crate::lsp_command::actions::{CodeAction, CodeActionOrCommand};
use crate::lsp_command::completions::{
    AdaptedCompletion, Completion, CompletionAnswer, CompletionContext, CompletionEdit,
    CompletionItem, CompletionLabel, CompletionResponse, CompletionTextEdit, DefaultEditRange,
    EditRange, ItemDefaults,
};
use crate::lsp_command::highlights::{DocumentHighlight, LspDocumentHighlight};
use crate::lsp_command::hints::{
    HintServer, InlayHint, InlayHintKind, InlayHintLabel, LspInlayHint, LspInlayHintLabel,
    LspTooltip, PlacedHint, ResolveState, Tooltip,
};
use crate::lsp_command::hover::{
    HoverBlockKind, HoverContents, MarkedString, MarkupKind, PrepareRenameResponse,
};
use crate::lsp_command::locations::{
    GotoDefinitionResponse, LspLocation, OpenedBuffer, Resolution, ResolutionView,
};
use crate::lsp_command::protocol::{
    InlayHintServerCapabilities, LanguageServerId, LspError, OneOf, PlacedRange, PointAnchor,
    PointUtf16,
};

verus! {

/// With a server for the buffer, an answer is waited on for exactly as many files as it names
/// places, in the order in which it names them. A place alone is led to from nowhere; of a link
/// it is what is selected at its target that is looked for, and what leads there is kept.
pub proof fn law_answer_is_resolved_place_by_place<S, E>(
    message: GotoDefinitionResponse,
    buffer: BufferId,
    server: S,
    r: Result<Resolution<S>, LspError<E>>,
)
    requires
        crate::lsp_command::locations::is_outcome(
            r,
            crate::lsp_command::locations::goto_outcome(
                Some(message),
                buffer,
                Ok::<Option<S>, E>(Some(server)),
            ),
        ),
    ensures
        r is Ok,
        r->Ok_0@.buffer == buffer,
        r->Ok_0@.server == Some(server),
        r->Ok_0@.resolved.len() == 0,
        match message {
            GotoDefinitionResponse::Scalar(location) => {
                &&& r->Ok_0@.links.len() == 1
                &&& r->Ok_0@.links[0].origin_range is None
                &&& r->Ok_0@.links[0].target_uri == location.uri
                &&& r->Ok_0@.links[0].target_range == location.range
            },
            GotoDefinitionResponse::Array(locations) => {
                &&& r->Ok_0@.links.len() == locations@.len()
                &&& forall|i: int|
                    #![trigger r->Ok_0@.links[i]]
                    #![trigger locations@[i]]
                    0 <= i < locations@.len() ==> {
                        &&& r->Ok_0@.links[i].origin_range is None
                        &&& r->Ok_0@.links[i].target_uri == locations@[i].uri
                        &&& r->Ok_0@.links[i].target_range == locations@[i].range
                    }
            },
            GotoDefinitionResponse::Link(links) => {
                &&& r->Ok_0@.links.len() == links@.len()
                &&& forall|i: int|
                    #![trigger r->Ok_0@.links[i]]
                    #![trigger links@[i]]
                    0 <= i < links@.len() ==> {
                        &&& r->Ok_0@.links[i].origin_range == links@[i].origin_selection_range
                        &&& r->Ok_0@.links[i].target_uri == links@[i].target_uri
                        &&& r->Ok_0@.links[i].target_range == links@[i].target_selection_range
                    }
            },
        },
{
}

/// An answer is of no use without a server for the buffer; and no answer leads nowhere, whatever
/// the project says of servers.
pub proof fn law_answer_needs_a_server<S, E>(
    message: Option<GotoDefinitionResponse>,
    buffer: BufferId,
    server: Result<Option<S>, E>,
    r: Result<Resolution<S>, LspError<E>>,
)
    requires
        crate::lsp_command::locations::is_outcome(
            r,
            crate::lsp_command::locations::goto_outcome(message, buffer, server),
        ),
    ensures
        message is None ==> r is Ok && r->Ok_0@.links.len() == 0 && r->Ok_0@.resolved.len() == 0,
        message is Some ==> match server {
            Ok(Some(_)) => r is Ok,
            Ok(None) => r is Err && r->Err_0 == LspError::<E>::NoLanguageServerForBuffer,
            Err(error) => r is Err && r->Err_0 == LspError::<E>::Failed(error),
        },
{
}

/// References are waited on for exactly as many files as the server names places, in order; and
/// there must be a server for the buffer, with or without an answer.
pub proof fn law_references_are_resolved_place_by_place<S, E>(
    locations: Option<Vec<LspLocation>>,
    buffer: BufferId,
    server: Result<Option<S>, E>,
    r: Result<Resolution<S>, LspError<E>>,
)
    requires
        crate::lsp_command::locations::is_outcome(
            r,
            crate::lsp_command::locations::references_outcome(locations, buffer, server),
        ),
    ensures
        server matches Ok(None) ==> r is Err && r->Err_0
            == LspError::<E>::NoLanguageServerForBuffer,
        server matches Err(error) ==> r is Err && r->Err_0 == LspError::<E>::Failed(error),
        server matches Ok(Some(server)) ==> {
            &&& r is Ok
            &&& r->Ok_0@.buffer == buffer
            &&& r->Ok_0@.server == Some(server)
            &&& r->Ok_0@.resolved.len() == 0
            &&& match locations {
                Some(locations) => {
                    &&& r->Ok_0@.links.len() == locations@.len()
                    &&& forall|i: int|
                        #![trigger r->Ok_0@.links[i]]
                        #![trigger locations@[i]]
                        0 <= i < locations@.len() ==> {
                            &&& r->Ok_0@.links[i].origin_range is None
                            &&& r->Ok_0@.links[i].target_uri == locations@[i].uri
                            &&& r->Ok_0@.links[i].target_range == locations@[i].range
                        }
                },
                None => r->Ok_0@.links.len() == 0,
            }
        },
{
}

/// A file that is opened makes one place known, after those that are: in that file, from the
/// buffer that the request was about, as a range that does not grow at its ends. What is waited
/// for stays the same.
pub proof fn law_opened_file_makes_one_place_known<S>(
    resolution: ResolutionView<S>,
    opened: OpenedBuffer,
)
    ensures
        ({
            let after = resolution.after(opened);
            let found = after.resolved.last();
            &&& after.buffer == resolution.buffer
            &&& after.server == resolution.server
            &&& after.links == resolution.links
            &&& after.resolved.len() == resolution.resolved.len() + 1
            &&& after.resolved.drop_last() == resolution.resolved
            &&& found.target.buffer == opened.buffer
            &&& found.target.range.start.position == opened.target.start
            &&& found.target.range.start.bias == Bias::Right
            &&& found.target.range.end.position == opened.target.end
            &&& found.target.range.end.bias == Bias::Left
            &&& found.origin is Some <==> opened.origin is Some
            &&& opened.origin matches Some(range) ==> {
                &&& found.origin->0.buffer == resolution.buffer
                &&& found.origin->0.range.start.position == range.start
                &&& found.origin->0.range.start.bias == Bias::Right
                &&& found.origin->0.range.end.position == range.end
                &&& found.origin->0.range.end.bias == Bias::Left
            }
        }),
{
    assert(resolution.after(opened).resolved.drop_last() =~= resolution.resolved);
}

/// A resolution waits exactly as long as fewer places are known than there are links, for the
/// file of the first link whose place is not known; and what leads there is known of the file
/// exactly where the link names it.
pub proof fn law_resolution_waits_for_the_next_link<S>(
    resolution: ResolutionView<S>,
    opened: OpenedBuffer,
)
    ensures
        resolution.accepts(opened) <==> resolution.resolved.len() < resolution.links.len() && (
        opened.origin is Some <==> resolution.links[resolution.resolved.len() as int].origin_range
            is Some),
        resolution.is_waiting() <==> resolution.resolved.len() < resolution.links.len(),
        resolution.current() == resolution.links[resolution.resolved.len() as int],
{
}

/// A range is in the text exactly where neither of its ends has to be moved; its anchors stand at
/// its ends as they are in the text, and keep out of it or in it what is typed there.
pub proof fn law_placed_ranges(range: PlacedRange)
    ensures
        range.is_in_text() <==> range.start == range.clipped_start && range.end
            == range.clipped_end,
        range.inner().start.position == range.clipped_start,
        range.inner().start.bias == Bias::Right,
        range.inner().end.position == range.clipped_end,
        range.inner().end.bias == Bias::Left,
        range.outer().start.position == range.clipped_start,
        range.outer().start.bias == Bias::Left,
        range.outer().end.position == range.clipped_end,
        range.outer().end.bias == Bias::Right,
{
}

/// A completion with a range of its own is offered exactly where the range is in the text. It then
/// replaces that range, growing with what is typed, by its own text. Of a range to insert and one
/// to replace, the former counts.
pub proof fn law_completion_with_a_range(
    position: PointUtf16,
    item: CompletionItem,
    default: Option<PlacedRange>,
    context: CompletionContext,
    range: PlacedRange,
    text: String,
)
    requires
        match item.text_edit {
            Some(CompletionTextEdit::Edit { range: named, new_text }) => named == range && new_text
                == text,
            Some(CompletionTextEdit::InsertAndReplace { new_text, insert, .. }) => insert == range
                && new_text == text,
            None => false,
        },
    ensures
        ({
            let edit = crate::lsp_command::completions::completion_edit(
                position,
                item,
                default,
                context,
            );
            &&& edit is Some <==> range.start == range.clipped_start && range.end
                == range.clipped_end
            &&& edit matches Some(edit) ==> {
                &&& edit.lsp_completion == item
                &&& edit.new_text == text
                &&& edit.old_range == EditRange::Points(
                    Range {
                        start: PointAnchor { position: range.start, bias: Bias::Left },
                        end: PointAnchor { position: range.end, bias: Bias::Right },
                    },
                )
            }
        }),
{
}

/// A completion without a range is offered only at a place in the text. A default range that is in
/// the text is what it replaces, and one that is not keeps it from being offered. Without one it
/// replaces what surrounds the place exactly where that is a word; next to punctuation, next to
/// white space or next to nothing it replaces nothing, right at the place. What it puts there is
/// what it says it inserts, or else its name.
pub proof fn law_completion_without_a_range(
    position: PointUtf16,
    item: CompletionItem,
    default: Option<PlacedRange>,
    context: CompletionContext,
)
    requires
        item.text_edit is None,
    ensures
        ({
            let edit = crate::lsp_command::completions::completion_edit(
                position,
                item,
                default,
                context,
            );
            &&& edit is Some <==> {
                &&& context.clipped_position == position
                &&& default matches Some(range) ==> range.start == range.clipped_start && range.end
                    == range.clipped_end
            }
            &&& edit matches Some(edit) ==> {
                &&& edit.lsp_completion == item
                &&& item.insert_text matches Some(text) ==> edit.new_text == text
                &&& item.insert_text is None ==> edit.new_text == item.label
                &&& default matches Some(range) ==> edit.old_range == EditRange::Points(
                    Range {
                        start: PointAnchor { position: range.start, bias: Bias::Left },
                        end: PointAnchor { position: range.end, bias: Bias::Right },
                    },
                )
                &&& default is None ==> {
                    &&& edit.old_range matches EditRange::Offsets(range)
                    &&& range.start.excerpt is None && range.end.excerpt is None
                    &&& range.start.bias == Bias::Left && range.end.bias == Bias::Right
                    &&& match context.word_kind {
                        Some(CharKind::Word) => {
                            &&& range.start.offset == context.word.start
                            &&& range.end.offset == context.word.end
                        },
                        Some(CharKind::Punctuation) => {
                            &&& range.start.offset == context.offset
                            &&& range.end.offset == context.offset
                        },
                        Some(CharKind::Whitespace) => {
                            &&& range.start.offset == context.offset
                            &&& range.end.offset == context.offset
                        },
                        None => {
                            &&& range.start.offset == context.offset
                            &&& range.end.offset == context.offset
                        },
                    }
                }
            }
        }),
{
}

/// What surrounds the place of a request is all of the word that it is in, and nothing, right at
/// the place, where it is in none. It grows with what is typed at its ends.
pub proof fn law_only_words_surround_a_place(context: CompletionContext)
    ensures
        ({
            let surrounding = context.token_range();
            &&& surrounding matches EditRange::Offsets(range)
            &&& range.start.excerpt is None && range.end.excerpt is None
            &&& range.start.bias == Bias::Left && range.end.bias == Bias::Right
            &&& match context.word_kind {
                Some(CharKind::Word) => {
                    &&& range.start.offset == context.word.start
                    &&& range.end.offset == context.word.end
                },
                Some(CharKind::Punctuation) => {
                    &&& range.start.offset == context.offset
                    &&& range.end.offset == context.offset
                },
                Some(CharKind::Whitespace) => {
                    &&& range.start.offset == context.offset
                    &&& range.end.offset == context.offset
                },
                None => {
                    &&& range.start.offset == context.offset
                    &&& range.end.offset == context.offset
                },
            }
        }),
{
}

/// Each completion counts by itself: none makes none, one makes what it does to the text, or
/// nothing if it does not fit, and what those of joined lists make follows each other.
pub proof fn law_completions_count_by_themselves(
    position: PointUtf16,
    first: Seq<CompletionItem>,
    second: Seq<CompletionItem>,
    item: CompletionItem,
    default: Option<PlacedRange>,
    context: CompletionContext,
)
    ensures
        crate::lsp_command::completions::completion_edits(
            position,
            Seq::empty(),
            default,
            context,
        ).len() == 0,
        crate::lsp_command::completions::completion_edits(position, seq![item], default, context)
            == match crate::lsp_command::completions::completion_edit(
            position,
            item,
            default,
            context,
        ) {
            Some(edit) => seq![edit],
            None => Seq::empty(),
        },
        crate::lsp_command::completions::completion_edits(position, first + second, default, context)
            == crate::lsp_command::completions::completion_edits(position, first, default, context)
            + crate::lsp_command::completions::completion_edits(position, second, default, context),
    decreases second.len(),
{
    reveal_with_fuel(crate::lsp_command::completions::completion_edits, 2);
    assert(seq![item].drop_last() =~= Seq::empty());
    if second.len() == 0 {
        assert(first + second =~= first);
        assert(crate::lsp_command::completions::completion_edits(
            position,
            first,
            default,
            context,
        ) + crate::lsp_command::completions::completion_edits(position, second, default, context)
            =~= crate::lsp_command::completions::completion_edits(
            position,
            first,
            default,
            context,
        ));
    } else {
        let rest = second.drop_last();
        law_completions_count_by_themselves(position, first, rest, item, default, context);
        assert((first + second).drop_last() =~= first + rest);
        assert((first + second).last() == second.last());
        assert(crate::lsp_command::completions::completion_edits(
            position,
            first + second,
            default,
            context,
        ) =~= crate::lsp_command::completions::completion_edits(position, first, default, context)
            + crate::lsp_command::completions::completion_edits(position, second, default, context));
    }
}

/// An answer offers the completions that are in it, all of them and in order. Only a list has a
/// default range, and only where it is a single range.
pub proof fn law_answer_offers_its_completions(message: Option<CompletionResponse>)
    ensures
        ({
            let (items, default) = crate::lsp_command::completions::offer(message);
            match message {
                None => items.len() == 0 && default is None,
                Some(CompletionResponse::Array(offered)) => items == offered@ && default is None,
                Some(CompletionResponse::List { items: offered, item_defaults }) => {
                    &&& items == offered@
                    &&& default is Some <==> item_defaults is Some
                        && item_defaults->0.edit_range is Some
                        && item_defaults->0.edit_range->0 is Range
                    &&& item_defaults matches Some(ItemDefaults { edit_range: Some(
                        DefaultEditRange::Range(range),
                    ) }) ==> default == Some(range)
                },
            }
        }),
{
}

/// A finished completion replaces what its edit does by the text that was made ready. It is what
/// the adapter makes of it where the buffer has a language, and else what the server offered. It
/// is shown by the label that the language has for it, or else by its name, and with its
/// documentation exactly where it has some.
pub proof fn law_finished_completions<L, D>(
    edit: CompletionEdit,
    answer: CompletionAnswer<L, D>,
    server_id: LanguageServerId,
)
    requires
        match answer.adapted {
            Some(adapted) => adapted.lsp_completion.documentation is Some,
            None => edit.lsp_completion.documentation is Some,
        } ==> answer.documentation is Some,
    ensures
        crate::lsp_command::completions::is_documented(edit, answer),
        ({
            let finished: Completion<L, D> = crate::lsp_command::completions::finished(
                edit,
                answer,
                server_id,
            );
            &&& finished.old_range == edit.old_range
            &&& finished.new_text == answer.normalized_text
            &&& finished.server_id == server_id
            &&& answer.adapted is None ==> finished.lsp_completion == edit.lsp_completion
            &&& answer.adapted matches Some(adapted) ==> finished.lsp_completion
                == adapted.lsp_completion
            &&& match answer.adapted {
                Some(AdaptedCompletion { label: Some(label), .. }) => finished.label
                    == CompletionLabel::<L>::Styled(label),
                Some(AdaptedCompletion { label: None, lsp_completion }) => finished.label
                    == (CompletionLabel::<L>::Plain {
                    text: lsp_completion.label,
                    filter_text: lsp_completion.filter_text,
                }),
                None => finished.label == (CompletionLabel::<L>::Plain {
                    text: edit.lsp_completion.label,
                    filter_text: edit.lsp_completion.filter_text,
                }),
            }
            &&& finished.documentation is Some <==> finished.lsp_completion.documentation is Some
            &&& finished.documentation is Some ==> finished.documentation == answer.documentation
        }),
{
}

/// What is shown over a symbol: each marked string counts by itself, text as Markdown and code in
/// its language, and an empty one makes nothing. A text that is marked up as a whole is one block,
/// in the way that it is written.
pub proof fn law_hover_blocks(contents: HoverContents, first: Seq<MarkedString>, second: Seq<MarkedString>)
    ensures
        crate::lsp_command::hover::marked_blocks(first + second)
            == crate::lsp_command::hover::marked_blocks(first)
            + crate::lsp_command::hover::marked_blocks(second),
        ({
            let blocks = crate::lsp_command::hover::hover_blocks(contents);
            match contents {
                HoverContents::Scalar(MarkedString::String(text)) => if text@.len() == 0 {
                    blocks.len() == 0
                } else {
                    blocks.len() == 1 && blocks[0].text == text && blocks[0].kind is Markdown
                },
                HoverContents::Scalar(MarkedString::LanguageString { language, value }) => {
                    if value@.len() == 0 {
                        blocks.len() == 0
                    } else {
                        blocks.len() == 1 && blocks[0].text == value && blocks[0].kind == (
                        HoverBlockKind::Code { language })
                    }
                },
                HoverContents::Array(strings) => blocks
                    == crate::lsp_command::hover::marked_blocks(strings@),
                HoverContents::Markup(markup) => {
                    &&& blocks.len() == 1
                    &&& blocks[0].text == markup.value
                    &&& blocks[0].kind is Markdown <==> markup.kind == MarkupKind::Markdown
                    &&& blocks[0].kind is PlainText <==> markup.kind == MarkupKind::PlainText
                },
            }
        }),
    decreases second.len(),
{
    reveal_with_fuel(crate::lsp_command::hover::marked_blocks, 2);
    if let HoverContents::Scalar(string) = contents {
        assert(seq![string].drop_last() =~= Seq::empty());
    }
    if second.len() == 0 {
        assert(first + second =~= first);
        assert(crate::lsp_command::hover::marked_blocks(first)
            + crate::lsp_command::hover::marked_blocks(second)
            =~= crate::lsp_command::hover::marked_blocks(first));
    } else {
        let rest = second.drop_last();
        law_hover_blocks(contents, first, rest);
        assert((first + second).drop_last() =~= first + rest);
        assert((first + second).last() == second.last());
        assert(crate::lsp_command::hover::marked_blocks(first + second)
            =~= crate::lsp_command::hover::marked_blocks(first)
            + crate::lsp_command::hover::marked_blocks(second));
    }
}

/// A list of one marked string is shown as the string alone is, and one of none not at all.
pub proof fn law_hover_of_one_string(strings: Vec<MarkedString>)
    ensures
        strings@.len() == 0 ==> crate::lsp_command::hover::hover_blocks(
            HoverContents::Array(strings),
        ).len() == 0,
        strings@.len() == 1 ==> crate::lsp_command::hover::hover_blocks(
            HoverContents::Array(strings),
        ) == crate::lsp_command::hover::hover_blocks(HoverContents::Scalar(strings@[0])),
{
    if strings@.len() == 1 {
        assert(strings@ =~= seq![strings@[0]]);
    }
}

/// What would be renamed is a range that the server names, with or without a placeholder.
pub proof fn law_range_to_rename(message: Option<PrepareRenameResponse>)
    ensures
        match message {
            Some(PrepareRenameResponse::Range(range)) => {
                crate::lsp_command::hover::range_to_rename(message) == Some(range)
            },
            Some(PrepareRenameResponse::RangeWithPlaceholder { range, .. }) => {
                crate::lsp_command::hover::range_to_rename(message) == Some(range)
            },
            Some(PrepareRenameResponse::DefaultBehavior { .. }) => {
                crate::lsp_command::hover::range_to_rename(message) is None
            },
            None => crate::lsp_command::hover::range_to_rename(message) is None,
        },
{
}

/// Highlights are shown by where they start, and of those that start together the one that ends
/// last first; each where it is in the text, in the way that the server says, or else as read.
pub proof fn law_highlights_are_shown_in_order(
    shown: Seq<DocumentHighlight>,
    named: Seq<LspDocumentHighlight>,
)
    requires
        crate::lsp_command::highlights::is_shown_for(shown, named),
        crate::lsp_command::highlights::ordered(named),
    ensures
        shown.len() == named.len(),
        forall|i: int|
            #![trigger shown[i]]
            0 <= i < shown.len() ==> {
                &&& shown[i].range.start.position == named[i].place.clipped_start
                &&& shown[i].range.start.bias == Bias::Right
                &&& shown[i].range.end.position == named[i].place.clipped_end
                &&& shown[i].range.end.bias == Bias::Left
                &&& named[i].kind matches Some(kind) ==> shown[i].kind == kind
                &&& named[i].kind is None ==> shown[i].kind == 2
            },
        forall|i: int, j: int|
            #![trigger named[i], named[j]]
            0 <= i < j < named.len() ==> {
                let a = named[i].place;
                let b = named[j].place;
                ||| a.start.row < b.start.row
                ||| a.start.row == b.start.row && a.start.column < b.start.column
                ||| a.start.row == b.start.row && a.start.column == b.start.column && (a.end.row
                    > b.end.row || (a.end.row == b.end.row && a.end.column >= b.end.column))
            },
{
    assert forall|i: int, j: int|
        #![trigger named[i], named[j]]
        0 <= i < j < named.len() implies {
        let a = named[i].place;
        let b = named[j].place;
        ||| a.start.row < b.start.row
        ||| a.start.row == b.start.row && a.start.column < b.start.column
        ||| a.start.row == b.start.row && a.start.column == b.start.column && (a.end.row
            > b.end.row || (a.end.row == b.end.row && a.end.column >= b.end.column))
    } by {
        assert(crate::lsp_command::highlights::goes_first(named[i], named[j]));
    }
}

/// How servers number the ways in which something is used, and what hints are about.
pub proof fn law_numbers_of_the_protocol()
    ensures
        crate::lsp_command::highlights::HIGHLIGHT_TEXT == 1,
        crate::lsp_command::highlights::HIGHLIGHT_READ == 2,
        crate::lsp_command::highlights::HIGHLIGHT_WRITE == 3,
        crate::lsp_command::hints::HINT_TYPE == 1,
        crate::lsp_command::hints::HINT_PARAMETER == 2,
{
}

/// Code actions count by themselves: a command makes nothing, a change is offered as it is, and
/// what joined lists make follows each other.
pub proof fn law_code_actions_count_by_themselves<A, C>(
    first: Seq<CodeActionOrCommand<A, C>>,
    second: Seq<CodeActionOrCommand<A, C>>,
    action: A,
    command: C,
    range: Range<Anchor>,
    server_id: LanguageServerId,
)
    ensures
        crate::lsp_command::actions::code_actions(
            Seq::<CodeActionOrCommand<A, C>>::empty(),
            range,
            server_id,
        ).len() == 0,
        crate::lsp_command::actions::code_actions(
            seq![CodeActionOrCommand::<A, C>::Command(command)],
            range,
            server_id,
        ).len() == 0,
        crate::lsp_command::actions::code_actions(
            seq![CodeActionOrCommand::<A, C>::CodeAction(action)],
            range,
            server_id,
        ) == seq![CodeAction { server_id, range, lsp_action: action }],
        crate::lsp_command::actions::code_actions(first + second, range, server_id)
            == crate::lsp_command::actions::code_actions(first, range, server_id)
            + crate::lsp_command::actions::code_actions(second, range, server_id),
    decreases second.len(),
{
    reveal_with_fuel(crate::lsp_command::actions::code_actions, 2);
    assert(seq![CodeActionOrCommand::<A, C>::Command(command)].drop_last() =~= Seq::empty());
    assert(seq![CodeActionOrCommand::<A, C>::CodeAction(action)].drop_last() =~= Seq::empty());
    if second.len() == 0 {
        assert(first + second =~= first);
        assert(crate::lsp_command::actions::code_actions(first, range, server_id)
            + crate::lsp_command::actions::code_actions(second, range, server_id)
            =~= crate::lsp_command::actions::code_actions(first, range, server_id));
    } else {
        let rest = second.drop_last();
        law_code_actions_count_by_themselves(first, rest, action, command, range, server_id);
        assert((first + second).drop_last() =~= first + rest);
        assert((first + second).last() == second.last());
        assert(crate::lsp_command::actions::code_actions(first + second, range, server_id)
            =~= crate::lsp_command::actions::code_actions(first, range, server_id)
            + crate::lsp_command::actions::code_actions(second, range, server_id));
    }
}

/// Edits are applied exactly as the server gives them, on its behalf; without any nothing is, and
/// without a server they cannot be.
pub proof fn law_edits_are_applied_as_given<T, S, E>(
    message: Option<T>,
    push_to_history: bool,
    server: Result<Option<S>, E>,
)
    ensures
        ({
            let outcome = crate::lsp_command::actions::edits_outcome(
                message,
                push_to_history,
                server,
            );
            &&& message is None ==> outcome is Ok && outcome->Ok_0 is None
            &&& message matches Some(edits) ==> match server {
                Ok(Some(server)) => {
                    &&& outcome is Ok && outcome->Ok_0 is Some
                    &&& outcome->Ok_0->0.edits == edits
                    &&& outcome->Ok_0->0.push_to_history == push_to_history
                    &&& outcome->Ok_0->0.server == server
                },
                Ok(None) => outcome is Err && outcome->Err_0
                    == LspError::<E>::NoLanguageServerForBuffer,
                Err(error) => outcome is Err && outcome->Err_0 == LspError::<E>::Failed(error),
            }
        }),
{
}

/// What is made of a hint: its kind by its number, its place on the side that its kind asks for,
/// its padding as the server gives it but before types where that is forced, its text and the
/// texts of its parts unchanged, and what its parts lead to known to the server.
pub proof fn law_hint_is_what_the_server_gives(
    hint: InlayHint,
    lsp_hint: LspInlayHint,
    clipped_position: PointUtf16,
    server_id: LanguageServerId,
    resolve_state: ResolveState,
    force_no_type_left_padding: bool,
)
    requires
        crate::lsp_command::hints::is_hint_of(
            hint,
            lsp_hint,
            clipped_position,
            server_id,
            resolve_state,
            force_no_type_left_padding,
        ),
    ensures
        hint.kind == Some(InlayHintKind::Type) <==> lsp_hint.kind == Some(1i32),
        hint.kind == Some(InlayHintKind::Parameter) <==> lsp_hint.kind == Some(2i32),
        hint.position.position == clipped_position,
        hint.position.bias == Bias::Left <==> lsp_hint.kind == Some(2i32),
        hint.padding_right <==> lsp_hint.padding_right == Some(true),
        lsp_hint.kind == Some(1i32) && force_no_type_left_padding ==> !hint.padding_left,
        !(lsp_hint.kind == Some(1i32) && force_no_type_left_padding) ==> (hint.padding_left
            <==> lsp_hint.padding_left == Some(true)),
        hint.resolve_state == resolve_state,
        match lsp_hint.label {
            LspInlayHintLabel::String(text) => hint.label == InlayHintLabel::String(text),
            LspInlayHintLabel::LabelParts(lsp_parts) => {
                &&& hint.label matches InlayHintLabel::LabelParts(parts)
                &&& parts@.len() == lsp_parts@.len()
                &&& forall|i: int|
                    #![trigger parts@[i]]
                    0 <= i < parts@.len() ==> {
                        &&& parts@[i].value == lsp_parts@[i].value
                        &&& parts@[i].location is Some <==> lsp_parts@[i].location is Some
                        &&& lsp_parts@[i].location matches Some(location) ==> parts@[i].location
                            == Some((server_id, location))
                        &&& is_same_tooltip(parts@[i].tooltip, lsp_parts@[i].tooltip)
                    }
            },
        },
        is_same_tooltip(hint.tooltip, lsp_hint.tooltip),
{
}

/// Whether a tooltip says what one of a server does, in the same way.
pub open spec fn is_same_tooltip(tooltip: Option<Tooltip>, given: Option<LspTooltip>) -> bool {
    match (tooltip, given) {
        (None, None) => true,
        (Some(Tooltip::String(text)), Some(LspTooltip::String(lsp_text))) => text == lsp_text,
        (Some(Tooltip::MarkupContent(markup)), Some(LspTooltip::MarkupContent(lsp_markup))) => {
            &&& markup.value == lsp_markup.value
            &&& markup.kind is Markdown <==> lsp_markup.kind == MarkupKind::Markdown
            &&& markup.kind is PlainText <==> lsp_markup.kind == MarkupKind::PlainText
        },
        _ => false,
    }
}

/// What is sent of a hint: where it is by now, with its number, its padding and its texts, and with
/// the data of the server for as long as there is more to be said of it.
pub proof fn law_hint_is_sent_as_it_is(
    lsp_hint: LspInlayHint,
    hint: InlayHint,
    position: PointUtf16,
)
    requires
        crate::lsp_command::hints::is_lsp_hint_of(lsp_hint, hint, position),
    ensures
        lsp_hint.position.line == position.row,
        lsp_hint.position.character == position.column,
        match hint.kind {
            Some(InlayHintKind::Type) => lsp_hint.kind == Some(1i32),
            Some(InlayHintKind::Parameter) => lsp_hint.kind == Some(2i32),
            None => lsp_hint.kind is None,
        },
        lsp_hint.padding_left == Some(hint.padding_left),
        lsp_hint.padding_right == Some(hint.padding_right),
        lsp_hint.text_edits is None,
        match hint.resolve_state {
            ResolveState::CanResolve(_, data) => lsp_hint.data == data,
            ResolveState::Resolved => lsp_hint.data is None,
            ResolveState::Resolving => lsp_hint.data is None,
        },
        match hint.label {
            InlayHintLabel::String(text) => lsp_hint.label == LspInlayHintLabel::String(text),
            InlayHintLabel::LabelParts(parts) => {
                &&& lsp_hint.label matches LspInlayHintLabel::LabelParts(lsp_parts)
                &&& lsp_parts@.len() == parts@.len()
                &&& forall|i: int|
                    #![trigger lsp_parts@[i]]
                    0 <= i < parts@.len() ==> {
                        &&& lsp_parts@[i].value == parts@[i].value
                        &&& lsp_parts@[i].command is None
                        &&& lsp_parts@[i].location is Some <==> parts@[i].location is Some
                        &&& parts@[i].location matches Some((_, location))
                            ==> lsp_parts@[i].location == Some(location)
                        &&& crate::lsp_command::hints::can_be_sent(parts@[i].tooltip)
                            ==> is_same_tooltip(parts@[i].tooltip, lsp_parts@[i].tooltip)
                        &&& !crate::lsp_command::hints::can_be_sent(parts@[i].tooltip)
                            ==> lsp_parts@[i].tooltip is None
                    }
            },
        },
        crate::lsp_command::hints::can_be_sent(hint.tooltip) ==> is_same_tooltip(
            hint.tooltip,
            lsp_hint.tooltip,
        ),
        !crate::lsp_command::hints::can_be_sent(hint.tooltip) ==> lsp_hint.tooltip is None,
{
}

/// The only tooltips that cannot be sent are those that are code.
pub proof fn law_only_code_cannot_be_sent(tooltip: Option<Tooltip>)
    ensures
        crate::lsp_command::hints::can_be_sent(tooltip) <==> match tooltip {
            Some(Tooltip::MarkupContent(markup)) => match markup.kind {
                HoverBlockKind::Code { .. } => false,
                HoverBlockKind::PlainText => true,
                HoverBlockKind::Markdown => true,
            },
            Some(Tooltip::String(_)) => true,
            None => true,
        },
{
}

/// Every hint of an answer is shown, in order; types without their padding exactly for the server
/// that is known to pad them; and more is to be said of it exactly where the server can say more.
pub proof fn law_every_hint_is_shown(
    hints: Seq<InlayHint>,
    message: Seq<PlacedHint>,
    server_id: LanguageServerId,
    server: HintServer,
)
    requires
        crate::lsp_command::hints::are_hints_of(hints, message, server_id, server),
    ensures
        hints.len() == message.len(),
        forall|i: int|
            #![trigger hints[i]]
            0 <= i < hints.len() ==> {
                &&& crate::lsp_command::hints::is_hint_of(
                    hints[i],
                    message[i].lsp_hint,
                    message[i].clipped_position,
                    server_id,
                    hints[i].resolve_state,
                    server.adapter_name@ == "typescript-language-server"@,
                )
                &&& hints[i].position.position == message[i].clipped_position
                &&& hints[i].padding_left <==> {
                    &&& message[i].lsp_hint.padding_left == Some(true)
                    &&& !(message[i].lsp_hint.kind == Some(1i32) && server.adapter_name@
                        == "typescript-language-server"@)
                }
                &&& hints[i].resolve_state == if resolves_hints(server) {
                    ResolveState::CanResolve(server.server_id, message[i].lsp_hint.data)
                } else {
                    ResolveState::Resolved
                }
            },
{
    assert forall|i: int| #![trigger hints[i]] 0 <= i < hints.len() implies {
        &&& crate::lsp_command::hints::is_hint_of(
            hints[i],
            message[i].lsp_hint,
            message[i].clipped_position,
            server_id,
            hints[i].resolve_state,
            server.adapter_name@ == "typescript-language-server"@,
        )
        &&& hints[i].position.position == message[i].clipped_position
        &&& hints[i].padding_left <==> {
            &&& message[i].lsp_hint.padding_left == Some(true)
            &&& !(message[i].lsp_hint.kind == Some(1i32) && server.adapter_name@
                == "typescript-language-server"@)
        }
        &&& hints[i].resolve_state == if resolves_hints(server) {
            ResolveState::CanResolve(server.server_id, message[i].lsp_hint.data)
        } else {
            ResolveState::Resolved
        }
    } by {
        law_hint_is_what_the_server_gives(
            hints[i],
            message[i].lsp_hint,
            message[i].clipped_position,
            server_id,
            server.resolve_state(message[i].lsp_hint),
            server.adapter_name@ == "typescript-language-server"@,
        );
    }
}

/// Whether a server says that it can say more of its hints, in either of the two ways to say so.
pub open spec fn resolves_hints(server: HintServer) -> bool {
    match server.capabilities.inlay_hint_provider {
        Some(OneOf::Right(InlayHintServerCapabilities::Options { resolve_provider: Some(true) })) => {
            true
        },
        Some(
            OneOf::Right(
                InlayHintServerCapabilities::RegistrationOptions { resolve_provider: Some(true) },
            ),
        ) => true,
        _ => false,
    }
}

}
