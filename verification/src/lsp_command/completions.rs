//! What can be typed at the cursor.
use std::ops::Range;
use vstd::prelude::*;

use crate::editor::search::{Bias, CharKind, OffsetAnchor};
use crate::lsp_command::command::GetCompletions;
use crate::lsp_command::protocol::{
    LanguageServerId, LspError, PlacedRange, PointAnchor, PointUtf16,
};

verus! {

/// How a server would have a completion change the text.
#[derive(Debug)]
pub enum CompletionTextEdit {
    Edit { range: PlacedRange, new_text: String },
    InsertAndReplace { new_text: String, insert: PlacedRange, replace: PlacedRange },
}

/// A completion that a server offers.
#[derive(Debug)]
pub struct CompletionItem {
    pub label: String,
    pub filter_text: Option<String>,
    pub insert_text: Option<String>,
    pub text_edit: Option<CompletionTextEdit>,
    pub documentation: Option<String>,
    /// All else that the server says of it, written out as it came.
    pub data: String,
}

/// What completions replace that do not say it themselves.
#[derive(Clone, Copy, Debug, PartialEq, Eq, Structural)]
pub enum DefaultEditRange {
    Range(PlacedRange),
    InsertAndReplace { insert: PlacedRange, replace: PlacedRange },
}

/// What goes for all the completions of a list.
#[derive(Clone, Copy, Debug, PartialEq, Eq, Structural)]
pub struct ItemDefaults {
    pub edit_range: Option<DefaultEditRange>,
}

/// What a server offers.
#[derive(Debug)]
pub enum CompletionResponse {
    Array(Vec<CompletionItem>),
    List { items: Vec<CompletionItem>, item_defaults: Option<ItemDefaults> },
}

/// The text around the place that the request was about.
#[derive(Debug)]
pub struct CompletionContext {
    /// The place, moved left to where the text has one.
    pub clipped_position: PointUtf16,
    /// How far into the text the place is.
    pub offset: usize,
    /// What surrounds the place.
    pub word: Range<usize>,
    /// What kind of characters surround it.
    pub word_kind: Option<CharKind>,
}

/// A range that grows with what is typed at its ends.
#[derive(Debug)]
pub enum EditRange {
    /// A range that the server named.
    Points(Range<PointAnchor>),
    /// A range that the text suggests.
    Offsets(Range<OffsetAnchor>),
}

/// A completion that fits the text, with what it does to it.
#[derive(Debug)]
pub struct CompletionEdit {
    pub old_range: EditRange,
    pub new_text: String,
    pub lsp_completion: CompletionItem,
}

/// The range that a server names, as long as it is in the text.
pub open spec fn named_range(range: PlacedRange) -> Option<EditRange> {
    if range.is_in_text() {
        Some(EditRange::Points(range.outer()))
    } else {
        None
    }
}

impl CompletionContext {
    /// The word that the place is in or at, or else the place itself.
    pub open spec fn token(self) -> Range<usize> {
        if self.word_kind == Some(CharKind::Word) {
            self.word
        } else {
            Range { start: self.offset, end: self.offset }
        }
    }

    /// What a completion replaces that no one says anything of.
    pub open spec fn token_range(self) -> EditRange {
        EditRange::Offsets(
            Range {
                start: OffsetAnchor {
                    excerpt: None,
                    offset: self.token().start,
                    bias: Bias::Left,
                },
                end: OffsetAnchor { excerpt: None, offset: self.token().end, bias: Bias::Right },
            },
        )
    }

    fn range_for_token(&self) -> (r: EditRange)
        ensures
            r == self.token_range(),
    {
        let (start, end) = match self.word_kind {
            Some(CharKind::Word) => (self.word.start, self.word.end),
            _ => (self.offset, self.offset),
        };
        EditRange::Offsets(
            Range {
                start: OffsetAnchor { excerpt: None, offset: start, bias: Bias::Left },
                end: OffsetAnchor { excerpt: None, offset: end, bias: Bias::Right },
            },
        )
    }
}

/// The range that goes for all completions. One with a range to insert and one to replace does
/// not count.
pub open spec fn default_range(item_defaults: Option<ItemDefaults>) -> Option<PlacedRange> {
    match item_defaults {
        Some(ItemDefaults { edit_range: Some(DefaultEditRange::Range(range)) }) => Some(range),
        _ => None,
    }
}

/// What a completion replaces. Without a range of its own it goes by that of all completions,
/// and without that by the text; but then the request has to be about a place in the text.
pub open spec fn replaced_range(
    position: PointUtf16,
    item: CompletionItem,
    default: Option<PlacedRange>,
    context: CompletionContext,
) -> Option<EditRange> {
    match item.text_edit {
        Some(CompletionTextEdit::Edit { range, .. }) => named_range(range),
        Some(CompletionTextEdit::InsertAndReplace { insert, .. }) => named_range(insert),
        None => if position != context.clipped_position {
            None
        } else {
            match default {
                Some(range) => named_range(range),
                None => Some(context.token_range()),
            }
        },
    }
}

/// What a completion puts there: what its edit says, or else what it says it inserts, or else
/// what it is called.
pub open spec fn inserted_text(item: CompletionItem) -> String {
    match item.text_edit {
        Some(CompletionTextEdit::Edit { new_text, .. }) => new_text,
        Some(CompletionTextEdit::InsertAndReplace { new_text, .. }) => new_text,
        None => match item.insert_text {
            Some(text) => text,
            None => item.label,
        },
    }
}

/// What a completion does to the text, if it fits it.
pub open spec fn completion_edit(
    position: PointUtf16,
    item: CompletionItem,
    default: Option<PlacedRange>,
    context: CompletionContext,
) -> Option<CompletionEdit> {
    match replaced_range(position, item, default, context) {
        Some(old_range) => Some(
            CompletionEdit { old_range, new_text: inserted_text(item), lsp_completion: item },
        ),
        None => None,
    }
}

/// What those of the completions that fit the text do to it.
pub open spec fn completion_edits(
    position: PointUtf16,
    items: Seq<CompletionItem>,
    default: Option<PlacedRange>,
    context: CompletionContext,
) -> Seq<CompletionEdit>
    decreases items.len(),
{
    if items.len() == 0 {
        Seq::empty()
    } else {
        let rest = completion_edits(position, items.drop_last(), default, context);
        match completion_edit(position, items.last(), default, context) {
            Some(edit) => rest.push(edit),
            None => rest,
        }
    }
}

/// What a server offers: the completions, and the range that goes for all of them.
pub open spec fn offer(message: Option<CompletionResponse>) -> (
    Seq<CompletionItem>,
    Option<PlacedRange>,
) {
    match message {
        Some(CompletionResponse::Array(items)) => (items@, None),
        Some(CompletionResponse::List { items, item_defaults }) => (
            items@,
            default_range(item_defaults),
        ),
        None => (Seq::empty(), None),
    }
}

fn range_in_text(range: &PlacedRange) -> (r: Option<EditRange>)
    ensures
        r == named_range(*range),
{
    if range.fits() {
        Some(EditRange::Points(range.anchors_outside()))
    } else {
        None
    }
}

impl GetCompletions {
    fn edit_for(
        &self,
        item: CompletionItem,
        default: &Option<PlacedRange>,
        context: &CompletionContext,
    ) -> (r: Option<CompletionEdit>)
        ensures
            r == completion_edit(self.position, item, *default, *context),
    {
        let (old_range, new_text) = match &item.text_edit {
            // Where the server names a range to overwrite, it must be in the text.
            Some(CompletionTextEdit::Edit { range, new_text }) => {
                (range_in_text(range), new_text.clone())
            },
            // Where it names none, the text says what is overwritten.
            None => {
                let old_range = if self.position != context.clipped_position {
                    None
                } else {
                    match default {
                        Some(range) => range_in_text(range),
                        None => Some(context.range_for_token()),
                    }
                };
                let new_text = match &item.insert_text {
                    Some(text) => text.clone(),
                    None => item.label.clone(),
                };
                (old_range, new_text)
            },
            Some(CompletionTextEdit::InsertAndReplace { new_text, insert, .. }) => {
                (range_in_text(insert), new_text.clone())
            },
        };
        match old_range {
            Some(old_range) => Some(CompletionEdit { old_range, new_text, lsp_completion: item }),
            None => None,
        }
    }

    /// What those of the completions that fit the text do to it, in the order in which the
    /// server offers them.
    pub fn response_from_lsp<E>(
        &self,
        message: Option<CompletionResponse>,
        server_is_known: Result<bool, E>,
        context: &CompletionContext,
    ) -> (r: Result<Vec<CompletionEdit>, LspError<E>>)
        ensures
            match server_is_known {
                Ok(true) => r is Ok && r->Ok_0@ == completion_edits(
                    self.position,
                    offer(message).0,
                    offer(message).1,
                    *context,
                ),
                Ok(false) => r == Err::<Vec<CompletionEdit>, LspError<E>>(
                    LspError::NoSuchLanguageServer,
                ),
                Err(error) => r == Err::<Vec<CompletionEdit>, LspError<E>>(
                    LspError::Failed(error),
                ),
            },
    {
        let ghost offered = offer(message);
        let (items, default) = match message {
            Some(CompletionResponse::Array(items)) => (items, None),
            Some(CompletionResponse::List { items, item_defaults }) => {
                let default = match item_defaults {
                    Some(defaults) => match defaults.edit_range {
                        Some(DefaultEditRange::Range(range)) => Some(range),
                        _ => None,
                    },
                    None => None,
                };
                (items, default)
            },
            None => {
                let items: Vec<CompletionItem> = Vec::new();
                (items, None)
            },
        };
        assert(items@ =~= offered.0);
        match server_is_known {
            Ok(known) => if !known {
                return Err(LspError::NoSuchLanguageServer);
            },
            Err(error) => {
                return Err(LspError::Failed(error));
            },
        }
        let ghost all = items@;
        let mut edits: Vec<CompletionEdit> = Vec::new();
        for item in it: items
            invariant
                it.seq() == all,
                edits@ == completion_edits(
                    self.position,
                    all.take(it.index()),
                    default,
                    *context,
                ),
        {
            proof {
                let next = all.take(it.index() + 1);
                assert(next.drop_last() =~= all.take(it.index()));
                assert(next.last() == item);
            }
            match self.edit_for(item, &default, context) {
                Some(edit) => edits.push(edit),
                None => {},
            }
        }
        assert(all.take(all.len() as int) =~= all);
        Ok(edits)
    }
}

/// A completion that fits the text is offered; what is offered fits the text.
pub proof fn law_completions_fit_the_text(
    position: PointUtf16,
    items: Seq<CompletionItem>,
    default: Option<PlacedRange>,
    context: CompletionContext,
    i: int,
)
    requires
        0 <= i < items.len(),
    ensures
        completion_edit(position, items[i], default, context) matches Some(edit)
            ==> completion_edits(position, items, default, context).contains(edit),
        forall|j: int|
            0 <= j < completion_edits(position, items, default, context).len() ==> ({
                let edit = #[trigger] completion_edits(position, items, default, context)[j];
                &&& items.contains(edit.lsp_completion)
                &&& completion_edit(position, edit.lsp_completion, default, context) == Some(edit)
            }),
    decreases items.len(),
{
    let rest = items.drop_last();
    let last = items.len() - 1;
    let edits = completion_edits(position, items, default, context);
    let before = completion_edits(position, rest, default, context);
    if last > 0 {
        law_completions_fit_the_text(
            position,
            rest,
            default,
            context,
            if i < last {
                i
            } else {
                0
            },
        );
    }
    if let Some(edit) = completion_edit(position, items[i], default, context) {
        if i < last {
            let at = choose|at: int| 0 <= at < before.len() && before[at] == edit;
            assert(edits[at] == edit);
        } else {
            assert(edits.last() == edit);
        }
    }
    assert forall|j: int| 0 <= j < edits.len() implies ({
        let edit = #[trigger] edits[j];
        &&& items.contains(edit.lsp_completion)
        &&& completion_edit(position, edit.lsp_completion, default, context) == Some(edit)
    }) by {
        if j < before.len() {
            assert(edits[j] == before[j]);
            let k = choose|k: int| 0 <= k < rest.len() && rest[k] == before[j].lsp_completion;
            assert(items[k] == edits[j].lsp_completion);
        } else {
            assert(edits[j].lsp_completion == items[last]);
        }
    }
}

/// How a completion is shown.
#[derive(Debug)]
pub enum CompletionLabel<L> {
    /// As the language has it.
    Styled(L),
    /// By its name alone, found by another text if it has one.
    Plain { text: String, filter_text: Option<String> },
}

/// A completion, ready to be shown and used.
#[derive(Debug)]
pub struct Completion<L, D> {
    pub old_range: EditRange,
    pub new_text: String,
    pub label: CompletionLabel<L>,
    pub documentation: Option<D>,
    pub server_id: LanguageServerId,
    pub lsp_completion: CompletionItem,
}

/// Makes a completion of what it does to the text, once its text has the line endings of the
/// editor and the adapter of the server has had its say. Without a label of the language it is
/// shown by its name. Exactly what the server documents has documentation, once that was made
/// ready to be shown.
pub fn completion<L, D>(
    old_range: EditRange,
    normalized_text: String,
    lsp_completion: CompletionItem,
    label: Option<L>,
    documentation: Option<D>,
    server_id: LanguageServerId,
) -> (r: Completion<L, D>)
    requires
        lsp_completion.documentation is Some ==> documentation is Some,
    ensures
        r.old_range == old_range,
        r.new_text == normalized_text,
        r.label == match label {
            Some(label) => CompletionLabel::Styled(label),
            None => CompletionLabel::Plain {
                text: lsp_completion.label,
                filter_text: lsp_completion.filter_text,
            },
        },
        r.documentation == if lsp_completion.documentation is Some {
            documentation
        } else {
            None
        },
        r.documentation is Some <==> lsp_completion.documentation is Some,
        r.server_id == server_id,
        r.lsp_completion == lsp_completion,
{
    let documentation = match &lsp_completion.documentation {
        Some(_) => documentation,
        None => None,
    };
    let label = match label {
        Some(label) => CompletionLabel::Styled(label),
        None => CompletionLabel::Plain {
            text: lsp_completion.label.clone(),
            filter_text: match &lsp_completion.filter_text {
                Some(text) => Some(text.clone()),
                None => None,
            },
        },
    };
    Completion {
        old_range,
        new_text: normalized_text,
        label,
        documentation,
        server_id,
        lsp_completion,
    }
}

/// What the adapter of the server makes of a completion, in a buffer that has a language.
#[derive(Debug)]
pub struct AdaptedCompletion<L> {
    pub lsp_completion: CompletionItem,
    /// The label that the language has for it.
    pub label: Option<L>,
}

/// What is found out of a completion before it is shown.
#[derive(Debug)]
pub struct CompletionAnswer<L, D> {
    /// What it puts into the text, with the line endings of the editor.
    pub normalized_text: String,
    /// What the adapter makes of it. Without a language it stays as it is.
    pub adapted: Option<AdaptedCompletion<L>>,
    /// Its documentation, ready to be shown.
    pub documentation: Option<D>,
}

/// A completion as the server offers it, or as the adapter makes it.
pub open spec fn adapted_item<L, D>(
    edit: CompletionEdit,
    answer: CompletionAnswer<L, D>,
) -> CompletionItem {
    match answer.adapted {
        Some(adapted) => adapted.lsp_completion,
        None => edit.lsp_completion,
    }
}

/// Whether there is documentation to show wherever there is documentation.
pub open spec fn is_documented<L, D>(
    edit: CompletionEdit,
    answer: CompletionAnswer<L, D>,
) -> bool {
    adapted_item(edit, answer).documentation is Some ==> answer.documentation is Some
}

/// The completion that an edit becomes with what is found out of it.
pub open spec fn finished<L, D>(
    edit: CompletionEdit,
    answer: CompletionAnswer<L, D>,
    server_id: LanguageServerId,
) -> Completion<L, D> {
    let item = adapted_item(edit, answer);
    Completion {
        old_range: edit.old_range,
        new_text: answer.normalized_text,
        label: match answer.adapted {
            Some(AdaptedCompletion { label: Some(label), .. }) => CompletionLabel::Styled(label),
            _ => CompletionLabel::Plain { text: item.label, filter_text: item.filter_text },
        },
        documentation: if item.documentation is Some {
            answer.documentation
        } else {
            None
        },
        server_id,
        lsp_completion: item,
    }
}

/// Makes completions of what they do to the text and of what is found out of each, in order.
pub fn completions<L, D>(
    edits: Vec<CompletionEdit>,
    answers: Vec<CompletionAnswer<L, D>>,
    server_id: LanguageServerId,
) -> (r: Vec<Completion<L, D>>)
    requires
        answers@.len() == edits@.len(),
        forall|i: int|
            0 <= i < edits@.len() ==> is_documented(#[trigger] edits@[i], answers@[i]),
    ensures
        r@.len() == edits@.len(),
        forall|i: int|
            0 <= i < r@.len() ==> #[trigger] r@[i] == finished(edits@[i], answers@[i], server_id),
{
    let ghost all_edits = edits@;
    let ghost all_answers = answers@;
    // The answers are turned round, so that the next one is at the end.
    let mut answers = answers;
    let mut left: Vec<CompletionAnswer<L, D>> = Vec::new();
    while answers.len() > 0
        invariant
            answers@.len() <= all_answers.len(),
            answers@ == all_answers.take(answers@.len() as int),
            left@ == all_answers.skip(answers@.len() as int).reverse(),
        decreases answers.len(),
    {
        if let Some(answer) = answers.pop() {
            left.push(answer);
            assert(left@ =~= all_answers.skip(answers@.len() as int).reverse());
        }
    }
    let mut finished_completions: Vec<Completion<L, D>> = Vec::new();
    for edit in it: edits
        invariant
            it.seq() == all_edits,
            all_answers.len() == all_edits.len(),
            left@ == all_answers.skip(it.index()).reverse(),
            finished_completions@.len() == it.index(),
            forall|i: int|
                0 <= i < all_edits.len() ==> is_documented(#[trigger] all_edits[i], all_answers[i]),
            forall|i: int|
                0 <= i < finished_completions@.len() ==> #[trigger] finished_completions@[i]
                    == finished(all_edits[i], all_answers[i], server_id),
    {
        assert(is_documented(all_edits[it.index()], all_answers[it.index()]));
        if let Some(answer) = left.pop() {
            assert(answer == all_answers[it.index()]);
            assert(left@ =~= all_answers.skip(it.index() + 1).reverse());
            let (lsp_completion, label) = match answer.adapted {
                Some(adapted) => (adapted.lsp_completion, adapted.label),
                None => (edit.lsp_completion, None),
            };
            finished_completions.push(
                completion(
                    edit.old_range,
                    answer.normalized_text,
                    lsp_completion,
                    label,
                    answer.documentation,
                    server_id,
                ),
            );
        }
    }
    finished_completions
}

}
