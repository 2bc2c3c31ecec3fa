//! What a server would change: code actions, renames, and what formats as it is typed.
use std::ops::Range;
use vstd::prelude::*;

use crate::editor::search::Anchor;
use crate::lsp_command::command::{GetCodeActions, OnTypeFormatting, PerformRename};
use crate::lsp_command::protocol::{language_server_for_buffer, LanguageServerId, LspError};

verus! {

/// Something that a server offers to do: a change that it describes, or a command of its own.
#[derive(Debug)]
pub enum CodeActionOrCommand<A, C> {
    CodeAction(A),
    Command(C),
}

/// A change that a server offers for a range of the text.
#[derive(Debug)]
pub struct CodeAction<A> {
    pub server_id: LanguageServerId,
    pub range: Range<Anchor>,
    pub lsp_action: A,
}

/// The changes among the things that a server offers, for a range of the text.
pub open spec fn code_actions<A, C>(
    entries: Seq<CodeActionOrCommand<A, C>>,
    range: Range<Anchor>,
    server_id: LanguageServerId,
) -> Seq<CodeAction<A>>
    decreases entries.len(),
{
    if entries.len() == 0 {
        Seq::empty()
    } else {
        let rest = code_actions(entries.drop_last(), range, server_id);
        match entries.last() {
            CodeActionOrCommand::CodeAction(lsp_action) => rest.push(
                CodeAction { server_id, range, lsp_action },
            ),
            CodeActionOrCommand::Command(_) => rest,
        }
    }
}

impl GetCodeActions {
    /// The changes that a server offers. Its own commands are left out.
    pub fn response_from_lsp<A, C>(
        self,
        actions: Option<Vec<CodeActionOrCommand<A, C>>>,
        server_id: LanguageServerId,
    ) -> (r: Vec<CodeAction<A>>)
        ensures
            r@ == match actions {
                Some(actions) => code_actions(actions@, self.range, server_id),
                None => Seq::empty(),
            },
    {
        let mut offered: Vec<CodeAction<A>> = Vec::new();
        let actions = match actions {
            Some(actions) => actions,
            None => {
                return offered;
            },
        };
        let ghost all = actions@;
        for entry in it: actions
            invariant
                it.seq() == all,
                offered@ == code_actions(all.take(it.index()), self.range, server_id),
        {
            proof {
                let next = all.take(it.index() + 1);
                assert(next.drop_last() =~= all.take(it.index()));
                assert(next.last() == entry);
            }
            match entry {
                CodeActionOrCommand::CodeAction(lsp_action) => {
                    let range = Range { start: self.range.start, end: self.range.end };
                    offered.push(CodeAction { server_id, range, lsp_action });
                },
                CodeActionOrCommand::Command(_) => {},
            }
        }
        assert(all.take(all.len() as int) =~= all);
        offered
    }
}

/// Everything that is offered comes from the server that was asked, for the range that it was
/// asked about.
pub proof fn law_actions_are_for_the_range<A, C>(
    entries: Seq<CodeActionOrCommand<A, C>>,
    range: Range<Anchor>,
    server_id: LanguageServerId,
    i: int,
)
    requires
        0 <= i < code_actions(entries, range, server_id).len(),
    ensures
        code_actions(entries, range, server_id)[i].range == range,
        code_actions(entries, range, server_id)[i].server_id == server_id,
        entries.contains(
            CodeActionOrCommand::CodeAction(code_actions(entries, range, server_id)[i].lsp_action),
        ),
    decreases entries.len(),
{
    let rest = entries.drop_last();
    let before = code_actions(rest, range, server_id);
    let action = code_actions(entries, range, server_id)[i];
    if i < before.len() {
        law_actions_are_for_the_range(rest, range, server_id, i);
        assert(action == before[i]);
        let k = choose|k: int|
            0 <= k < rest.len() && rest[k] == CodeActionOrCommand::<A, C>::CodeAction(
                action.lsp_action,
            );
        assert(entries[k] == CodeActionOrCommand::<A, C>::CodeAction(action.lsp_action));
    } else {
        assert(entries[entries.len() - 1] == CodeActionOrCommand::<A, C>::CodeAction(
            action.lsp_action,
        ));
    }
}

/// Edits that the project is to apply, on behalf of a server.
#[derive(Debug)]
pub struct EditsToApply<T, S> {
    pub edits: T,
    pub push_to_history: bool,
    pub server: S,
}

/// What an answer with edits makes of a request: nothing without an answer, whatever the project
/// says; else the project must have a server for the buffer.
pub open spec fn edits_outcome<T, S, E>(
    message: Option<T>,
    push_to_history: bool,
    server: Result<Option<S>, E>,
) -> Result<Option<EditsToApply<T, S>>, LspError<E>> {
    match (message, server) {
        (None, _) => Ok(None),
        (Some(edits), Ok(Some(server))) => Ok(
            Some(EditsToApply { edits, push_to_history, server }),
        ),
        (Some(_), Ok(None)) => Err(LspError::NoLanguageServerForBuffer),
        (Some(_), Err(error)) => Err(LspError::Failed(error)),
    }
}

fn edits_from_lsp<T, S, E>(
    message: Option<T>,
    push_to_history: bool,
    server: Result<Option<S>, E>,
) -> (r: Result<Option<EditsToApply<T, S>>, LspError<E>>)
    ensures
        r == edits_outcome(message, push_to_history, server),
{
    match message {
        Some(edits) => match language_server_for_buffer(server) {
            Ok(server) => Ok(Some(EditsToApply { edits, push_to_history, server })),
            Err(error) => Err(error),
        },
        None => Ok(None),
    }
}

impl PerformRename {
    /// The edits that rename something, throughout the workspace. Without any, nothing changes.
    pub fn response_from_lsp<T, S, E>(
        self,
        message: Option<T>,
        server: Result<Option<S>, E>,
    ) -> (r: Result<Option<EditsToApply<T, S>>, LspError<E>>)
        ensures
            r == edits_outcome(message, self.push_to_history, server),
    {
        edits_from_lsp(message, self.push_to_history, server)
    }
}

impl OnTypeFormatting {
    /// The edits that follow what was typed. Without any, nothing changes.
    pub fn response_from_lsp<T, S, E>(
        self,
        message: Option<T>,
        server: Result<Option<S>, E>,
    ) -> (r: Result<Option<EditsToApply<T, S>>, LspError<E>>)
        ensures
            r == edits_outcome(message, self.push_to_history, server),
    {
        edits_from_lsp(message, self.push_to_history, server)
    }
}

}
