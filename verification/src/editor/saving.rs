//! How the buffers of an editor are saved and reloaded, and how an editor that was stored is
//! opened again.
use vstd::prelude::*;

use crate::editor::item::{Autoscroll, BufferId, MultiBuffer};

verus! {

/// How the text of a buffer differs from its file.
#[derive(Clone, Copy, Debug, PartialEq, Eq, Structural)]
pub struct BufferStatus {
    pub is_dirty: bool,
    pub has_conflict: bool,
}

/// Whether a buffer has something to save. A buffer that is gone has not.
pub open spec fn has_changes(status: Option<BufferStatus>) -> bool {
    status is Some && (status->0.is_dirty || status->0.has_conflict)
}

/// The buffers for which the status is such that there are changes, or that there are none.
pub open spec fn buffers_with(
    buffers: Seq<(BufferId, Option<BufferStatus>)>,
    changes: bool,
) -> Seq<BufferId>
    decreases buffers.len(),
{
    if buffers.len() == 0 {
        Seq::empty()
    } else {
        let rest = buffers_with(buffers.drop_last(), changes);
        if has_changes(buffers.last().1) == changes {
            rest.push(buffers.last().0)
        } else {
            rest
        }
    }
}

/// Parts the buffers with changes from those without.
pub fn partition_buffers(buffers: &Vec<(BufferId, Option<BufferStatus>)>) -> (r: (
    Vec<BufferId>,
    Vec<BufferId>,
))
    ensures
        r.0@ == buffers_with(buffers@, true),
        r.1@ == buffers_with(buffers@, false),
{
    let mut dirty_buffers: Vec<BufferId> = Vec::new();
    let mut clean_buffers: Vec<BufferId> = Vec::new();
    let mut i: usize = 0;
    while i < buffers.len()
        invariant
            i <= buffers.len(),
            dirty_buffers@ == buffers_with(buffers@.take(i as int), true),
            clean_buffers@ == buffers_with(buffers@.take(i as int), false),
        decreases buffers.len() - i,
    {
        let (id, status) = buffers[i];
        proof {
            let next = buffers@.take(i + 1);
            assert(next.drop_last() =~= buffers@.take(i as int));
            assert(next.last() == buffers@[i as int]);
        }
        let dirty = match status {
            Some(status) => status.is_dirty || status.has_conflict,
            None => false,
        };
        if dirty {
            dirty_buffers.push(id);
        } else {
            clean_buffers.push(id);
        }
        i = i + 1;
    }
    assert(buffers@.take(buffers.len() as int) =~= buffers@);
    (dirty_buffers, clean_buffers)
}

/// Each buffer is either saved or told that it was, and none is both.
pub proof fn law_every_buffer_hears_of_a_save(
    buffers: Seq<(BufferId, Option<BufferStatus>)>,
    i: int,
)
    requires
        0 <= i < buffers.len(),
    ensures
        buffers_with(buffers, true).len() + buffers_with(buffers, false).len() == buffers.len(),
        buffers_with(buffers, has_changes(buffers[i].1)).contains(buffers[i].0),
    decreases buffers.len(),
{
    let last = buffers.len() - 1;
    let rest = buffers.drop_last();
    let changes = has_changes(buffers[i].1);
    let parted = buffers_with(buffers, changes);
    if i < last {
        law_every_buffer_hears_of_a_save(rest, i);
        let before = buffers_with(rest, changes);
        let at = choose|at: int| 0 <= at < before.len() && before[at] == buffers[i].0;
        assert(parted[at] == buffers[i].0);
    } else {
        if last > 0 {
            law_every_buffer_hears_of_a_save(rest, 0);
        }
        assert(parted.last() == buffers[i].0);
    }
}

/// What is to be done next to save an editor.
#[derive(Debug)]
pub enum SaveAction<E> {
    /// Format the buffers.
    Format,
    /// Find out which buffers have changes.
    Inspect,
    /// Write the buffers that have changes, all of them together.
    Save(Vec<BufferId>),
    /// Tell the buffers that have none that they were saved, so that whoever follows them
    /// hears of it.
    DidSave(Vec<BufferId>),
    /// Nothing more: this is how it went.
    Finish(Result<(), E>),
}

/// What came of the last thing that was done.
#[derive(Debug)]
pub enum SaveEvent<E> {
    /// The buffers were formatted and written, or not.
    Done(Result<(), E>),
    /// The buffers have these states.
    Inspected(Vec<(BufferId, Option<BufferStatus>)>),
}

/// How far the saving of an editor has come.
#[derive(Debug)]
pub enum Save {
    Formatting,
    Inspecting,
    Saving { clean_buffers: Vec<BufferId> },
    Notifying,
    Finished,
}

impl Save {
    /// Starts to save an editor.
    pub fn start<E>(format: bool) -> (r: (Save, SaveAction<E>))
        ensures
            format ==> r == (Save::Formatting, SaveAction::<E>::Format),
            !format ==> r == (Save::Inspecting, SaveAction::<E>::Inspect),
    {
        if format {
            (Save::Formatting, SaveAction::Format)
        } else {
            (Save::Inspecting, SaveAction::Inspect)
        }
    }

    /// Whether the event is one of the kind that is waited for.
    pub open spec fn expects<E>(self, event: SaveEvent<E>) -> bool {
        match self {
            Save::Formatting | Save::Saving { .. } | Save::Notifying => event is Done,
            Save::Inspecting => event is Inspected,
            Save::Finished => false,
        }
    }

    /// Whether this is how it goes on after the event.
    pub open spec fn goes_on<E>(
        self,
        event: SaveEvent<E>,
        after: Save,
        action: SaveAction<E>,
    ) -> bool {
        match (self, event) {
            (Save::Formatting, SaveEvent::Done(Ok(_))) => {
                after == Save::Inspecting && action == SaveAction::<E>::Inspect
            },
            (Save::Inspecting, SaveEvent::Inspected(buffers)) => {
                &&& after matches Save::Saving { clean_buffers }
                &&& clean_buffers@ == buffers_with(buffers@, false)
                &&& action matches SaveAction::Save(dirty_buffers)
                &&& dirty_buffers@ == buffers_with(buffers@, true)
            },
            (Save::Saving { clean_buffers }, SaveEvent::Done(Ok(_))) => {
                after == Save::Notifying && action == SaveAction::<E>::DidSave(clean_buffers)
            },
            (Save::Notifying, SaveEvent::Done(_)) => {
                after == Save::Finished && action == SaveAction::<E>::Finish(Ok(()))
            },
            (_, SaveEvent::Done(Err(error))) => {
                after == Save::Finished && action == SaveAction::Finish(Err(error))
            },
            _ => false,
        }
    }

    /// Goes on after what was last asked for was done. The first failure to format or to write
    /// ends it; that a buffer is gone by the time it is told of the save is no failure.
    pub fn next<E>(self, event: SaveEvent<E>) -> (r: (Save, SaveAction<E>))
        requires
            self.expects(event),
        ensures
            self.goes_on(event, r.0, r.1),
    {
        match self {
            Save::Formatting => match event {
                SaveEvent::Done(Ok(())) => (Save::Inspecting, SaveAction::Inspect),
                SaveEvent::Done(Err(error)) => (Save::Finished, SaveAction::Finish(Err(error))),
                SaveEvent::Inspected(_) => (Save::Finished, SaveAction::Finish(Ok(()))),
            },
            Save::Inspecting => match event {
                SaveEvent::Inspected(buffers) => {
                    let (dirty_buffers, clean_buffers) = partition_buffers(&buffers);
                    (Save::Saving { clean_buffers }, SaveAction::Save(dirty_buffers))
                },
                SaveEvent::Done(_) => (Save::Finished, SaveAction::Finish(Ok(()))),
            },
            Save::Saving { clean_buffers } => match event {
                SaveEvent::Done(Ok(())) => (Save::Notifying, SaveAction::DidSave(clean_buffers)),
                SaveEvent::Done(Err(error)) => (Save::Finished, SaveAction::Finish(Err(error))),
                SaveEvent::Inspected(_) => (Save::Finished, SaveAction::Finish(Ok(()))),
            },
            Save::Notifying | Save::Finished => (Save::Finished, SaveAction::Finish(Ok(()))),
        }
    }
}

/// A save that does not fail first writes the buffers that have changes, then tells the others,
/// and then is over.
pub proof fn law_save_writes_then_tells<E>(
    buffers: Vec<(BufferId, Option<BufferStatus>)>,
    saving: Save,
    save: SaveAction<E>,
    notifying: Save,
    did_save: SaveAction<E>,
    told: Result<(), E>,
    finished: Save,
    finish: SaveAction<E>,
)
    requires
        Save::Inspecting.goes_on(SaveEvent::Inspected(buffers), saving, save),
        saving.goes_on(SaveEvent::Done(Ok(())), notifying, did_save),
        notifying.goes_on(SaveEvent::Done(told), finished, finish),
    ensures
        save matches SaveAction::Save(dirty) && dirty@ == buffers_with(buffers@, true),
        did_save matches SaveAction::DidSave(clean) && clean@ == buffers_with(buffers@, false),
        finish == SaveAction::<E>::Finish(Ok(())),
        finished == Save::Finished,
{
}

/// A failure to format or to write is what the save comes to, and no buffer is told of it.
pub proof fn law_save_fails_with_the_failure<E>(
    save: Save,
    error: E,
    after: Save,
    action: SaveAction<E>,
)
    requires
        save is Formatting || save is Saving,
        save.goes_on(SaveEvent::Done(Err(error)), after, action),
    ensures
        after == Save::Finished,
        action == SaveAction::Finish(Err(error)),
{
}

/// The buffer that is saved under another name. Excerpts have no file of their own.
pub fn save_as(buffer: &MultiBuffer) -> (r: BufferId)
    requires
        buffer.singleton() is Some,
    ensures
        r == buffer.singleton()->0.id,
{
    match buffer {
        MultiBuffer::Singleton(buffer) => buffer.id,
        MultiBuffer::Excerpts(_) => 0,
    }
}

/// What is left to do once the buffers of an editor were reloaded.
#[derive(Debug)]
pub struct Reloaded<T> {
    pub autoscroll: Autoscroll,
    /// What the excerpts are to count as one change.
    pub push_transaction: Option<T>,
}

/// Goes on after the buffers were reloaded. The editor scrolls to its cursor even if that failed.
/// A single buffer has the change in its own history.
pub fn reloaded<T>(buffer: &MultiBuffer, transaction: Option<T>) -> (r: Reloaded<T>)
    ensures
        r == (Reloaded {
            autoscroll: Autoscroll::Fit,
            push_transaction: if buffer.singleton() is None {
                transaction
            } else {
                None
            },
        }),
{
    let push_transaction = match buffer {
        MultiBuffer::Singleton(_) => None,
        MultiBuffer::Excerpts(_) => transaction,
    };
    Reloaded { autoscroll: Autoscroll::Fit, push_transaction }
}

/// Why an editor that was stored cannot be opened again.
#[derive(Debug)]
pub enum DeserializeError<E> {
    /// The database or the project failed.
    Failed(E),
    /// The database has no path for the editor.
    NoPath,
    /// The path is in no worktree of the project.
    NoWorktree { path: String },
    /// What is at the path is no text.
    NotABuffer,
}

/// What a path is written as by `{:?}` for a `std::path::Path`.
pub uninterp spec fn path_in_quotes(path: Seq<char>) -> Seq<char>;

/// Writes a path as the `Debug` of `std::path::Path` does: between quotes, with what cannot be
/// shown escaped. It is a function of the path. Which characters are escaped, and how, is left to
/// it.
#[verifier::external_body]
fn quote_path(path: &str) -> (r: String)
    ensures
        r@ == path_in_quotes(path@),
{
    format!("{:?}", std::path::Path::new(path))
}

impl<E> DeserializeError<E> {
    /// What is wrong, unless something else says so. Where a path is at fault, it is named.
    pub open spec fn explanation(self) -> Option<Seq<char>> {
        match self {
            DeserializeError::Failed(_) => None,
            DeserializeError::NoPath => Some("No path stored for this editor"@),
            DeserializeError::NoWorktree { path } => Some(
                "No worktree for path: "@ + path_in_quotes(path@),
            ),
            DeserializeError::NotABuffer => Some("Project item at stored path was not a buffer"@),
        }
    }

    /// What is wrong, unless something else says so.
    pub fn message(&self) -> (r: Option<String>)
        ensures
            match r {
                Some(message) => self.explanation() == Some(message@),
                None => self.explanation() is None,
            },
    {
        match self {
            DeserializeError::Failed(_) => None,
            DeserializeError::NoPath => Some("No path stored for this editor".to_string()),
            DeserializeError::NoWorktree { path } => {
                let mut message = "No worktree for path: ".to_string();
                message.append(quote_path(path.as_str()).as_str());
                Some(message)
            },
            DeserializeError::NotABuffer => {
                Some("Project item at stored path was not a buffer".to_string())
            },
        }
    }
}

/// A path within a worktree.
#[derive(Debug)]
pub struct ProjectPath {
    pub worktree_id: u64,
    pub path: String,
}

/// What a project opens at a path.
#[derive(Clone, Copy, Debug, PartialEq, Eq, Structural)]
pub enum ProjectItem {
    Buffer(BufferId),
    Other,
}

/// The path that is stored for an editor, from what the database answers.
pub fn stored_path<E>(answer: Result<Option<String>, E>) -> (r: Result<
    String,
    DeserializeError<E>,
>)
    ensures
        r == match answer {
            Ok(Some(path)) => Ok(path),
            Ok(None) => Err(DeserializeError::NoPath),
            Err(error) => Err(DeserializeError::Failed(error)),
        },
{
    match answer {
        Ok(Some(path)) => Ok(path),
        Ok(None) => Err(DeserializeError::NoPath),
        Err(error) => Err(DeserializeError::Failed(error)),
    }
}

/// The path to open, from the worktree that the project finds for the stored one.
pub fn path_to_open<E>(path: String, found: Option<(u64, String)>) -> (r: Result<
    ProjectPath,
    DeserializeError<E>,
>)
    ensures
        r == match found {
            Some((worktree_id, path)) => Ok(ProjectPath { worktree_id, path }),
            None => Err(DeserializeError::<E>::NoWorktree { path }),
        },
{
    match found {
        Some((worktree_id, path)) => Ok(ProjectPath { worktree_id, path }),
        None => Err(DeserializeError::NoWorktree { path }),
    }
}

/// The buffer to edit, from what the project opened.
pub fn buffer_to_edit<E>(opened: Result<ProjectItem, E>) -> (r: Result<
    BufferId,
    DeserializeError<E>,
>)
    ensures
        r == match opened {
            Ok(ProjectItem::Buffer(id)) => Ok(id),
            Ok(ProjectItem::Other) => Err(DeserializeError::NotABuffer),
            Err(error) => Err(DeserializeError::Failed(error)),
        },
{
    match opened {
        Ok(ProjectItem::Buffer(id)) => Ok(id),
        Ok(ProjectItem::Other) => Err(DeserializeError::NotABuffer),
        Err(error) => Err(DeserializeError::Failed(error)),
    }
}

}
