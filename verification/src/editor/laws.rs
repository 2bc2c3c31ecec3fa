//! What holds of editors, their tabs and their files, whatever they show.
use vstd::prelude::*;

use crate::editor::item::{
    Autoscroll, BreadcrumbText, BufferFile, BufferId, Editor, EditorEvent, ItemEvent,
    MultiBuffer, NavigationData, OutlineItem,
};
use crate::editor::labels::GitFileStatus;
use crate::editor::saving::{BufferStatus, DeserializeError, Save, SaveAction, SaveEvent};
use crate::ui::color::Color;

verus! {

/// An editor goes to a place exactly where its cursor, that is the moving end of its newest
/// selection, is elsewhere. Then the cursor is all that is selected, right at the place: where its
/// anchor is now, or else where its position is in the text now. What was at the top is at the top
/// again, or the row that it was in, as far from the corner as it was. All else stays, and nothing
/// changes where it does not go.
pub proof fn law_going_to_a_place(
    before: Editor,
    after: Editor,
    data: Option<NavigationData>,
    went: bool,
)
    requires
        before.selections@.len() > 0,
        went == before.leads_elsewhere(data),
        !went ==> after == before,
        went ==> before.moved(after, data->0),
    ensures
        data is None ==> !went && after == before,
        data matches Some(place) ==> {
            let newest = before.selections@[before.selections@.len() - 1];
            let cursor = if newest.reversed {
                newest.start
            } else {
                newest.end
            };
            let there = if place.cursor is Some {
                place.cursor->0
            } else {
                place.clipped_cursor
            };
            &&& went <==> cursor != there
            &&& !went ==> after == before
            &&& went ==> {
                &&& after.selections@.len() == 1
                &&& after.selections@[0].start == there
                &&& after.selections@[0].end == there
                &&& !after.selections@[0].reversed
                &&& place.can_resolve_scroll_anchor ==> after.scroll_anchor.anchor
                    == place.scroll_anchor.anchor
                &&& !place.can_resolve_scroll_anchor ==> after.scroll_anchor.anchor
                    == place.scroll_top_anchor
                &&& after.scroll_anchor.offset_x == place.scroll_anchor.offset_x
                &&& after.scroll_anchor.offset_y == place.scroll_anchor.offset_y
                &&& after.autoscroll == Some(Autoscroll::Fit)
                &&& after.buffer == before.buffer
                &&& after.nav_history == before.nav_history
                &&& after.workspace == before.workspace
                &&& after.show_breadcrumbs == before.show_breadcrumbs
            }
        },
{
}

/// Only a buffer that is shown whole counts as the one that an editor shows, with its file where
/// it has one. The buffers that an editor shows are that one, or all that it has excerpts of.
pub proof fn law_what_an_editor_shows(shown: MultiBuffer)
    ensures
        match shown {
            MultiBuffer::Singleton(buffer) => {
                &&& shown.singleton() == Some(buffer)
                &&& shown.singleton_file() == buffer.file
                &&& shown.ids().len() == 1
                &&& shown.ids()[0] == buffer.id
            },
            MultiBuffer::Excerpts(buffers) => {
                &&& shown.singleton() is None
                &&& shown.singleton_file() is None
                &&& shown.ids().len() == buffers@.len()
                &&& forall|i: int|
                    0 <= i < buffers@.len() ==> #[trigger] shown.ids()[i] == buffers@[i].id
            },
        },
{
}

/// The path that is stored for an editor is where the file that it shows whole is on this machine,
/// and there is none for anything else.
pub proof fn law_what_is_stored_of_an_editor(editor: Editor)
    ensures
        match editor.buffer {
            MultiBuffer::Singleton(buffer) => match buffer.file {
                Some(file) => editor.path_to_store() == file.abs_path,
                None => editor.path_to_store() is None,
            },
            MultiBuffer::Excerpts(_) => editor.path_to_store() is None,
        },
{
}

/// The label of a file that is ignored looks disabled, else one that was added, modified or is in
/// conflict looks like that, and else it is muted unless it is selected.
pub proof fn law_what_labels_look_like(
    git_status: Option<GitFileStatus>,
    ignored: bool,
    selected: bool,
)
    ensures
        ({
            let color = crate::editor::labels::git_label_color(git_status, ignored, selected);
            &&& color == Color::Disabled <==> ignored
            &&& color == Color::Created <==> !ignored && git_status == Some(GitFileStatus::Added)
            &&& color == Color::Modified <==> !ignored && git_status == Some(
                GitFileStatus::Modified,
            )
            &&& color == Color::Conflict <==> !ignored && git_status == Some(
                GitFileStatus::Conflict,
            )
            &&& color == Color::Default <==> !ignored && git_status is None && selected
            &&& color == Color::Muted <==> !ignored && git_status is None && !selected
        }),
        crate::editor::labels::plain_label_color(selected) == Color::Default <==> selected,
        crate::editor::labels::plain_label_color(selected) == Color::Muted <==> !selected,
{
}

/// The title of a tab looks like the label of its file exactly where that is to be shown, and the
/// file is shown whole, in the project, and known to it. Else it is muted unless it is selected.
pub proof fn law_what_tab_titles_look_like(editor: Editor, show_git_status: bool, selected: bool)
    ensures
        ({
            let color = editor.title_color(show_git_status, selected);
            let plain = if selected {
                Color::Default
            } else {
                Color::Muted
            };
            match editor.buffer {
                MultiBuffer::Singleton(buffer) => match buffer.file {
                    Some(BufferFile { in_project: true, entry: Some(entry), .. }) => {
                        if show_git_status {
                            color == crate::editor::labels::git_label_color(
                                entry.git_status,
                                entry.is_ignored,
                                selected,
                            )
                        } else {
                            color == plain
                        }
                    },
                    _ => color == plain,
                },
                MultiBuffer::Excerpts(_) => color == plain,
            }
        }),
{
}

/// What is shown of the path of a file: as many directories as asked for, with the name of the
/// file, or all of the full path where the path has not that many; without the name where it is to
/// be left off, and then nothing where there is none.
pub proof fn law_how_much_of_a_path_is_shown(
    path: crate::paths::FilePathView,
    full_path: crate::paths::FilePathView,
    height: nat,
)
    ensures
        ({
            let with_name = crate::editor::paths::shown_path(path, full_path, height, true);
            let without_name = crate::editor::paths::shown_path(path, full_path, height, false);
            let len = path.components.len() as int;
            let full_len = full_path.components.len() as int;
            if height < len {
                &&& with_name is Some && without_name is Some
                &&& !with_name->0.absolute && !without_name->0.absolute
                &&& with_name->0.components == path.components.subrange(len - height - 1, len)
                &&& without_name->0.components == path.components.subrange(
                    len - height - 1,
                    len - 1,
                )
            } else {
                &&& with_name == Some(full_path)
                &&& without_name is Some <==> full_len > 0
                &&& full_len > 0 ==> {
                    &&& without_name->0.absolute == full_path.absolute
                    &&& without_name->0.components == full_path.components.subrange(
                        0,
                        full_len - 1,
                    )
                }
            }
        }),
{
    let len = path.components.len() as int;
    if height < len {
        assert(path.tail(height as int + 1).components =~= path.components.subrange(
            len - height - 1,
            len,
        ));
        assert(path.tail(height as int + 1).components.drop_last() =~= path.components.subrange(
            len - height - 1,
            len - 1,
        ));
    } else if full_path.components.len() > 0 {
        assert(full_path.components.drop_last() =~= full_path.components.subrange(
            0,
            full_path.components.len() - 1,
        ));
    }
}

/// A tab describes its file only where directories are asked for and a file is shown whole: by
/// what is shown of its path without its name, as it is written and without the white space at its
/// ends, unless nothing is left.
pub proof fn law_how_tabs_describe_their_files(editor: Editor, detail: Option<usize>)
    ensures
        detail is None ==> editor.description(detail) is None,
        editor.buffer is Excerpts ==> editor.description(detail) is None,
        editor.buffer matches MultiBuffer::Singleton(buffer) ==> match (detail, buffer.file) {
            (Some(detail), Some(file)) => {
                let described = editor.description(Some(detail));
                match crate::editor::paths::shown_path(
                    file.file.path@,
                    file.file.full_path@,
                    detail as nat,
                    false,
                ) {
                    Some(shown) => {
                        let text = crate::text::trimmed(shown.text());
                        &&& text.len() > 0 ==> described == Some(text)
                        &&& text.len() == 0 ==> described is None
                    },
                    None => described is None,
                }
            },
            _ => editor.description(detail) is None,
        },
{
}

/// As much of a description is shown as fits into 24 characters.
pub proof fn law_how_long_descriptions_are()
    ensures
        crate::editor::item::MAX_TAB_TITLE_LEN == 24,
{
}

/// A path is written as its names with a slash between each two, and with one before them all
/// where it starts at the root.
pub proof fn law_how_paths_are_written(
    first: Seq<String>,
    second: Seq<String>,
    name: String,
    path: crate::paths::FilePathView,
)
    ensures
        crate::paths::slashed(Seq::empty()).len() == 0,
        crate::paths::slashed(seq![name]) == name@,
        first.len() > 0 && second.len() > 0 ==> crate::paths::slashed(first + second)
            == crate::paths::slashed(first) + "/"@ + crate::paths::slashed(second),
        path.absolute ==> path.text() == "/"@ + crate::paths::slashed(path.components),
        !path.absolute ==> path.text() == crate::paths::slashed(path.components),
    decreases second.len(),
{
    if first.len() > 0 && second.len() == 1 {
        assert((first + second).drop_last() =~= first);
        assert((first + second).last() == second[0]);
    } else if first.len() > 0 && second.len() > 1 {
        let rest = second.drop_last();
        law_how_paths_are_written(first, rest, name, path);
        assert((first + second).drop_last() =~= first + rest);
        assert((first + second).last() == second.last());
        assert(crate::paths::slashed(first + second) =~= crate::paths::slashed(first) + "/"@
            + crate::paths::slashed(second));
    }
}

/// A path has a parent exactly where it has names: all of them but the last, from the same start.
pub proof fn law_parents_of_paths(path: crate::paths::FilePathView, last: String)
    ensures
        path.components.len() == 0 ==> path.parent() is None,
        (crate::paths::FilePathView {
            components: path.components.push(last),
            ..path
        }).parent() == Some(path),
{
    assert(path.components.push(last).drop_last() =~= path.components);
}

/// Two paths are the same exactly where they start at the same place and have the same names.
pub proof fn law_same_paths_have_the_same_names(
    a: crate::paths::FilePath,
    b: crate::paths::FilePath,
)
    ensures
        a.key() == b.key() <==> {
            &&& a.absolute == b.absolute
            &&& a.components@.len() == b.components@.len()
            &&& forall|i: int|
                #![trigger a.components@[i]]
                0 <= i < a.components@.len() ==> a.components@[i]@ == b.components@[i]@
        },
{
    if a.key() == b.key() {
        assert(a.key().names.len() == b.key().names.len());
        assert forall|i: int| #![trigger a.components@[i]] 0 <= i < a.components@.len() implies
            a.components@[i]@ == b.components@[i]@ by {
            assert(a.key().names[i] == b.key().names[i]);
        }
    } else if a.absolute == b.absolute && a.components@.len() == b.components@.len() && (forall|
        i: int,
    |
        #![trigger a.components@[i]]
        0 <= i < a.components@.len() ==> a.components@[i]@ == b.components@[i]@) {
        assert(a.key().names =~= b.key().names);
    }
}

/// The breadcrumbs are the name of the file, and after it, in order, the symbols as they are.
pub proof fn law_breadcrumbs_lead_to_the_cursor<H>(
    filename: Seq<char>,
    symbols: Seq<OutlineItem<H>>,
    breadcrumbs: Seq<BreadcrumbText<H>>,
)
    requires
        crate::editor::item::crumbs(filename, symbols, breadcrumbs),
    ensures
        breadcrumbs.len() == symbols.len() + 1,
        breadcrumbs[0].text@ == filename,
        breadcrumbs[0].highlights is None,
        forall|i: int|
            #![trigger symbols[i]]
            0 <= i < symbols.len() ==> {
                &&& breadcrumbs[i + 1].text == symbols[i].text
                &&& breadcrumbs[i + 1].highlights == Some(symbols[i].highlight_ranges)
            },
{
}

/// What a workspace is told: to close an editor that was closed; to draw its tab anew where its
/// title changed, it was saved, or it got or lost changes; its breadcrumbs where its title or its
/// text changed, it was saved or parsed, or its selections were changed here; and that it was
/// edited where its text or its excerpts changed. Each is told once, an edit and a tab first.
pub proof fn law_what_a_workspace_is_told(event: EditorEvent)
    ensures
        ({
            let events = crate::editor::item::item_events(event);
            &&& events.contains(ItemEvent::CloseItem) <==> event is Closed
            &&& events.contains(ItemEvent::UpdateTab) <==> event is Saved || event is TitleChanged
                || event is DirtyChanged
            &&& events.contains(ItemEvent::UpdateBreadcrumbs) <==> event is Saved
                || event is TitleChanged || event is Reparsed || event is BufferEdited || event
                == (EditorEvent::SelectionsChanged { local: true })
            &&& events.contains(ItemEvent::Edit) <==> event is BufferEdited
                || event is ExcerptsAdded || event is ExcerptsRemoved
            &&& events.no_duplicates()
            &&& forall|i: int|
                0 < i < events.len() ==> #[trigger] events[i] == ItemEvent::UpdateBreadcrumbs
        }),
{
    let events = crate::editor::item::item_events(event);
    if events.len() > 0 {
        assert(events.contains(events[0]));
    }
    if events.len() > 1 {
        assert(events.contains(events[1]));
    }
}

/// Every buffer is by itself among those with changes or among those without: among the former
/// exactly where it is there and is dirty or in conflict. Those of joined lists follow each other.
pub proof fn law_buffers_are_parted_by_their_changes(
    id: BufferId,
    status: Option<BufferStatus>,
    first: Seq<(BufferId, Option<BufferStatus>)>,
    second: Seq<(BufferId, Option<BufferStatus>)>,
    changes: bool,
)
    ensures
        crate::editor::saving::buffers_with(Seq::empty(), changes).len() == 0,
        ({
            let changed = match status {
                Some(status) => status.is_dirty || status.has_conflict,
                None => false,
            };
            &&& changed ==> {
                &&& crate::editor::saving::buffers_with(seq![(id, status)], true) == seq![id]
                &&& crate::editor::saving::buffers_with(seq![(id, status)], false).len() == 0
            }
            &&& !changed ==> {
                &&& crate::editor::saving::buffers_with(seq![(id, status)], true).len() == 0
                &&& crate::editor::saving::buffers_with(seq![(id, status)], false) == seq![id]
            }
        }),
        crate::editor::saving::buffers_with(first + second, changes)
            == crate::editor::saving::buffers_with(first, changes)
            + crate::editor::saving::buffers_with(second, changes),
    decreases second.len(),
{
    reveal_with_fuel(crate::editor::saving::buffers_with, 2);
    assert(seq![(id, status)].drop_last() =~= Seq::empty());
    if second.len() == 0 {
        assert(first + second =~= first);
        assert(crate::editor::saving::buffers_with(first, changes)
            + crate::editor::saving::buffers_with(second, changes)
            =~= crate::editor::saving::buffers_with(first, changes));
    } else {
        let rest = second.drop_last();
        law_buffers_are_parted_by_their_changes(id, status, first, rest, changes);
        assert((first + second).drop_last() =~= first + rest);
        assert((first + second).last() == second.last());
        assert(crate::editor::saving::buffers_with(first + second, changes)
            =~= crate::editor::saving::buffers_with(first, changes)
            + crate::editor::saving::buffers_with(second, changes));
    }
}

/// How a save goes on. Formatted buffers are looked at; of those looked at, the ones with changes
/// are written; once these are written the others are told; and then it is over. What is waited
/// for is what came of that.
pub proof fn law_how_a_save_goes_on<E>(
    save: Save,
    event: SaveEvent<E>,
    after: Save,
    action: SaveAction<E>,
)
    requires
        save.expects(event),
        save.goes_on(event, after, action),
    ensures
        match save {
            Save::Formatting => {
                &&& event is Done
                &&& event->Done_0 is Ok ==> after is Inspecting && action is Inspect
                &&& event->Done_0 matches Err(error) ==> after is Finished && action
                    == SaveAction::<E>::Finish(Err(error))
            },
            Save::Inspecting => {
                &&& event matches SaveEvent::Inspected(buffers)
                &&& after matches Save::Saving { clean_buffers }
                &&& action matches SaveAction::Save(dirty_buffers)
                &&& clean_buffers@ == crate::editor::saving::buffers_with(buffers@, false)
                &&& dirty_buffers@ == crate::editor::saving::buffers_with(buffers@, true)
            },
            Save::Saving { clean_buffers } => {
                &&& event is Done
                &&& event->Done_0 is Ok ==> after is Notifying && action
                    == SaveAction::<E>::DidSave(clean_buffers)
                &&& event->Done_0 matches Err(error) ==> after is Finished && action
                    == SaveAction::<E>::Finish(Err(error))
            },
            Save::Notifying => {
                &&& event is Done
                &&& after is Finished
                &&& action == SaveAction::<E>::Finish(Ok(()))
            },
            Save::Finished => false,
        },
{
}

/// What a save waits for: what came of formatting, writing or telling, or of looking at buffers;
/// nothing once it is over.
pub proof fn law_what_a_save_waits_for<E>(save: Save, event: SaveEvent<E>)
    ensures
        save is Formatting || save is Saving || save is Notifying ==> (save.expects(event)
            <==> event is Done),
        save is Inspecting ==> (save.expects(event) <==> event is Inspected),
        save is Finished ==> !save.expects(event),
{
}

/// What is said where an editor that was stored cannot be opened again. A path that is in no
/// worktree is named; a failure speaks for itself.
pub proof fn law_why_editors_are_not_opened_again<E>(error: DeserializeError<E>)
    ensures
        match error {
            DeserializeError::Failed(_) => error.explanation() is None,
            DeserializeError::NoPath => error.explanation() == Some(
                "No path stored for this editor"@,
            ),
            DeserializeError::NoWorktree { path } => error.explanation() == Some(
                "No worktree for path: "@ + crate::editor::saving::path_in_quotes(path@),
            ),
            DeserializeError::NotABuffer => error.explanation() == Some(
                "Project item at stored path was not a buffer"@,
            ),
        },
{
}

}
