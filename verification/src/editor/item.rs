//! An editor among the items of a workspace: its tab, its breadcrumbs, how it is navigated and
//! how it follows the workspace that it is in.
use vstd::prelude::*;

use crate::editor::labels::{entry_git_aware_label_color, entry_label_color, GitFileStatus};
use crate::editor::paths::{path_for_buffer, File};
use crate::editor::search::Anchor;
use crate::text::trim;
use crate::ui::color::Color;

verus! {

/// How many characters of its description a tab shows.
pub const MAX_TAB_TITLE_LEN: usize = 24;

pub type BufferId = u64;

pub type ItemId = u64;

pub type WorkspaceId = i64;

pub type NavHistoryId = u64;

/// A place in a text.
#[derive(Clone, Copy, Debug, PartialEq, Eq, Structural)]
pub struct Point {
    pub row: u32,
    pub column: u32,
}

/// What the project knows of a file.
#[derive(Clone, Copy, Debug, PartialEq, Eq, Structural)]
pub struct Entry {
    pub git_status: Option<GitFileStatus>,
    pub is_ignored: bool,
}

/// The file of a buffer, as the editor sees it.
#[derive(Debug)]
pub struct BufferFile {
    pub file: File,
    /// The absolute path, for a file on this machine.
    pub abs_path: Option<String>,
    /// The same with the home directory abbreviated.
    pub compact_path: Option<String>,
    /// Whether the file is in a worktree of the project.
    pub in_project: bool,
    /// The entry of the file in the project.
    pub entry: Option<Entry>,
}

/// A buffer that an editor shows.
#[derive(Debug)]
pub struct Buffer {
    pub id: BufferId,
    pub file: Option<BufferFile>,
}

/// What an editor shows: one buffer whole, or excerpts of any number of them.
#[derive(Debug)]
pub enum MultiBuffer {
    Singleton(Buffer),
    Excerpts(Vec<Buffer>),
}

impl MultiBuffer {
    /// The buffer that is shown whole.
    pub open spec fn singleton(self) -> Option<Buffer> {
        match self {
            MultiBuffer::Singleton(buffer) => Some(buffer),
            MultiBuffer::Excerpts(_) => None,
        }
    }

    /// The file of the buffer that is shown whole.
    pub open spec fn singleton_file(self) -> Option<BufferFile> {
        match self {
            MultiBuffer::Singleton(buffer) => buffer.file,
            MultiBuffer::Excerpts(_) => None,
        }
    }

    /// The buffer that is shown whole, if one is.
    pub fn as_singleton(&self) -> (r: Option<&Buffer>)
        ensures
            match r {
                Some(buffer) => self.singleton() == Some(*buffer),
                None => self.singleton() is None,
            },
    {
        match self {
            MultiBuffer::Singleton(buffer) => Some(buffer),
            MultiBuffer::Excerpts(_) => None,
        }
    }

    /// The ids of the buffers that are shown, in order.
    pub open spec fn ids(self) -> Seq<BufferId> {
        match self {
            MultiBuffer::Singleton(buffer) => seq![buffer.id],
            MultiBuffer::Excerpts(buffers) => buffers@.map_values(|buffer: Buffer| buffer.id),
        }
    }

    /// The ids of the buffers that are shown, in order.
    pub fn buffer_ids(&self) -> (r: Vec<BufferId>)
        ensures
            r@ == self.ids(),
    {
        let mut ids: Vec<BufferId> = Vec::new();
        match self {
            MultiBuffer::Singleton(buffer) => ids.push(buffer.id),
            MultiBuffer::Excerpts(buffers) => {
                let mut i: usize = 0;
                while i < buffers.len()
                    invariant
                        i <= buffers.len(),
                        ids@.len() == i,
                        forall|j: int| 0 <= j < i ==> #[trigger] ids@[j] == buffers@[j].id,
                    decreases buffers.len() - i,
                {
                    ids.push(buffers[i].id);
                    i = i + 1;
                }
            },
        }
        assert(ids@ =~= self.ids());
        ids
    }

    fn as_singleton_file(&self) -> (r: Option<&BufferFile>)
        ensures
            match r {
                Some(file) => self.singleton_file() == Some(*file),
                None => self.singleton_file() is None,
            },
    {
        match self {
            MultiBuffer::Singleton(buffer) => match &buffer.file {
                Some(file) => Some(file),
                None => None,
            },
            MultiBuffer::Excerpts(_) => None,
        }
    }
}

/// A selection of text.
#[derive(Clone, Copy, Debug, PartialEq, Eq, Structural)]
pub struct Selection {
    pub start: Point,
    pub end: Point,
    pub reversed: bool,
}

impl Selection {
    /// The end of the selection at which the cursor is.
    pub open spec fn cursor(self) -> Point {
        if self.reversed {
            self.start
        } else {
            self.end
        }
    }

    /// The end of the selection at which the cursor is.
    pub fn head(&self) -> (r: Point)
        ensures
            r == self.cursor(),
    {
        if self.reversed {
            self.start
        } else {
            self.end
        }
    }
}

/// What is at the top of an editor, as far as it is scrolled.
#[derive(Clone, Copy, Debug, PartialEq, Eq, Structural)]
pub struct ScrollAnchor {
    pub anchor: Anchor,
    /// How far the anchor is from the corner, as the bits of the two coordinates.
    pub offset_x: u32,
    pub offset_y: u32,
}

/// A place in the history of an editor, with what has become of it in the text as it is now.
#[derive(Clone, Copy, Debug, PartialEq, Eq, Structural)]
pub struct NavigationData {
    /// Where the anchor of the cursor is now, if the text still has it.
    pub cursor: Option<Point>,
    /// The position that the cursor had, moved into the text as it is now.
    pub clipped_cursor: Point,
    pub scroll_anchor: ScrollAnchor,
    /// Whether the text still has the anchor that was scrolled to.
    pub can_resolve_scroll_anchor: bool,
    /// An anchor at the start of the row that was at the top.
    pub scroll_top_anchor: Anchor,
}

impl NavigationData {
    /// Where the cursor goes.
    pub open spec fn destination(self) -> Point {
        match self.cursor {
            Some(cursor) => cursor,
            None => self.clipped_cursor,
        }
    }

    /// What is scrolled to.
    pub open spec fn scroll_destination(self) -> ScrollAnchor {
        if self.can_resolve_scroll_anchor {
            self.scroll_anchor
        } else {
            ScrollAnchor { anchor: self.scroll_top_anchor, ..self.scroll_anchor }
        }
    }
}

/// How far a view is to scroll by itself.
#[derive(Clone, Copy, Debug, PartialEq, Eq, Structural)]
pub enum Autoscroll {
    Fit,
}

/// An editor.
#[derive(Debug)]
pub struct Editor {
    pub buffer: MultiBuffer,
    /// The selections, the newest last.
    pub selections: Vec<Selection>,
    pub scroll_anchor: ScrollAnchor,
    pub autoscroll: Option<Autoscroll>,
    pub nav_history: Option<NavHistoryId>,
    pub workspace: Option<WorkspaceId>,
    pub show_breadcrumbs: bool,
}

/// The text of a label and how it looks.
#[derive(Debug)]
pub struct Label {
    pub text: String,
    pub color: Color,
    pub size: LabelSize,
    /// How many characters of the text are shown.
    pub max_len: Option<usize>,
}

#[derive(Clone, Copy, Debug, PartialEq, Eq, Structural)]
pub enum LabelSize {
    Default,
    XSmall,
}

/// What a tab shows: the title of its item, and a description of it.
#[derive(Debug)]
pub struct TabContent {
    pub title: Label,
    pub description: Option<Label>,
}

/// Where on a toolbar something is.
#[derive(Clone, Copy, Debug, PartialEq, Eq, Structural)]
pub enum ToolbarItemLocation {
    Hidden,
    PrimaryLeft,
}

/// A symbol in the outline of a buffer.
#[derive(Debug)]
pub struct OutlineItem<H> {
    pub text: String,
    pub highlight_ranges: H,
}

/// One step on the way to where the cursor is.
#[derive(Debug)]
pub struct BreadcrumbText<H> {
    pub text: String,
    pub highlights: Option<H>,
}

/// Where the path of an item is to be stored.
#[derive(Debug)]
pub struct StoredPath {
    pub item_id: ItemId,
    pub workspace_id: WorkspaceId,
    pub path: String,
}

/// What happens to the buffer of an editor.
#[derive(Clone, Copy, Debug, PartialEq, Eq, Structural)]
pub enum BufferEvent {
    FileHandleChanged,
    Other,
}

impl Editor {
    /// The color of the title of the tab.
    pub open spec fn title_color(self, show_git_status: bool, selected: bool) -> Color {
        let entry = match self.buffer.singleton_file() {
            Some(file) => if file.in_project {
                file.entry
            } else {
                None
            },
            None => None,
        };
        match entry {
            Some(entry) if show_git_status => crate::editor::labels::git_label_color(
                entry.git_status,
                entry.is_ignored,
                selected,
            ),
            _ => crate::editor::labels::plain_label_color(selected),
        }
    }

    /// The description of the tab: the directories that the file is in, as many as asked for.
    pub open spec fn description(self, detail: Option<usize>) -> Option<Seq<char>> {
        match (detail, self.buffer.singleton_file()) {
            (Some(detail), Some(file)) => {
                let shown = crate::editor::paths::shown_path(
                    file.file.path@,
                    file.file.full_path@,
                    detail as nat,
                    false,
                );
                match shown {
                    Some(path) if crate::text::trimmed(path.text()).len() > 0 => Some(
                        crate::text::trimmed(path.text()),
                    ),
                    _ => None,
                }
            },
            _ => None,
        }
    }

    /// Whether the data is of a place other than where the cursor is.
    pub open spec fn leads_elsewhere(self, data: Option<NavigationData>) -> bool {
        data is Some && self.selections@.last().cursor() != data->0.destination()
    }

    /// Whether the editor differs from what `after` is only in being at the place that the data
    /// is of. In particular its history is the same: going back adds nothing to it.
    pub open spec fn moved(self, after: Editor, data: NavigationData) -> bool {
        let destination = data.destination();
        &&& after.selections@ == seq![
            Selection { start: destination, end: destination, reversed: false },
        ]
        &&& after.scroll_anchor == data.scroll_destination()
        &&& after.autoscroll == Some(Autoscroll::Fit)
        &&& after.buffer == self.buffer
        &&& after.nav_history == self.nav_history
        &&& after.workspace == self.workspace
        &&& after.show_breadcrumbs == self.show_breadcrumbs
    }

    /// Goes to a place in the history, unless the cursor is there already, and tells whether it
    /// did. Data that does not come from an editor leads nowhere.
    pub fn navigate(&mut self, data: Option<NavigationData>) -> (r: bool)
        requires
            old(self).selections@.len() > 0,
        ensures
            r == old(self).leads_elsewhere(data),
            !r ==> *final(self) == *old(self),
            r ==> old(self).moved(*final(self), data->0),
    {
        let data = match data {
            Some(data) => data,
            None => {
                return false;
            },
        };
        let offset = match data.cursor {
            Some(cursor) => cursor,
            None => data.clipped_cursor,
        };
        let mut scroll_anchor = data.scroll_anchor;
        if !data.can_resolve_scroll_anchor {
            scroll_anchor.anchor = data.scroll_top_anchor;
        }
        let newest_selection = self.selections[self.selections.len() - 1];
        if newest_selection.head() == offset {
            false
        } else {
            self.scroll_anchor = scroll_anchor;
            self.autoscroll = Some(Autoscroll::Fit);
            let selection = Selection { start: offset, end: offset, reversed: false };
            self.selections = vec![selection];
            assert(self.selections@ =~= seq![selection]);
            true
        }
    }

    /// What is shown over the tab: where its file is on this machine.
    pub fn tab_tooltip_text(&self) -> (r: Option<String>)
        ensures
            r == match self.buffer.singleton_file() {
                Some(file) => file.compact_path,
                None => None,
            },
    {
        match self.buffer.as_singleton_file() {
            Some(file) => match &file.compact_path {
                Some(path) => Some(path.clone()),
                None => None,
            },
            None => None,
        }
    }

    /// The end of the path of the file, with as many directories as asked for.
    pub fn tab_description(&self, detail: usize) -> (r: Option<String>)
        requires
            detail < usize::MAX,
        ensures
            match self.buffer.singleton_file() {
                Some(file) => {
                    let shown = crate::editor::paths::shown_path(
                        file.file.path@,
                        file.file.full_path@,
                        detail as nat,
                        true,
                    );
                    r is Some && shown is Some && r->0@ == shown->0.text()
                },
                None => r is None,
            },
    {
        let file = match self.buffer.as_singleton_file() {
            Some(file) => Some(&file.file),
            None => None,
        };
        match path_for_buffer(file, detail, true) {
            Some(path) => Some(path.to_text()),
            None => None,
        }
    }

    /// What the tab shows.
    pub fn tab_content(
        &self,
        title: String,
        show_git_status: bool,
        detail: Option<usize>,
        selected: bool,
    ) -> (r: TabContent)
        requires
            detail is Some ==> detail->0 < usize::MAX,
        ensures
            r.title == (Label {
                text: title,
                color: self.title_color(show_git_status, selected),
                size: LabelSize::Default,
                max_len: None,
            }),
            match self.description(detail) {
                Some(text) => {
                    &&& r.description is Some
                    &&& r.description->0.text@ == text
                    &&& r.description->0.color == Color::Muted
                    &&& r.description->0.size == LabelSize::XSmall
                    &&& r.description->0.max_len == Some(MAX_TAB_TITLE_LEN)
                },
                None => r.description is None,
            },
    {
        let file = self.buffer.as_singleton_file();
        let entry = match file {
            Some(file) => if file.in_project {
                file.entry
            } else {
                None
            },
            None => None,
        };
        let label_color = match entry {
            Some(entry) => if show_git_status {
                entry_git_aware_label_color(entry.git_status, entry.is_ignored, selected)
            } else {
                entry_label_color(selected)
            },
            None => entry_label_color(selected),
        };
        let path = match (detail, file) {
            (Some(detail), Some(file)) => path_for_buffer(Some(&file.file), detail, false),
            _ => None,
        };
        let description = match path {
            Some(path) => {
                let text = path.to_text();
                let description = trim(text.as_str());
                if description.unicode_len() == 0 {
                    None
                } else {
                    Some(
                        Label {
                            text: description.to_string(),
                            color: Color::Muted,
                            size: LabelSize::XSmall,
                            max_len: Some(MAX_TAB_TITLE_LEN),
                        },
                    )
                }
            },
            None => None,
        };
        TabContent {
            title: Label {
                text: title,
                color: label_color,
                size: LabelSize::Default,
                max_len: None,
            },
            description,
        }
    }

    /// The buffers of the project that the editor shows, in order.
    pub fn project_items(&self) -> (r: Vec<BufferId>)
        ensures
            r@ == self.buffer.ids(),
    {
        self.buffer.buffer_ids()
    }

    /// Whether one buffer is shown whole.
    pub fn is_singleton(&self) -> (r: bool)
        ensures
            r == (self.buffer.singleton() is Some),
    {
        self.buffer.as_singleton().is_some()
    }

    /// Whether there is a place to save to: a single buffer needs one in the project.
    pub fn can_save(&self) -> (r: bool)
        ensures
            r == match self.buffer.singleton() {
                Some(buffer) => buffer.file is Some && buffer.file->0.in_project,
                None => true,
            },
    {
        match self.buffer.as_singleton() {
            Some(buffer) => match &buffer.file {
                Some(file) => file.in_project,
                None => false,
            },
            None => true,
        }
    }

    /// Keeps the history that the editor adds to.
    pub fn set_nav_history(&mut self, history: NavHistoryId)
        ensures
            *final(self) == (Editor { nav_history: Some(history), ..*old(self) }),
    {
        self.nav_history = Some(history);
    }

    /// Where the breadcrumbs are.
    pub fn breadcrumb_location(&self) -> (r: ToolbarItemLocation)
        ensures
            r == if self.show_breadcrumbs {
                ToolbarItemLocation::PrimaryLeft
            } else {
                ToolbarItemLocation::Hidden
            },
    {
        if self.show_breadcrumbs {
            ToolbarItemLocation::PrimaryLeft
        } else {
            ToolbarItemLocation::Hidden
        }
    }

    /// The path that is to be stored for the editor, where it shows a file on this machine.
    pub open spec fn path_to_store(self) -> Option<String> {
        match self.buffer.singleton_file() {
            Some(file) => file.abs_path,
            None => None,
        }
    }

    fn serialize(&self, workspace_id: WorkspaceId, item_id: ItemId) -> (r: Option<StoredPath>)
        ensures
            r == match self.path_to_store() {
                Some(path) => Some(StoredPath { item_id, workspace_id, path }),
                None => None,
            },
    {
        match self.buffer.as_singleton_file() {
            Some(file) => match &file.abs_path {
                Some(path) => Some(StoredPath { item_id, workspace_id, path: path.clone() }),
                None => None,
            },
            None => None,
        }
    }

    /// Takes note of the workspace that the editor is in. The result is to be stored.
    pub fn added_to_workspace(&mut self, workspace_id: WorkspaceId, item_id: ItemId) -> (r: Option<
        StoredPath,
    >)
        ensures
            *final(self) == (Editor { workspace: Some(workspace_id), ..*old(self) }),
            r == match old(self).path_to_store() {
                Some(path) => Some(StoredPath { item_id, workspace_id, path }),
                None => None,
            },
    {
        self.workspace = Some(workspace_id);
        self.serialize(workspace_id, item_id)
    }

    /// Follows its buffer: where the file of it changes, the result is to be stored.
    pub fn buffer_changed(&self, event: BufferEvent, item_id: ItemId) -> (r: Option<StoredPath>)
        ensures
            r == match (self.workspace, event, self.path_to_store()) {
                (Some(workspace_id), BufferEvent::FileHandleChanged, Some(path)) => Some(
                    StoredPath { item_id, workspace_id, path },
                ),
                _ => None,
            },
    {
        match self.workspace {
            Some(workspace_id) => match event {
                BufferEvent::FileHandleChanged => self.serialize(workspace_id, item_id),
                BufferEvent::Other => None,
            },
            None => None,
        }
    }

    /// The name under which editors are stored.
    pub fn serialized_item_kind() -> (r: Option<&'static str>)
        ensures
            r is Some,
            r->0@ == "Editor"@,
    {
        Some("Editor")
    }
}

/// Having gone to a place, going there again leads nowhere.
pub proof fn law_arrived_is_there(before: Editor, after: Editor, data: NavigationData)
    requires
        before.moved(after, data),
    ensures
        !after.leads_elsewhere(Some(data)),
{
}

/// The breadcrumbs: the path of the file, then the symbols that the cursor is in.
pub open spec fn crumbs<H>(
    filename: Seq<char>,
    symbols: Seq<OutlineItem<H>>,
    breadcrumbs: Seq<BreadcrumbText<H>>,
) -> bool {
    &&& breadcrumbs.len() == symbols.len() + 1
    &&& breadcrumbs[0].text@ == filename
    &&& breadcrumbs[0].highlights is None
    &&& forall|i: int|
        0 <= i < symbols.len() ==> #[trigger] breadcrumbs[i + 1] == (BreadcrumbText {
            text: symbols[i].text,
            highlights: Some(symbols[i].highlight_ranges),
        })
}

/// Whether the path in the breadcrumbs starts with the name of the worktree: only where the
/// project has several.
pub fn include_root_in_breadcrumbs(visible_worktrees: Option<usize>) -> (r: bool)
    ensures
        r == (visible_worktrees is Some && visible_worktrees->0 > 1),
{
    match visible_worktrees {
        Some(count) => count > 1,
        None => false,
    }
}

/// The breadcrumbs at the cursor, where there is a buffer with an outline at it.
pub fn breadcrumbs<H>(
    file_path: Option<String>,
    symbols: Option<Vec<OutlineItem<H>>>,
) -> (r: Option<Vec<BreadcrumbText<H>>>)
    ensures
        match symbols {
            Some(symbols) => r is Some && crumbs(
                match file_path {
                    Some(path) => path@,
                    None => "untitled"@,
                },
                symbols@,
                r->0@,
            ),
            None => r is None,
        },
{
    let symbols = match symbols {
        Some(symbols) => symbols,
        None => {
            return None;
        },
    };
    let filename = match file_path {
        Some(path) => path,
        None => "untitled".to_string(),
    };
    let ghost name = filename@;
    let ghost all = symbols@;
    let mut breadcrumbs: Vec<BreadcrumbText<H>> = Vec::new();
    breadcrumbs.push(BreadcrumbText { text: filename, highlights: None });
    for symbol in it: symbols
        invariant
            it.seq() == all,
            crumbs(name, all.take(it.index()), breadcrumbs@),
    {
        breadcrumbs.push(
            BreadcrumbText { text: symbol.text, highlights: Some(symbol.highlight_ranges) },
        );
    }
    assert(all.take(all.len() as int) =~= all);
    Some(breadcrumbs)
}

/// What happens in an editor.
#[derive(Clone, Copy, Debug, PartialEq, Eq, Structural)]
pub enum EditorEvent {
    BufferEdited,
    DirtyChanged,
    ExcerptsAdded,
    ExcerptsRemoved,
    Reparsed,
    Saved,
    SelectionsChanged { local: bool },
    TitleChanged,
    Other,
    Closed,
}

/// What a workspace is told of an item.
#[derive(Clone, Copy, Debug, PartialEq, Eq, Structural)]
pub enum ItemEvent {
    CloseItem,
    UpdateTab,
    UpdateBreadcrumbs,
    Edit,
}

/// What a workspace is told of what happens in an editor.
pub open spec fn item_events(event: EditorEvent) -> Seq<ItemEvent> {
    match event {
        EditorEvent::Closed => seq![ItemEvent::CloseItem],
        EditorEvent::Saved | EditorEvent::TitleChanged => seq![
            ItemEvent::UpdateTab,
            ItemEvent::UpdateBreadcrumbs,
        ],
        EditorEvent::Reparsed => seq![ItemEvent::UpdateBreadcrumbs],
        EditorEvent::SelectionsChanged { local: true } => seq![ItemEvent::UpdateBreadcrumbs],
        EditorEvent::DirtyChanged => seq![ItemEvent::UpdateTab],
        EditorEvent::BufferEdited => seq![ItemEvent::Edit, ItemEvent::UpdateBreadcrumbs],
        EditorEvent::ExcerptsAdded | EditorEvent::ExcerptsRemoved => seq![ItemEvent::Edit],
        EditorEvent::SelectionsChanged { local: false } | EditorEvent::Other => Seq::empty(),
    }
}

/// What a workspace is told of what happens in an editor, in order.
pub fn to_item_events(event: EditorEvent) -> (r: Vec<ItemEvent>)
    ensures
        r@ == item_events(event),
{
    let mut events: Vec<ItemEvent> = Vec::new();
    match event {
        EditorEvent::Closed => events.push(ItemEvent::CloseItem),
        EditorEvent::Saved | EditorEvent::TitleChanged => {
            events.push(ItemEvent::UpdateTab);
            events.push(ItemEvent::UpdateBreadcrumbs);
        },
        EditorEvent::Reparsed => events.push(ItemEvent::UpdateBreadcrumbs),
        EditorEvent::SelectionsChanged { local } => {
            if local {
                events.push(ItemEvent::UpdateBreadcrumbs);
            }
        },
        EditorEvent::DirtyChanged => events.push(ItemEvent::UpdateTab),
        EditorEvent::BufferEdited => {
            events.push(ItemEvent::Edit);
            events.push(ItemEvent::UpdateBreadcrumbs);
        },
        EditorEvent::ExcerptsAdded | EditorEvent::ExcerptsRemoved => {
            events.push(ItemEvent::Edit)
        },
        EditorEvent::Other => {},
    }
    assert(events@ =~= item_events(event));
    events
}

}
