use zed::editor::item::{
    breadcrumbs, include_root_in_breadcrumbs, to_item_events, Autoscroll, Buffer, BufferEvent,
    BufferFile, Editor, EditorEvent, Entry, ItemEvent, LabelSize, MultiBuffer, NavigationData,
    OutlineItem, Point, ScrollAnchor, Selection, ToolbarItemLocation, MAX_TAB_TITLE_LEN,
};
use zed::editor::labels::{entry_git_aware_label_color, entry_label_color, GitFileStatus};
use zed::editor::paths::{path_for_buffer, path_for_file, File};
use zed::editor::saving::{
    buffer_to_edit, partition_buffers, path_to_open, reloaded, save_as, stored_path,
    BufferStatus, DeserializeError, ProjectItem, Save, SaveAction, SaveEvent,
};
use zed::editor::search::{
    activate_match, active_match_index, find_matches, match_index_for_direction,
    query_suggestion, replace, select_matches, text_to_replace, Bias, CharKind, Direction,
    ExcerptMatches, OffsetAnchor, SearchResults, SeedQuerySetting,
};
use zed::paths::FilePath;
use zed::ui::color::Color;

fn relative(path: &str) -> FilePath {
    FilePath {
        absolute: false,
        components: path.split('/').filter(|name| !name.is_empty()).map(String::from).collect(),
    }
}

fn file(root: &str, path: &str) -> File {
    let mut full = relative(root);
    full.components.extend(relative(path).components);
    File { path: relative(path), full_path: full }
}

fn shown(file: &File, height: usize, include_filename: bool) -> Option<String> {
    path_for_file(file, height, include_filename).map(|path| path.to_text())
}

#[test]
fn test_path_for_file() {
    let file = file("", "");
    assert!(path_for_file(&file, 0, false).is_none());
}

#[test]
fn shown_paths_have_as_many_directories_as_asked_for() {
    let file = file("root", "a/b/c.rs");
    assert_eq!(shown(&file, 0, true), Some("c.rs".to_string()));
    assert_eq!(shown(&file, 1, true), Some("b/c.rs".to_string()));
    assert_eq!(shown(&file, 2, true), Some("a/b/c.rs".to_string()));
    assert_eq!(shown(&file, 3, true), Some("root/a/b/c.rs".to_string()));
    assert_eq!(shown(&file, 0, false), Some("".to_string()));
    assert_eq!(shown(&file, 1, false), Some("b".to_string()));
    assert_eq!(shown(&file, 9, false), Some("root/a/b".to_string()));
    assert_eq!(path_for_buffer(Some(&file), 1, true).unwrap().to_text(), "b/c.rs");
    assert!(path_for_buffer(None, 1, true).is_none());
}

#[test]
fn absolute_paths() {
    let root = FilePath { absolute: true, components: vec![] };
    assert_eq!(root.to_text(), "/");
    assert!(root.parent().is_none());
    let tmp = FilePath { absolute: true, components: vec!["tmp".to_string()] };
    assert_eq!(tmp.to_text(), "/tmp");
    assert_eq!(tmp.parent().unwrap().to_text(), "/");
    assert!(!tmp.same(&relative("tmp")));
    assert!(tmp.same(&tmp.copy()));
}

#[test]
fn label_colors() {
    assert_eq!(entry_label_color(true), Color::Default);
    assert_eq!(entry_label_color(false), Color::Muted);
    let added = Some(GitFileStatus::Added);
    assert_eq!(entry_git_aware_label_color(added, true, true), Color::Disabled);
    assert_eq!(entry_git_aware_label_color(added, false, true), Color::Created);
    assert_eq!(
        entry_git_aware_label_color(Some(GitFileStatus::Modified), false, false),
        Color::Modified
    );
    assert_eq!(
        entry_git_aware_label_color(Some(GitFileStatus::Conflict), false, true),
        Color::Conflict
    );
    assert_eq!(entry_git_aware_label_color(None, false, true), Color::Default);
    assert_eq!(entry_git_aware_label_color(None, false, false), Color::Muted);
}

fn buffer_file() -> BufferFile {
    BufferFile {
        file: file("root", "a/b.rs"),
        abs_path: Some("/home/me/root/a/b.rs".to_string()),
        compact_path: Some("~/root/a/b.rs".to_string()),
        in_project: true,
        entry: Some(Entry { git_status: Some(GitFileStatus::Added), is_ignored: false }),
    }
}

fn editor(buffer: MultiBuffer) -> Editor {
    Editor {
        buffer,
        selections: vec![Selection { start: point(1, 1), end: point(1, 4), reversed: false }],
        scroll_anchor: ScrollAnchor { anchor: 0, offset_x: 0, offset_y: 0 },
        autoscroll: None,
        nav_history: None,
        workspace: None,
        show_breadcrumbs: true,
    }
}

fn file_editor() -> Editor {
    editor(MultiBuffer::Singleton(Buffer { id: 3, file: Some(buffer_file()) }))
}

fn excerpts_editor() -> Editor {
    editor(MultiBuffer::Excerpts(vec![Buffer { id: 3, file: Some(buffer_file()) }]))
}

fn point(row: u32, column: u32) -> Point {
    Point { row, column }
}

fn navigation(cursor: Option<Point>) -> NavigationData {
    NavigationData {
        cursor,
        clipped_cursor: point(9, 0),
        scroll_anchor: ScrollAnchor { anchor: 5, offset_x: 1, offset_y: 2 },
        can_resolve_scroll_anchor: true,
        scroll_top_anchor: 6,
    }
}

#[test]
fn navigating() {
    let mut editor = file_editor();
    editor.set_nav_history(8);
    assert!(!editor.navigate(None));
    assert!(!editor.navigate(Some(navigation(Some(point(1, 4))))));
    assert_eq!(editor.autoscroll, None);

    assert!(editor.navigate(Some(navigation(Some(point(2, 2))))));
    assert_eq!(
        editor.selections,
        vec![Selection { start: point(2, 2), end: point(2, 2), reversed: false }]
    );
    assert_eq!(editor.scroll_anchor, ScrollAnchor { anchor: 5, offset_x: 1, offset_y: 2 });
    assert_eq!(editor.autoscroll, Some(Autoscroll::Fit));
    assert_eq!(editor.nav_history, Some(8));
    assert!(!editor.navigate(Some(navigation(Some(point(2, 2))))));
}

#[test]
fn navigating_to_what_is_gone() {
    let mut editor = file_editor();
    let mut data = navigation(None);
    data.can_resolve_scroll_anchor = false;
    assert!(editor.navigate(Some(data)));
    assert_eq!(editor.selections[0].head(), point(9, 0));
    assert_eq!(editor.scroll_anchor, ScrollAnchor { anchor: 6, offset_x: 1, offset_y: 2 });
}

#[test]
fn heads_of_selections() {
    let mut selection = Selection { start: point(1, 1), end: point(2, 2), reversed: false };
    assert_eq!(selection.head(), point(2, 2));
    selection.reversed = true;
    assert_eq!(selection.head(), point(1, 1));
}

#[test]
fn tabs() {
    let editor = file_editor();
    assert_eq!(editor.tab_tooltip_text(), Some("~/root/a/b.rs".to_string()));
    assert_eq!(editor.tab_description(0), Some("b.rs".to_string()));
    assert_eq!(editor.tab_description(1), Some("a/b.rs".to_string()));

    let content = editor.tab_content("b.rs".to_string(), true, Some(1), false);
    assert_eq!(content.title.text, "b.rs");
    assert_eq!(content.title.color, Color::Created);
    assert_eq!(content.title.size, LabelSize::Default);
    let description = content.description.unwrap();
    assert_eq!(description.text, "a");
    assert_eq!(description.color, Color::Muted);
    assert_eq!(description.size, LabelSize::XSmall);
    assert_eq!(description.max_len, Some(MAX_TAB_TITLE_LEN));

    // No directories are shown at height zero, and none without a height.
    assert!(editor.tab_content(String::new(), true, Some(0), true).description.is_none());
    assert!(editor.tab_content(String::new(), true, None, true).description.is_none());
    let plain = editor.tab_content(String::new(), false, None, true);
    assert_eq!(plain.title.color, Color::Default);
}

#[test]
fn tabs_of_excerpts() {
    let editor = excerpts_editor();
    assert_eq!(editor.tab_tooltip_text(), None);
    assert_eq!(editor.tab_description(0), None);
    let content = editor.tab_content("results".to_string(), true, Some(1), false);
    assert_eq!(content.title.color, Color::Muted);
    assert!(content.description.is_none());
    assert!(!editor.is_singleton());
    assert!(editor.can_save());
    assert_eq!(editor.project_items(), vec![3]);
    assert_eq!(file_editor().project_items(), vec![3]);
}

#[test]
fn saving_needs_a_place() {
    assert!(file_editor().is_singleton());
    assert!(file_editor().can_save());
    let untitled = editor(MultiBuffer::Singleton(Buffer { id: 1, file: None }));
    assert!(!untitled.can_save());
    let mut outside = buffer_file();
    outside.in_project = false;
    let outside = editor(MultiBuffer::Singleton(Buffer { id: 1, file: Some(outside) }));
    assert!(!outside.can_save());
    assert_eq!(outside.tab_content(String::new(), true, None, false).title.color, Color::Muted);
}

#[test]
fn editors_are_stored_where_their_files_are() {
    let mut editor = file_editor();
    assert!(editor.buffer_changed(BufferEvent::FileHandleChanged, 4).is_none());
    let stored = editor.added_to_workspace(12, 4).unwrap();
    assert_eq!((stored.workspace_id, stored.item_id), (12, 4));
    assert_eq!(stored.path, "/home/me/root/a/b.rs");
    assert_eq!(editor.workspace, Some(12));
    assert!(editor.buffer_changed(BufferEvent::Other, 4).is_none());
    assert_eq!(
        editor.buffer_changed(BufferEvent::FileHandleChanged, 4).unwrap().path,
        "/home/me/root/a/b.rs"
    );
    assert!(excerpts_editor().added_to_workspace(12, 4).is_none());
    assert_eq!(Editor::serialized_item_kind(), Some("Editor"));
}

#[test]
fn breadcrumbs_lead_to_the_cursor() {
    let mut editor = file_editor();
    assert_eq!(editor.breadcrumb_location(), ToolbarItemLocation::PrimaryLeft);
    editor.show_breadcrumbs = false;
    assert_eq!(editor.breadcrumb_location(), ToolbarItemLocation::Hidden);

    let symbols = || {
        Some(vec![
            OutlineItem { text: "mod a".to_string(), highlight_ranges: 1 },
            OutlineItem { text: "fn b".to_string(), highlight_ranges: 2 },
        ])
    };
    let crumbs = breadcrumbs(Some("a/b.rs".to_string()), symbols()).unwrap();
    let texts: Vec<&str> = crumbs.iter().map(|crumb| crumb.text.as_str()).collect();
    assert_eq!(texts, vec!["a/b.rs", "mod a", "fn b"]);
    assert_eq!(crumbs[0].highlights, None);
    assert_eq!(crumbs[2].highlights, Some(2));
    assert_eq!(breadcrumbs(None, symbols()).unwrap()[0].text, "untitled");
    assert!(breadcrumbs::<u8>(None, None).is_none());
    assert!(include_root_in_breadcrumbs(Some(2)));
    assert!(!include_root_in_breadcrumbs(Some(1)));
    assert!(!include_root_in_breadcrumbs(None));
}

#[test]
fn events_of_items() {
    let tab_and_crumbs = vec![ItemEvent::UpdateTab, ItemEvent::UpdateBreadcrumbs];
    assert_eq!(to_item_events(EditorEvent::Closed), vec![ItemEvent::CloseItem]);
    assert_eq!(to_item_events(EditorEvent::Saved), tab_and_crumbs);
    assert_eq!(to_item_events(EditorEvent::TitleChanged), tab_and_crumbs);
    assert_eq!(to_item_events(EditorEvent::Reparsed), vec![ItemEvent::UpdateBreadcrumbs]);
    assert_eq!(
        to_item_events(EditorEvent::SelectionsChanged { local: true }),
        vec![ItemEvent::UpdateBreadcrumbs]
    );
    assert_eq!(to_item_events(EditorEvent::SelectionsChanged { local: false }), vec![]);
    assert_eq!(to_item_events(EditorEvent::DirtyChanged), vec![ItemEvent::UpdateTab]);
    assert_eq!(
        to_item_events(EditorEvent::BufferEdited),
        vec![ItemEvent::Edit, ItemEvent::UpdateBreadcrumbs]
    );
    assert_eq!(to_item_events(EditorEvent::ExcerptsAdded), vec![ItemEvent::Edit]);
    assert_eq!(to_item_events(EditorEvent::ExcerptsRemoved), vec![ItemEvent::Edit]);
    assert_eq!(to_item_events(EditorEvent::Other), vec![]);
}

fn status(is_dirty: bool, has_conflict: bool) -> Option<BufferStatus> {
    Some(BufferStatus { is_dirty, has_conflict })
}

fn buffer_states() -> Vec<(u64, Option<BufferStatus>)> {
    vec![
        (1, status(true, false)),
        (2, status(false, false)),
        (3, status(false, true)),
        (4, None),
    ]
}

#[test]
fn buffers_are_parted_by_their_changes() {
    assert_eq!(partition_buffers(&buffer_states()), (vec![1, 3], vec![2, 4]));
}

#[test]
fn saving_formats_then_writes_then_tells() {
    let (save, action) = Save::start::<String>(true);
    assert!(matches!(action, SaveAction::Format));
    let (save, action) = save.next::<String>(SaveEvent::Done(Ok(())));
    assert!(matches!(action, SaveAction::Inspect));
    let (save, action) = save.next::<String>(SaveEvent::Inspected(buffer_states()));
    assert!(matches!(action, SaveAction::Save(dirty) if dirty == vec![1, 3]));
    let (save, action) = save.next::<String>(SaveEvent::Done(Ok(())));
    assert!(matches!(action, SaveAction::DidSave(clean) if clean == vec![2, 4]));
    let (save, action) = save.next::<String>(SaveEvent::Done(Err("gone".to_string())));
    assert!(matches!(action, SaveAction::Finish(Ok(()))));
    assert!(matches!(save, Save::Finished));
}

#[test]
fn saving_ends_with_the_first_failure() {
    let (save, _) = Save::start::<&str>(true);
    let (_, action) = save.next(SaveEvent::Done(Err("format")));
    assert!(matches!(action, SaveAction::Finish(Err("format"))));

    let (save, action) = Save::start::<&str>(false);
    assert!(matches!(action, SaveAction::Inspect));
    let (save, _) = save.next::<&str>(SaveEvent::Inspected(buffer_states()));
    let (_, action) = save.next(SaveEvent::Done(Err("write")));
    assert!(matches!(action, SaveAction::Finish(Err("write"))));
}

#[test]
fn saving_under_another_name_and_reloading() {
    assert_eq!(save_as(&file_editor().buffer), 3);
    assert_eq!(reloaded(&file_editor().buffer, Some(5)).push_transaction, None);
    assert_eq!(reloaded(&excerpts_editor().buffer, Some(5)).push_transaction, Some(5));
    let failed = reloaded::<u8>(&excerpts_editor().buffer, None);
    assert_eq!(failed.push_transaction, None);
    assert_eq!(failed.autoscroll, Autoscroll::Fit);
}

#[test]
fn opening_stored_editors() {
    assert_eq!(stored_path::<u8>(Ok(Some("/a".to_string()))).unwrap(), "/a");
    let missing = stored_path::<u8>(Ok(None)).unwrap_err();
    assert_eq!(missing.message().as_deref(), Some("No path stored for this editor"));
    assert!(matches!(stored_path(Err(7)), Err(DeserializeError::Failed(7))));
    assert_eq!(stored_path(Err(7)).unwrap_err().message(), None);

    let found = path_to_open::<u8>("/a/b".to_string(), Some((2, "b".to_string()))).unwrap();
    assert_eq!((found.worktree_id, found.path.as_str()), (2, "b"));
    let lost = path_to_open::<u8>("/a/b".to_string(), None).unwrap_err();
    assert_eq!(lost.message().as_deref(), Some("No worktree for path: \"/a/b\""));
    assert!(matches!(lost, DeserializeError::NoWorktree { path } if path == "/a/b"));

    assert_eq!(buffer_to_edit::<u8>(Ok(ProjectItem::Buffer(9))).unwrap(), 9);
    let other = buffer_to_edit::<u8>(Ok(ProjectItem::Other)).unwrap_err();
    assert_eq!(
        other.message().as_deref(),
        Some("Project item at stored path was not a buffer")
    );
    assert!(matches!(buffer_to_edit(Err(1)), Err(DeserializeError::Failed(1))));
}

#[test]
fn active_matches() {
    let ranges = [2..4, 6..8, 10..12];
    assert_eq!(active_match_index(&[], &3), None);
    assert_eq!(active_match_index(&ranges, &0), Some(0));
    assert_eq!(active_match_index(&ranges, &3), Some(0));
    assert_eq!(active_match_index(&ranges, &5), Some(1));
    assert_eq!(active_match_index(&ranges, &8), Some(1));
    assert_eq!(active_match_index(&ranges, &11), Some(2));
    assert_eq!(active_match_index(&ranges, &20), Some(2));
}

#[test]
fn the_active_match_moves_with_the_cursor() {
    let ranges = [0..2, 2..4, 4..4, 4..6, 9..12];
    let mut last = 0;
    for cursor in 0..20 {
        let index = active_match_index(&ranges, &cursor).unwrap();
        assert!(last <= index);
        last = index;
        if ranges.iter().any(|range| range.start <= cursor && cursor <= range.end) {
            assert!(ranges[index].start <= cursor && cursor <= ranges[index].end);
        }
    }
    // Of two matches that touch, the one that is met first when halving is active.
    assert_eq!(active_match_index(&[0..2, 2..4], &2), Some(1));
    assert_eq!(active_match_index(&[0..1, 2..4, 4..6], &4), Some(1));
}

#[test]
fn matches_by_direction() {
    let matches = vec![2..4, 6..8, 10..12];
    let go = |current, direction, count, head| {
        match_index_for_direction(&matches, current, direction, count, 1, head)
    };
    assert_eq!(go(0, Direction::Next, 1, 4), 1);
    assert_eq!(go(2, Direction::Next, 1, 12), 0);
    // Before the current match, one step leads to it.
    assert_eq!(go(0, Direction::Next, 1, 0), 0);
    assert_eq!(go(0, Direction::Prev, 1, 3), 2);
    assert_eq!(go(2, Direction::Prev, 1, 12), 1);
    // After the last match, one step leads back to it.
    assert_eq!(go(2, Direction::Prev, 1, 20), 2);
    assert_eq!(go(1, Direction::Next, 3, 7), 1);
    // With several selections the start of the current match counts.
    assert_eq!(match_index_for_direction(&matches, 0, Direction::Next, 1, 2, 0), 1);
}

#[test]
fn going_back_undoes_going_forward() {
    let matches = vec![2..4, 6..8, 10..12];
    for current in 0..3 {
        for count in 0..7 {
            let there =
                match_index_for_direction(&matches, current, Direction::Next, count, 2, 0);
            let back = match_index_for_direction(&matches, there, Direction::Prev, count, 2, 0);
            assert_eq!(back, current);
        }
    }
}

#[test]
fn found_matches_are_anchored() {
    let anchor = |excerpt, offset, bias| OffsetAnchor { excerpt, offset, bias };
    let whole = find_matches(&SearchResults::Singleton(vec![1..3]));
    assert_eq!(whole, vec![anchor(None, 1, Bias::Right)..anchor(None, 3, Bias::Left)]);

    let excerpts = find_matches(&SearchResults::Excerpts(vec![
        ExcerptMatches { id: 7, start: 100, matches: vec![0..2, 5..6] },
        ExcerptMatches { id: 9, start: 10, matches: vec![1..2] },
    ]));
    assert_eq!(
        excerpts,
        vec![
            anchor(Some(7), 100, Bias::Right)..anchor(Some(7), 102, Bias::Left),
            anchor(Some(7), 105, Bias::Right)..anchor(Some(7), 106, Bias::Left),
            anchor(Some(9), 11, Bias::Right)..anchor(Some(9), 12, Bias::Left),
        ]
    );
}

#[test]
fn suggested_queries() {
    let word = Some(CharKind::Word);
    let suggest = |setting, selection, kind, around| {
        query_suggestion(setting, &selection, "picked", kind, around)
    };
    assert_eq!(suggest(SeedQuerySetting::Never, 1..4, word, "around"), "");
    assert_eq!(suggest(SeedQuerySetting::Selection, 1..4, word, "around"), "picked");
    assert_eq!(suggest(SeedQuerySetting::Always, 1..4, word, "around"), "picked");
    assert_eq!(suggest(SeedQuerySetting::Selection, 1..1, word, "around"), "");
    assert_eq!(suggest(SeedQuerySetting::Always, 1..1, word, "around"), "around");
    assert_eq!(suggest(SeedQuerySetting::Always, 1..1, word, " \t"), "");
    assert_eq!(suggest(SeedQuerySetting::Always, 1..1, None, "around"), "");
}

#[test]
fn replacing_and_selecting_matches() {
    assert_eq!(text_to_replace(&vec!["one".to_string()]), "one");
    assert_eq!(text_to_replace(&vec!["on".to_string(), "e ".to_string(), "two".to_string()]), "one two");
    assert_eq!(text_to_replace(&vec![]), "");
    let edit = replace(3..5, Some("new".to_string())).unwrap();
    assert_eq!((edit.range, edit.new_text.as_str()), (3..5, "new"));
    assert!(replace(3..5, None).is_none());

    let one = activate_match(1, &vec![0..1, 4..6], 4..4);
    assert_eq!((one.unfold, one.select, one.autoscroll), (vec![4..6], vec![4..4], true));
    let all = select_matches(vec![0..1, 4..6], vec![0..0, 4..4]);
    assert_eq!(
        (all.unfold, all.select, all.autoscroll),
        (vec![0..1, 4..6], vec![0..0, 4..4], false)
    );
}
