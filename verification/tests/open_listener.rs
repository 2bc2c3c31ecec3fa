use zed::editor::item::Point;
use zed::open_listener::{
    carets_to_place, file_of_url, open_paths_with_positions, OpenRequest, OpenedItem,
    PathLikeWithPosition,
};
use zed::paths::FilePath;

fn at(path: &str, row: Option<u32>, column: Option<u32>) -> PathLikeWithPosition {
    let components = path.split('/').filter(|name| !name.is_empty()).map(String::from).collect();
    let path_like = FilePath { absolute: path.starts_with('/'), components };
    PathLikeWithPosition { path_like, row, column }
}

fn parse(urls: &[&str]) -> Vec<String> {
    let urls: Vec<String> = urls.iter().map(|url| url.to_string()).collect();
    let request = OpenRequest::parse(&urls, |file| {
        if file.is_empty() {
            None
        } else {
            Some(at(&file, None, None))
        }
    });
    assert!(request.open_channel_notes.is_empty());
    assert_eq!(request.join_channel, None);
    request.open_paths.iter().map(|path| path.path_like.to_text()).collect()
}

#[test]
fn files_in_urls() {
    assert_eq!(file_of_url("file:///tmp/a.rs"), Some("/tmp/a.rs".to_string()));
    assert_eq!(file_of_url("zed://file/tmp/a.rs:3"), Some("/tmp/a.rs:3".to_string()));
    assert_eq!(file_of_url("file:///tmp/a%20b"), Some("/tmp/a b".to_string()));
    assert_eq!(file_of_url("file:///tmp/100%"), Some("/tmp/100%".to_string()));
    assert_eq!(file_of_url("file:///tmp/%ff"), None);
    assert_eq!(file_of_url("https://zed.dev"), None);
    assert_eq!(file_of_url("zed://channel/1"), None);
    assert_eq!(file_of_url("file://"), Some(String::new()));
}

#[test]
fn requests_are_made_of_urls() {
    assert_eq!(
        parse(&["file:///a", "https://zed.dev", "zed://file/b%20c", "file:///%ff", "file://"]),
        vec!["/a".to_string(), "/b c".to_string()]
    );
    assert!(parse(&[]).is_empty());
}

#[test]
fn urls_count_by_themselves() {
    let first = ["file:///a", "https://zed.dev", "file:///a"];
    let second = ["file:///%ff", "zed://file/b", "file:///a"];
    let joined: Vec<&str> = first.iter().chain(&second).copied().collect();
    let mut paths = parse(&first);
    paths.extend(parse(&second));
    assert_eq!(parse(&joined), paths);
    assert_eq!(paths, vec!["/a", "/a", "/b", "/a"]);
}

fn carets(
    path_likes: Vec<PathLikeWithPosition>,
    is_file: Vec<bool>,
    items: Vec<OpenedItem>,
) -> Vec<(usize, u32, u32)> {
    let (paths, positions) = open_paths_with_positions(&path_likes, &is_file);
    assert_eq!(paths.len(), path_likes.len());
    for (path, path_like) in paths.iter().zip(&path_likes) {
        assert!(path.same(&path_like.path_like));
    }
    carets_to_place(&items, &paths, positions)
        .into_iter()
        .map(|(index, Point { row, column })| (index, row, column))
        .collect()
}

#[test]
fn carets_count_from_zero() {
    let editor = OpenedItem::Editor;
    assert_eq!(carets(vec![at("/a", Some(3), Some(5))], vec![true], vec![editor]), vec![(0, 2, 4)]);
    assert_eq!(carets(vec![at("/a", Some(3), None)], vec![true], vec![editor]), vec![(0, 2, 0)]);
    assert_eq!(carets(vec![at("/a", Some(0), Some(0))], vec![true], vec![editor]), vec![(0, 0, 0)]);
    assert_eq!(carets(vec![at("/a", None, Some(5))], vec![true], vec![editor]), vec![]);
    // What is no file has no rows.
    assert_eq!(carets(vec![at("/a", Some(3), None)], vec![false], vec![editor]), vec![]);
}

#[test]
fn carets_go_into_the_first_editor_of_a_path() {
    let path_likes = || {
        vec![at("/a", Some(2), None), at("/b", Some(7), None), at("/a", Some(4), Some(2))]
    };
    let files = || vec![true, true, true];
    // Of two places in one file the later counts, and it is used once.
    assert_eq!(
        carets(path_likes(), files(), vec![OpenedItem::Editor; 3]),
        vec![(0, 3, 1), (1, 6, 0)]
    );
    // What fails to open leaves the caret to the next.
    assert_eq!(
        carets(
            path_likes(),
            files(),
            vec![OpenedItem::Failed, OpenedItem::Nothing, OpenedItem::Editor]
        ),
        vec![(2, 3, 1)]
    );
    // What opens as something else does not.
    assert_eq!(
        carets(
            path_likes(),
            files(),
            vec![OpenedItem::Other, OpenedItem::Editor, OpenedItem::Editor]
        ),
        vec![(1, 6, 0)]
    );
    assert_eq!(carets(path_likes(), files(), vec![]), vec![]);
}

#[test]
fn default_requests_are_empty() {
    let request = OpenRequest::default();
    assert!(request.open_paths.is_empty() && request.open_channel_notes.is_empty());
    assert_eq!(request.join_channel, None);
}
