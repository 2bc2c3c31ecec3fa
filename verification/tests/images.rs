use zed::image_cache::{fetch, image_format, Error, Fetch, ImageCache, SharedUri, UriOrPath};
use zed::paths::FilePath;

fn uri(text: &str) -> UriOrPath {
    UriOrPath::from(SharedUri { text: text.to_string() })
}

fn path(name: &str) -> UriOrPath {
    UriOrPath::from(FilePath { absolute: true, components: vec![name.to_string()] })
}

#[test]
fn images_are_fetched_once() {
    let mut cache = ImageCache::new();
    let first = cache.get(path("a.png"));
    assert!(first.fetch);
    let second = cache.get(uri("a.png"));
    assert!(second.fetch);
    assert_ne!(first.slot, second.slot);
    let again = cache.get(path("a.png"));
    assert!(!again.fetch);
    assert_eq!(again.slot, first.slot);
    assert!(!cache.get(uri("a.png")).fetch);
    assert!(cache.get(uri("b.png")).fetch);
}

#[test]
fn keys_are_the_same_by_what_they_name() {
    assert!(path("a").same(&path("a")));
    assert!(!path("a").same(&path("b")));
    assert!(!path("a").same(&uri("a")));
    let relative = UriOrPath::Path(FilePath { absolute: false, components: vec!["a".to_string()] });
    assert!(!path("a").same(&relative));
}

#[test]
fn formats_are_told_by_how_images_begin() {
    assert_eq!(image_format(&b"\x89PNG\r\n\x1a\nrest".to_vec()).unwrap(), "png");
    assert_eq!(image_format(&vec![0xff, 0xd8, 0xff, 0xe0]).unwrap(), "jpg");
    assert_eq!(image_format(&b"GIF89a".to_vec()).unwrap(), "gif");
    assert!(matches!(image_format(&b"text".to_vec()), Err(Error::Image(_))));
    assert!(matches!(image_format(&vec![]), Err(Error::Image(_))));
}

#[test]
fn only_files_are_read() {
    assert!(matches!(
        fetch(path("a.png")),
        Fetch::Open(path) if path.to_text() == "/a.png"
    ));
    assert!(matches!(fetch(uri("https://zed.dev/a.png")), Fetch::Fail(Error::Image(_))));
}

#[test]
fn errors_of_images() {
    assert_eq!(Error::Io("gone".to_string()).message(), "IO error: gone");
    assert_eq!(Error::Image("broken".to_string()).message(), "image error: broken");
}
