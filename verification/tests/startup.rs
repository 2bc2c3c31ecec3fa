use zed::open_listener::{OpenRequest, PathLikeWithPosition};
use zed::paths::FilePath;
use zed::startup::arguments::{
    parse_path_and_place, parse_url_arg, split_position, urls_to_open,
};
use zed::startup::login_shell::{
    login_environment, login_environment_of_output, login_shell_command,
};
use zed::startup::panics::{
    panic_action, panic_data, panic_file_name, strip_panic_frames, LocationData, PanicAction,
    PanicInfo,
};
use zed::startup::session::{
    fonts_to_load, log_target, logger, opening_errors, opens_paths, restore_or_create_workspace,
    stdout_is_a_pty, theme_action, themes_dir, FirstWindow, LogTarget, Logger, ThemeAction,
    ThemeEvent, ThemesAction, ThemesDir, ThemesError, ThemesEvent, UserThemes, MAX_LOG_BYTES,
};

fn strings(texts: &[&str]) -> Vec<String> {
    texts.iter().map(|text| text.to_string()).collect()
}

#[test]
fn arguments_that_are_paths() {
    let path = Ok("/tmp/a.rs".to_string());
    assert_eq!(parse_url_arg("a.rs", path, None), Ok("file:///tmp/a.rs".to_string()));
    let error = || Err("no such file".to_string());
    assert_eq!(
        parse_url_arg("gone.rs", error(), None),
        Err("error parsing path argument: no such file".to_string())
    );
    let before = Some("/tmp/a.rs".to_string());
    assert_eq!(
        parse_url_arg("a.rs:3:7", error(), before),
        Ok("file:///tmp/a.rs:3:7".to_string())
    );
    assert!(parse_url_arg("a.rs", error(), Some("/tmp/a.rs".to_string())).is_err());
}

#[test]
fn arguments_that_are_urls() {
    for url in ["file:///a%20b:3", "zed-cli://pipe", "zed://file/a.rs", "https://zed.dev/channel/1", "https://zed.dev"] {
        let error = Err("no such file".to_string());
        assert_eq!(parse_url_arg(url, error, None), Ok(url.to_string()));
    }
    for other in ["https://example.com/a", "https://zed.development"] {
        assert!(parse_url_arg(other, Err("no such file".to_string()), None).is_err());
    }
}

#[test]
fn positions_in_arguments() {
    assert_eq!(split_position("a.rs:3:7"), Some(("a.rs", ":3:7")));
    assert_eq!(split_position("a.rs:3"), Some(("a.rs", ":3")));
    assert_eq!(split_position("a:1:2:3"), Some(("a:1", ":2:3")));
    assert_eq!(split_position("a.rs"), None);
    assert_eq!(split_position("a.rs:"), None);
    assert_eq!(split_position("a:3:b"), None);
    assert_eq!(split_position("42"), None);
}

#[test]
fn paths_and_places() {
    let parse = |text: &str| {
        let parsed = parse_path_and_place(text);
        (parsed.path.to_string(), parsed.row, parsed.column)
    };
    assert_eq!(parse("a.rs:3:7"), ("a.rs".to_string(), Some(3), Some(7)));
    assert_eq!(parse("a.rs:003"), ("a.rs".to_string(), Some(3), None));
    assert_eq!(parse("a.rs"), ("a.rs".to_string(), None, None));
    assert_eq!(parse("a:1:2:3"), ("a:1".to_string(), Some(2), Some(3)));
    assert_eq!(parse("a:4294967295:0"), ("a".to_string(), Some(u32::MAX), Some(0)));
    assert_eq!(parse("a:4294967296:5"), ("a".to_string(), None, Some(5)));
    assert_eq!(parse("a:99999999999999999999999999"), ("a".to_string(), None, None));
}

#[test]
fn arguments_that_fail_are_left_out() {
    let args = vec![Ok("a".to_string()), Err(1), Ok("b".to_string())];
    assert_eq!(urls_to_open(args), strings(&["a", "b"]));
}

#[test]
fn login_shells_go_home_first() {
    assert_eq!(
        login_shell_command(Some("/home/me".to_string())),
        "cd '/home/me';echo ZED_LOGIN_SHELL_START; /usr/bin/env -0; exit 0;"
    );
    assert_eq!(
        login_shell_command(None),
        "echo ZED_LOGIN_SHELL_START; /usr/bin/env -0; exit 0;"
    );
}

fn environment(output: &str) -> Vec<(String, String)> {
    login_environment(output).unwrap()
}

fn variable(name: &str, value: &str) -> (String, String) {
    (name.to_string(), value.to_string())
}

#[test]
fn environments_follow_the_marker() {
    assert_eq!(login_environment("A=1\0"), None);
    assert_eq!(environment("motd\nX=0\0ZED_LOGIN_SHELL_START"), vec![]);
    assert_eq!(
        environment("motd ZED_LOGIN_SHELL_START\nA=1\0B=x=y\0none\0\0C=\nline\0"),
        vec![variable("\nA", "1"), variable("B", "x=y"), variable("C", "\nline")]
    );
    // The last line need not be ended, and a second marker is as any other text.
    assert_eq!(
        environment("ZED_LOGIN_SHELL_STARTA=ZED_LOGIN_SHELL_START\0B="),
        vec![variable("A", "ZED_LOGIN_SHELL_START"), variable("B", "")]
    );
}

#[test]
fn environments_may_hold_what_is_no_text() {
    let output = b"ZED_LOGIN_SHELL_STARTA=1\0B=\xffx\0".to_vec();
    assert_eq!(
        login_environment_of_output(&output),
        Some(vec![variable("A", "1"), variable("B", "\u{fffd}x")])
    );
    assert_eq!(login_environment_of_output(&b"A=1\0".to_vec()), None);
}

#[test]
fn written_environments_are_read_back() {
    let written = "PATH=/bin:/usr/bin\0LANG=\0OPTS=a=b\0";
    assert_eq!(
        environment(&format!("{}{}", "ZED_LOGIN_SHELL_START", written)),
        vec![
            variable("PATH", "/bin:/usr/bin"),
            variable("LANG", ""),
            variable("OPTS", "a=b")
        ]
    );
}

fn panic_info() -> PanicInfo {
    PanicInfo {
        thread_name: None,
        str_payload: None,
        string_payload: None,
        location: Some(LocationData { file: "a.rs".to_string(), line: 3 }),
        app_version: None,
        package_version: None,
        os_name: "Linux".to_string(),
        os_version: Some("6.1".to_string()),
        architecture: "x86_64".to_string(),
        panicked_on: 12,
        backtrace: strings(&["backtrace", "rust_begin_unwind", "own", "main"]),
    }
}

#[test]
fn panics_are_described() {
    let panic = panic_data(panic_info());
    assert_eq!(panic.thread, "<unnamed>");
    assert_eq!(panic.payload, "Box<Any>");
    assert_eq!(panic.app_version, "dev");
    assert_eq!(panic.backtrace, strings(&["own", "main"]));
    assert_eq!(panic.location_data.map(|location| (location.file, location.line)), Some(("a.rs".to_string(), 3)));
    assert_eq!((panic.os_name.as_str(), panic.os_version.as_deref()), ("Linux", Some("6.1")));
    assert_eq!((panic.architecture.as_str(), panic.panicked_on), ("x86_64", 12));

    let mut info = panic_info();
    info.thread_name = Some("main".to_string());
    info.str_payload = Some("literal".to_string());
    info.string_payload = Some("string".to_string());
    info.app_version = Some("0.1.2".to_string());
    info.package_version = Some("0.1.0".to_string());
    let panic = panic_data(info);
    assert_eq!((panic.thread.as_str(), panic.payload.as_str()), ("main", "literal"));
    assert_eq!(panic.app_version, "0.1.2");

    let mut info = panic_info();
    info.string_payload = Some("string".to_string());
    info.package_version = Some("0.1.0".to_string());
    let panic = panic_data(info);
    assert_eq!((panic.payload.as_str(), panic.app_version.as_str()), ("string", "0.1.0"));
}

#[test]
fn frames_of_panic_handling_are_left_off() {
    assert_eq!(strip_panic_frames(strings(&["a", "b"])), strings(&["a", "b"]));
    assert_eq!(
        strip_panic_frames(strings(&["a", "rust_begin_unwind", "b", "rust_begin_unwind", "c"])),
        strings(&["b", "rust_begin_unwind", "c"])
    );
    assert!(strip_panic_frames(strings(&["rust_begin_unwind"])).is_empty());
}

#[test]
fn panics_are_reported_once() {
    assert_eq!(panic_action(0, true), PanicAction::Log);
    assert_eq!(panic_action(0, false), PanicAction::LogAndWrite);
    assert_eq!(panic_action(1, false), PanicAction::Wait);
    assert_eq!(panic_file_name("2024_01_02 03_04_05"), "zed-2024_01_02 03_04_05.panic");
}

#[test]
fn terminals_and_logs() {
    assert!(stdout_is_a_pty(None, true));
    assert!(!stdout_is_a_pty(None, false));
    assert!(!stdout_is_a_pty(Some(String::new()), true));
    assert_eq!(MAX_LOG_BYTES, 1_048_576);
    assert_eq!(log_target(true, Some(MAX_LOG_BYTES + 1)), LogTarget::Stdout);
    assert_eq!(log_target(false, Some(MAX_LOG_BYTES + 1)), LogTarget::File { rotate: true });
    assert_eq!(log_target(false, Some(MAX_LOG_BYTES)), LogTarget::File { rotate: false });
    assert_eq!(log_target(false, None), LogTarget::File { rotate: false });
}

#[test]
fn logs_that_do_not_open() {
    assert!(matches!(logger::<_, &str>(Ok("file")), Logger::File("file")));
    assert!(matches!(logger::<&str, _>(Err("denied")), Logger::Stdout { error: "denied" }));
}

#[test]
fn themes_are_loaded_then_shown() {
    let (themes, action) = UserThemes::start::<&str>(true);
    assert!(matches!(action, ThemesAction::Inspect));
    let (themes, action) = themes.next::<&str>(ThemesEvent::Inspected(None));
    assert!(matches!(action, ThemesAction::CreateDir));
    let (themes, action) = themes.next::<&str>(ThemesEvent::Done(Ok(())));
    assert!(matches!(action, ThemesAction::Load));
    let (themes, action) = themes.next::<&str>(ThemesEvent::Done(Ok(())));
    assert!(matches!(action, ThemesAction::ReloadCurrentTheme));
    let (themes, action) = themes.next::<&str>(ThemesEvent::Done(Ok(())));
    assert!(matches!(action, ThemesAction::Finish(Ok(()))));
    assert_eq!(themes, UserThemes::Finished);
}

#[test]
fn themes_that_cannot_be_loaded() {
    let (themes, action) = UserThemes::start::<&str>(false);
    assert_eq!(themes, UserThemes::Finished);
    assert!(matches!(action, ThemesAction::Finish(Ok(()))));

    let inspected = |is_dir| UserThemes::Inspecting.next::<&str>(ThemesEvent::Inspected(is_dir));
    assert!(matches!(
        inspected(Some(false)).1,
        ThemesAction::Finish(Err(ThemesError::NotADirectory))
    ));
    assert!(matches!(inspected(Some(true)).1, ThemesAction::Load));
    let failed = |themes: UserThemes| themes.next(ThemesEvent::Done(Err("denied")));
    assert!(matches!(
        failed(UserThemes::Creating).1,
        ThemesAction::Finish(Err(ThemesError::NotCreated("denied")))
    ));
    let (themes, action) = failed(UserThemes::Loading);
    assert_eq!(themes, UserThemes::Finished);
    assert!(matches!(action, ThemesAction::Finish(Err(ThemesError::Failed("denied")))));
}

#[test]
fn first_windows() {
    let restored = restore_or_create_workspace::<_, ()>(Some("here"), Ok(None));
    assert!(matches!(restored, FirstWindow::Restore("here")));
    let welcome = restore_or_create_workspace::<&str, ()>(None, Ok(None));
    assert!(matches!(welcome, FirstWindow::Welcome));
    let again = restore_or_create_workspace::<&str, ()>(None, Ok(Some("false".to_string())));
    assert!(matches!(again, FirstWindow::NewFile));
    let unknown = restore_or_create_workspace::<&str, ()>(None, Err(()));
    assert!(matches!(unknown, FirstWindow::NewFile));
}

#[test]
fn requests_and_what_comes_of_them() {
    let mut request = OpenRequest::default();
    request.join_channel = Some(1);
    assert!(!opens_paths(&request));
    let path_like = FilePath { absolute: true, components: strings(&["a"]) };
    request.open_paths.push(PathLikeWithPosition { path_like, row: None, column: None });
    assert!(opens_paths(&request));

    let results = vec![Some(Ok(1)), None, Some(Err("denied")), Some(Err("gone"))];
    assert_eq!(opening_errors(results), vec!["denied", "gone"]);
}

#[test]
fn fonts_and_themes() {
    let assets = strings(&["fonts/a.ttf", "fonts/license.txt", "fonts/b.ttf", "ttf"]);
    assert_eq!(fonts_to_load(&assets), strings(&["fonts/a.ttf", "fonts/b.ttf"]));
    assert_eq!(themes_dir(Some(true)), ThemesDir::Load);
    assert_eq!(themes_dir(Some(false)), ThemesDir::NotADirectory);
    assert_eq!(themes_dir(None), ThemesDir::Create);

    let changed = |file_exists, has_registry| {
        theme_action(ThemeEvent::Changed { file_exists, has_registry })
    };
    assert_eq!(changed(true, true), ThemeAction::Load);
    assert_eq!(changed(false, true), ThemeAction::Nothing);
    assert_eq!(changed(true, false), ThemeAction::Nothing);
    let loaded = |succeeded| theme_action(ThemeEvent::Loaded { succeeded });
    assert_eq!(loaded(true), ThemeAction::ReloadCurrentTheme);
    assert_eq!(loaded(false), ThemeAction::Nothing);
}
