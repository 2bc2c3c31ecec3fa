//! What the application does once it runs: which windows it opens, where it logs, which fonts and
//! themes it loads.
use vstd::prelude::*;

use crate::open_listener::OpenRequest;
use crate::text::ends_with;

verus! {

/// How large a log may become before another is begun: a mebibyte.
pub const MAX_LOG_BYTES: u64 = 1024 * 1024;

/// Whether the standard output is a terminal that a person looks at, rather than one that the
/// command line tool stands in for.
pub fn stdout_is_a_pty(force_cli_mode: Option<String>, stdout_is_terminal: bool) -> (r: bool)
    ensures
        r == (force_cli_mode is None && stdout_is_terminal),
{
    force_cli_mode.is_none() && stdout_is_terminal
}

/// Where the application logs.
#[derive(Clone, Copy, Debug, PartialEq, Eq, Structural)]
pub enum LogTarget {
    Stdout,
    File {
        /// Whether the log that there is makes way for another.
        rotate: bool,
    },
}

/// Where the application logs, given how large the log is, if there is one.
pub fn log_target(is_pty: bool, log_bytes: Option<u64>) -> (r: LogTarget)
    ensures
        r == if is_pty {
            LogTarget::Stdout
        } else {
            LogTarget::File { rotate: log_bytes is Some && log_bytes->0 > MAX_LOG_BYTES }
        },
{
    if is_pty {
        LogTarget::Stdout
    } else {
        let rotate = match log_bytes {
            Some(len) => len > MAX_LOG_BYTES,
            None => false,
        };
        LogTarget::File { rotate }
    }
}

/// Where the application logs once it tried to open the log.
#[derive(Debug)]
pub enum Logger<F, E> {
    /// The log, which further lines are added to.
    File(F),
    /// The standard output, where what was wrong with the log is reported first.
    Stdout { error: E },
}

/// Where the application logs, given what came of opening the log: a log that cannot be opened
/// is no reason not to start.
pub fn logger<F, E>(opened: Result<F, E>) -> (r: Logger<F, E>)
    ensures
        r == match opened {
            Ok(file) => Logger::File(file),
            Err(error) => Logger::Stdout { error },
        },
{
    match opened {
        Ok(file) => Logger::File(file),
        Err(error) => Logger::Stdout { error },
    }
}

/// Whether a request has paths to open. All else in it is left alone.
pub fn opens_paths(request: &OpenRequest) -> (r: bool)
    ensures
        r == (request.open_paths@.len() > 0),
{
    request.open_paths.len() > 0
}

/// The errors among what came of opening paths.
pub open spec fn errors_of<T, E>(results: Seq<Option<Result<T, E>>>) -> Seq<E>
    decreases results.len(),
{
    if results.len() == 0 {
        Seq::empty()
    } else {
        let rest = errors_of(results.drop_last());
        match results.last() {
            Some(Err(error)) => rest.push(error),
            _ => rest,
        }
    }
}

/// The errors to report once paths were opened.
pub fn opening_errors<T, E>(results: Vec<Option<Result<T, E>>>) -> (r: Vec<E>)
    ensures
        r@ == errors_of(results@),
{
    let ghost all = results@;
    let mut errors: Vec<E> = Vec::new();
    for result in it: results
        invariant
            it.seq() == all,
            errors@ == errors_of(all.take(it.index())),
    {
        proof {
            let next = all.take(it.index() + 1);
            assert(next.drop_last() =~= all.take(it.index()));
            assert(next.last() == result);
        }
        match result {
            Some(Err(error)) => errors.push(error),
            _ => {},
        }
    }
    assert(all.take(all.len() as int) =~= all);
    errors
}

/// The window that the application opens when it is not asked to open anything.
#[derive(Debug)]
pub enum FirstWindow<L> {
    /// What was last open.
    Restore(L),
    /// A welcome, the first time.
    Welcome,
    /// A new file.
    NewFile,
}

/// The window to open when nothing is asked for, given what was last open and what is stored of
/// the application having been opened before. If that cannot be read it counts as having been.
pub fn restore_or_create_workspace<L, E>(
    last_opened: Option<L>,
    first_open: Result<Option<String>, E>,
) -> (r: FirstWindow<L>)
    ensures
        r == match last_opened {
            Some(location) => FirstWindow::Restore(location),
            None => if first_open is Ok && first_open->Ok_0 is None {
                FirstWindow::Welcome
            } else {
                FirstWindow::NewFile
            },
        },
{
    match last_opened {
        Some(location) => FirstWindow::Restore(location),
        None => match first_open {
            Ok(None) => FirstWindow::Welcome,
            _ => FirstWindow::NewFile,
        },
    }
}

/// Those of the paths that are of fonts.
pub open spec fn font_paths(paths: Seq<String>) -> Seq<String> {
    paths.filter(|path: String| ".ttf"@.is_suffix_of(path@))
}

/// The fonts to load, of the assets that there are.
pub fn fonts_to_load(paths: &Vec<String>) -> (r: Vec<String>)
    ensures
        r@ == font_paths(paths@),
{
    let ghost is_font = |path: String| ".ttf"@.is_suffix_of(path@);
    let mut fonts: Vec<String> = Vec::new();
    let mut i: usize = 0;
    assert(paths@.take(0).filter(is_font) =~= Seq::empty()) by {
        reveal(Seq::filter);
    }
    while i < paths.len()
        invariant
            i <= paths.len(),
            is_font == (|path: String| ".ttf"@.is_suffix_of(path@)),
            fonts@ == paths@.take(i as int).filter(is_font),
        decreases paths.len() - i,
    {
        proof {
            reveal(Seq::filter);
            let next = paths@.take(i + 1);
            assert(next.drop_last() =~= paths@.take(i as int));
            assert(next.last() == paths@[i as int]);
        }
        if ends_with(paths[i].as_str(), ".ttf") {
            fonts.push(paths[i].clone());
        }
        i = i + 1;
    }
    assert(paths@.take(paths.len() as int) =~= paths@);
    fonts
}

/// What is to be done about the directory that the themes of the user are in.
#[derive(Clone, Copy, Debug, PartialEq, Eq, Structural)]
pub enum ThemesDir {
    /// The themes are loaded from it.
    Load,
    /// It is made first.
    Create,
    /// Something else is in its place.
    NotADirectory,
}

/// What is to be done about the directory of themes, given whether what is there is one.
pub fn themes_dir(is_dir: Option<bool>) -> (r: ThemesDir)
    ensures
        r == match is_dir {
            Some(true) => ThemesDir::Load,
            Some(false) => ThemesDir::NotADirectory,
            None => ThemesDir::Create,
        },
{
    match is_dir {
        Some(is_dir) => if is_dir {
            ThemesDir::Load
        } else {
            ThemesDir::NotADirectory
        },
        None => ThemesDir::Create,
    }
}

/// Why the themes of the user are not shown.
#[derive(Debug)]
pub enum ThemesError<E> {
    /// What is in the place of the directory is none.
    NotADirectory,
    /// The directory could not be made.
    NotCreated(E),
    /// The themes could not be loaded, or the one that is shown not be read anew.
    Failed(E),
}

/// What is to be done next to load the themes of the user.
#[derive(Debug)]
pub enum ThemesAction<E> {
    /// Find out whether what is in the place of the directory is one.
    Inspect,
    /// Make the directory.
    CreateDir,
    /// Load the themes from the directory.
    Load,
    /// Read the theme that is shown anew.
    ReloadCurrentTheme,
    /// Nothing more: this is how it went.
    Finish(Result<(), ThemesError<E>>),
}

/// What came of the last thing that was done.
#[derive(Debug)]
pub enum ThemesEvent<E> {
    /// What is in the place of the directory is one, or is none, or there is nothing.
    Inspected(Option<bool>),
    /// The directory was made, the themes were loaded, or the theme was read; or not.
    Done(Result<(), E>),
}

/// How far the loading of the themes of the user has come.
#[derive(Clone, Copy, Debug, PartialEq, Eq, Structural)]
pub enum UserThemes {
    Inspecting,
    Creating,
    Loading,
    Reloading,
    Finished,
}

impl UserThemes {
    /// Starts to load the themes. There is nothing to do once the application is about to end,
    /// and has no themes any more.
    pub fn start<E>(has_registry: bool) -> (r: (UserThemes, ThemesAction<E>))
        ensures
            has_registry ==> r == (UserThemes::Inspecting, ThemesAction::<E>::Inspect),
            !has_registry ==> r == (UserThemes::Finished, ThemesAction::<E>::Finish(Ok(()))),
    {
        if has_registry {
            (UserThemes::Inspecting, ThemesAction::Inspect)
        } else {
            (UserThemes::Finished, ThemesAction::Finish(Ok(())))
        }
    }

    /// Whether the event is one of the kind that is waited for.
    pub open spec fn expects<E>(self, event: ThemesEvent<E>) -> bool {
        match self {
            UserThemes::Inspecting => event is Inspected,
            UserThemes::Creating | UserThemes::Loading | UserThemes::Reloading => event is Done,
            UserThemes::Finished => false,
        }
    }

    /// How it goes on after the event: the themes are loaded from a directory that is there or
    /// was just made, and only once they are is the theme that is shown read anew.
    pub open spec fn after<E>(self, event: ThemesEvent<E>) -> (UserThemes, ThemesAction<E>) {
        match (self, event) {
            (UserThemes::Inspecting, ThemesEvent::Inspected(Some(true))) => (
                UserThemes::Loading,
                ThemesAction::Load,
            ),
            (UserThemes::Inspecting, ThemesEvent::Inspected(Some(false))) => (
                UserThemes::Finished,
                ThemesAction::Finish(Err(ThemesError::NotADirectory)),
            ),
            (UserThemes::Inspecting, ThemesEvent::Inspected(None)) => (
                UserThemes::Creating,
                ThemesAction::CreateDir,
            ),
            (UserThemes::Creating, ThemesEvent::Done(Ok(_))) => (
                UserThemes::Loading,
                ThemesAction::Load,
            ),
            (UserThemes::Creating, ThemesEvent::Done(Err(error))) => (
                UserThemes::Finished,
                ThemesAction::Finish(Err(ThemesError::NotCreated(error))),
            ),
            (UserThemes::Loading, ThemesEvent::Done(Ok(_))) => (
                UserThemes::Reloading,
                ThemesAction::ReloadCurrentTheme,
            ),
            (_, ThemesEvent::Done(Err(error))) => (
                UserThemes::Finished,
                ThemesAction::Finish(Err(ThemesError::Failed(error))),
            ),
            _ => (UserThemes::Finished, ThemesAction::Finish(Ok(()))),
        }
    }

    /// Goes on after what was last asked for was done.
    pub fn next<E>(self, event: ThemesEvent<E>) -> (r: (UserThemes, ThemesAction<E>))
        requires
            self.expects(event),
        ensures
            r == self.after(event),
    {
        match event {
            ThemesEvent::Inspected(is_dir) => match themes_dir(is_dir) {
                ThemesDir::Load => (UserThemes::Loading, ThemesAction::Load),
                ThemesDir::Create => (UserThemes::Creating, ThemesAction::CreateDir),
                ThemesDir::NotADirectory => (
                    UserThemes::Finished,
                    ThemesAction::Finish(Err(ThemesError::NotADirectory)),
                ),
            },
            ThemesEvent::Done(Err(error)) => {
                let error = match self {
                    UserThemes::Creating => ThemesError::NotCreated(error),
                    _ => ThemesError::Failed(error),
                };
                (UserThemes::Finished, ThemesAction::Finish(Err(error)))
            },
            ThemesEvent::Done(Ok(())) => match self {
                UserThemes::Creating => (UserThemes::Loading, ThemesAction::Load),
                UserThemes::Loading => (UserThemes::Reloading, ThemesAction::ReloadCurrentTheme),
                _ => (UserThemes::Finished, ThemesAction::Finish(Ok(()))),
            },
        }
    }
}

/// The themes of the user are loaded exactly where their directory is there, or is not but can be
/// made; and the theme that is shown is read anew exactly where they could be loaded.
pub proof fn law_themes_are_loaded_from_a_directory<E>(
    is_dir: Option<bool>,
    created: Result<(), E>,
    loaded: Result<(), E>,
)
    ensures
        ({
            let inspected = UserThemes::Inspecting.after::<E>(ThemesEvent::Inspected(is_dir));
            let made = if inspected.1 is CreateDir {
                inspected.0.after(ThemesEvent::Done(created))
            } else {
                inspected
            };
            let shown = made.0.after(ThemesEvent::Done(loaded));
            &&& made.1 is Load <==> is_dir == Some(true) || (is_dir is None && created is Ok)
            &&& !(made.1 is Load) ==> made.0 == UserThemes::Finished && made.1 is Finish
            &&& made.1 is Load ==> (shown.1 is ReloadCurrentTheme <==> loaded is Ok)
            &&& made.1 is Load && loaded is Err ==> shown.0 == UserThemes::Finished
                && shown.1 is Finish
        }),
{
}

/// What happens to a theme of the user.
#[derive(Clone, Copy, Debug, PartialEq, Eq, Structural)]
pub enum ThemeEvent {
    /// Its file changed; the file may be gone, and the application may be about to end.
    Changed { file_exists: bool, has_registry: bool },
    /// It was loaded, or not.
    Loaded { succeeded: bool },
}

/// What is to be done about a theme.
#[derive(Clone, Copy, Debug, PartialEq, Eq, Structural)]
pub enum ThemeAction {
    Nothing,
    /// It is loaded.
    Load,
    /// The theme that is shown is read anew, since it may be the one.
    ReloadCurrentTheme,
}

/// What is to be done about a theme after something happened to it.
pub fn theme_action(event: ThemeEvent) -> (r: ThemeAction)
    ensures
        r == match event {
            ThemeEvent::Changed { file_exists: true, has_registry: true } => ThemeAction::Load,
            ThemeEvent::Loaded { succeeded: true } => ThemeAction::ReloadCurrentTheme,
            _ => ThemeAction::Nothing,
        },
{
    match event {
        ThemeEvent::Changed { file_exists, has_registry } => if file_exists && has_registry {
            ThemeAction::Load
        } else {
            ThemeAction::Nothing
        },
        ThemeEvent::Loaded { succeeded } => if succeeded {
            ThemeAction::ReloadCurrentTheme
        } else {
            ThemeAction::Nothing
        },
    }
}

}
