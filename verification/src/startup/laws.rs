//! What holds of how the application starts, whatever it is started with.
use vstd::prelude::*;

use crate::startup::panics::PanicInfo;
use crate::startup::session::{ThemesAction, ThemesError, ThemesEvent, UserThemes};

verus! {

/// Where a colon is followed by digits up to an index, the digits before the index begin right
/// after the colon.
proof fn lemma_digits_after_a_colon(s: Seq<char>, colon: int, end: int)
    requires
        0 <= colon < end <= s.len(),
        s[colon] == ':',
        forall|i: int| colon < i < end ==> '0' <= #[trigger] s[i] <= '9',
    ensures
        crate::startup::arguments::digits_start(s, end) == colon + 1,
    decreases end,
{
    if end > colon + 1 {
        assert('0' <= s[end - 1] <= '9');
        lemma_digits_after_a_colon(s, colon, end - 1);
    }
}

proof fn lemma_digits_start(s: Seq<char>, end: int)
    requires
        0 <= end <= s.len(),
    ensures
        0 <= crate::startup::arguments::digits_start(s, end) <= end,
        forall|i: int|
            crate::startup::arguments::digits_start(s, end) <= i < end ==> '0' <= #[trigger] s[i]
                <= '9',
    decreases end,
{
    if 0 < end && '0' <= s[end - 1] <= '9' {
        lemma_digits_start(s, end - 1);
    }
}

/// A colon and a number are what a text has before an index exactly where a colon is somewhere
/// before it with digits, at least one, and nothing else between the two.
proof fn lemma_colon_before(s: Seq<char>, colon: int, end: int)
    requires
        0 <= end <= s.len(),
    ensures
        crate::startup::arguments::colon_before(s, end) == Some(colon) <==> {
            &&& 0 <= colon && colon + 1 < end
            &&& s[colon] == ':'
            &&& forall|i: int| colon < i < end ==> '0' <= #[trigger] s[i] <= '9'
        },
{
    lemma_digits_start(s, end);
    if 0 <= colon && colon + 1 < end && s[colon] == ':' && (forall|i: int|
        colon < i < end ==> '0' <= #[trigger] s[i] <= '9') {
        lemma_digits_after_a_colon(s, colon, end);
    }
}

/// In `path:line:row`, with digits for both numbers, the position begins at the first of the two
/// colons, and the numbers are the row and the column.
pub proof fn law_positions_of_two_numbers(s: Seq<char>, first: int, second: int)
    requires
        0 <= first,
        first + 1 < second,
        second + 1 < s.len(),
        s[first] == ':',
        s[second] == ':',
        forall|i: int| first < i < second ==> '0' <= #[trigger] s[i] <= '9',
        forall|i: int| second < i < s.len() ==> '0' <= #[trigger] s[i] <= '9',
    ensures
        crate::startup::arguments::position_start(s) == Some(first),
        crate::startup::arguments::place_in(s) == (
            crate::startup::arguments::row_or_column(s.subrange(first + 1, second)),
            crate::startup::arguments::row_or_column(s.subrange(second + 1, s.len() as int)),
        ),
{
    lemma_colon_before(s, second, s.len() as int);
    lemma_colon_before(s, first, second);
}

/// In `path:line`, with digits for the number and no other such number before it, the position
/// begins at the colon, and the number is the row.
pub proof fn law_positions_of_one_number(s: Seq<char>, colon: int)
    requires
        0 <= colon,
        colon + 1 < s.len(),
        s[colon] == ':',
        forall|i: int| colon < i < s.len() ==> '0' <= #[trigger] s[i] <= '9',
        forall|first: int|
            0 <= first && first + 1 < colon && #[trigger] s[first] == ':' ==> exists|i: int|
                first < i < colon && !('0' <= #[trigger] s[i] <= '9'),
    ensures
        crate::startup::arguments::position_start(s) == Some(colon),
        crate::startup::arguments::place_in(s) == (
            crate::startup::arguments::row_or_column(s.subrange(colon + 1, s.len() as int)),
            None::<u32>,
        ),
{
    lemma_colon_before(s, colon, s.len() as int);
    let before = crate::startup::arguments::colon_before(s, colon);
    if let Some(first) = before {
        lemma_colon_before(s, first, colon);
        assert(s[first] == ':');
        let i = choose|i: int| first < i < colon && !('0' <= #[trigger] s[i] <= '9');
        assert('0' <= s[i] <= '9');
    }
}

/// A text that does not end with a colon and digits has no position.
pub proof fn law_texts_without_a_position(s: Seq<char>)
    requires
        forall|colon: int|
            0 <= colon && colon + 1 < s.len() && #[trigger] s[colon] == ':' ==> exists|i: int|
                colon < i < s.len() && !('0' <= #[trigger] s[i] <= '9'),
    ensures
        crate::startup::arguments::position_start(s) is None,
        crate::startup::arguments::place_in(s) == (None::<u32>, None::<u32>),
{
    let before = crate::startup::arguments::colon_before(s, s.len() as int);
    if let Some(colon) = before {
        lemma_colon_before(s, colon, s.len() as int);
        assert(s[colon] == ':');
        let i = choose|i: int| colon < i < s.len() && !('0' <= #[trigger] s[i] <= '9');
        assert('0' <= s[i] <= '9');
    }
}

/// Digits write a number in the decimal system: a digit alone its value, and one more digit ten
/// times as much and its value. A row or a column is that number where it fits into 32 bits.
pub proof fn law_digits_are_decimal(digits: Seq<char>, digit: char)
    requires
        '0' <= digit <= '9',
    ensures
        crate::startup::arguments::number(Seq::empty()) == 0,
        crate::startup::arguments::number(seq![digit]) == digit as int - 48,
        crate::startup::arguments::number(digits.push(digit))
            == crate::startup::arguments::number(digits) * 10
            + crate::startup::arguments::number(seq![digit]),
        crate::startup::arguments::row_or_column(digits) is Some
            <==> crate::startup::arguments::number(digits) <= 4294967295,
        crate::startup::arguments::row_or_column(digits) matches Some(n) ==> n
            == crate::startup::arguments::number(digits),
{
    reveal_with_fuel(crate::startup::arguments::number, 2);
    assert(digits.push(digit).drop_last() =~= digits);
    assert(seq![digit].drop_last() =~= Seq::empty());
}

/// The URLs that are taken as they are begin with `file://`, `zed-cli://` or `zed://`, are the
/// site of the application, or lie under it.
pub proof fn law_what_urls_are(arg: Seq<char>, rest: Seq<char>)
    ensures
        crate::startup::arguments::is_url("file://"@ + rest),
        crate::startup::arguments::is_url("zed-cli://"@ + rest),
        crate::startup::arguments::is_url("zed://"@ + rest),
        crate::startup::arguments::is_url("https://zed.dev"@),
        crate::startup::arguments::is_url("https://zed.dev/"@ + rest),
        crate::startup::arguments::is_url(arg) ==> {
            ||| arg == "https://zed.dev"@
            ||| exists|rest: Seq<char>|
                {
                    ||| arg == #[trigger] ("file://"@ + rest)
                    ||| arg == "zed-cli://"@ + rest
                    ||| arg == "zed://"@ + rest
                    ||| arg == "https://zed.dev/"@ + rest
                }
        },
{
    crate::client::laws::law_links_begin_with_the_scheme();
    lemma_prefix("file://"@, rest);
    lemma_prefix("zed-cli://"@, rest);
    lemma_prefix("zed://"@, rest);
    lemma_prefix("https://zed.dev/"@, rest);
    if crate::startup::arguments::is_url(arg) && arg != "https://zed.dev"@ {
        let prefix = if "file://"@.is_prefix_of(arg) {
            "file://"@
        } else if "zed-cli://"@.is_prefix_of(arg) {
            "zed-cli://"@
        } else if "https://zed.dev/"@.is_prefix_of(arg) {
            "https://zed.dev/"@
        } else {
            "zed://"@
        };
        assert(prefix.is_prefix_of(arg));
        let after = arg.skip(prefix.len() as int);
        assert(arg =~= prefix + after);
        let other = "file://"@ + after;
    }
}

proof fn lemma_prefix(prefix: Seq<char>, rest: Seq<char>)
    ensures
        prefix.is_prefix_of(prefix + rest),
{
    assert((prefix + rest).subrange(0, prefix.len() as int) =~= prefix);
}

/// What an argument asks to open: the file at it where there is one; else itself where it is a
/// URL; else, where it ends with a position and there is a file at what is before that, that file
/// at that position. Anything else is an error, which says what was wrong with it as a path.
pub proof fn law_what_arguments_ask_for(
    arg: Seq<char>,
    path: Seq<char>,
    error: Seq<char>,
    before_position: Seq<char>,
    start: int,
)
    ensures
        forall|other: Option<Seq<char>>|
            #[trigger] crate::startup::arguments::url_to_open(arg, Ok(path), other) == Ok::<
                Seq<char>,
                Seq<char>,
            >("file://"@ + path),
        crate::startup::arguments::is_url(arg) ==> forall|other: Option<Seq<char>>|
            #[trigger] crate::startup::arguments::url_to_open(arg, Err(error), other) == Ok::<
                Seq<char>,
                Seq<char>,
            >(arg),
        !crate::startup::arguments::is_url(arg) && crate::startup::arguments::position_start(arg)
            == Some(start) && 0 <= start <= arg.len()
            ==> crate::startup::arguments::url_to_open(arg, Err(error), Some(before_position))
            == Ok::<Seq<char>, Seq<char>>(
            "file://"@ + before_position + arg.subrange(start, arg.len() as int),
        ),
        !crate::startup::arguments::is_url(arg) ==> crate::startup::arguments::url_to_open(
            arg,
            Err(error),
            None,
        ) == Err::<Seq<char>, Seq<char>>("error parsing path argument: "@ + error),
        !crate::startup::arguments::is_url(arg) && crate::startup::arguments::position_start(
            arg,
        ) is None ==> crate::startup::arguments::url_to_open(
            arg,
            Err(error),
            Some(before_position),
        ) == Err::<Seq<char>, Seq<char>>("error parsing path argument: "@ + error),
{
    if 0 <= start <= arg.len() {
        assert(arg.skip(start) =~= arg.subrange(start, arg.len() as int));
    }
}

/// Each argument counts by itself: the URL of one that has one is opened, one without is left out,
/// and what joined lists ask for follows each other.
pub proof fn law_urls_of_arguments<E>(
    url: String,
    error: E,
    first: Seq<Result<String, E>>,
    second: Seq<Result<String, E>>,
)
    ensures
        crate::startup::arguments::urls_of(Seq::<Result<String, E>>::empty()).len() == 0,
        crate::startup::arguments::urls_of(seq![Ok::<String, E>(url)]) == seq![url],
        crate::startup::arguments::urls_of(seq![Err::<String, E>(error)]).len() == 0,
        crate::startup::arguments::urls_of(first + second) == crate::startup::arguments::urls_of(
            first,
        ) + crate::startup::arguments::urls_of(second),
    decreases second.len(),
{
    reveal_with_fuel(crate::startup::arguments::urls_of, 2);
    assert(seq![Ok::<String, E>(url)].drop_last() =~= Seq::empty());
    assert(seq![Err::<String, E>(error)].drop_last() =~= Seq::empty());
    if second.len() == 0 {
        assert(first + second =~= first);
        assert(crate::startup::arguments::urls_of(first) + crate::startup::arguments::urls_of(
            second,
        ) =~= crate::startup::arguments::urls_of(first));
    } else {
        let rest = second.drop_last();
        law_urls_of_arguments(url, error, first, rest);
        assert((first + second).drop_last() =~= first + rest);
        assert((first + second).last() == second.last());
        assert(crate::startup::arguments::urls_of(first + second)
            =~= crate::startup::arguments::urls_of(first) + crate::startup::arguments::urls_of(
            second,
        ));
    }
}

/// The shell goes home, where home is known, and then writes the marker and its environment, and
/// ends.
pub proof fn law_what_the_shell_does(home: Seq<char>)
    ensures
        crate::startup::login_shell::shell_command(None)
            == "echo ZED_LOGIN_SHELL_START; /usr/bin/env -0; exit 0;"@,
        crate::startup::login_shell::shell_command(Some(home)) == "cd '"@ + home + "';"@
            + "echo ZED_LOGIN_SHELL_START; /usr/bin/env -0; exit 0;"@,
{
    reveal_strlit("echo ");
    reveal_strlit("ZED_LOGIN_SHELL_START");
    reveal_strlit("; /usr/bin/env -0; exit 0;");
    reveal_strlit("echo ZED_LOGIN_SHELL_START; /usr/bin/env -0; exit 0;");
    let rest = "echo ZED_LOGIN_SHELL_START; /usr/bin/env -0; exit 0;"@;
    assert("echo "@ + "ZED_LOGIN_SHELL_START"@ + "; /usr/bin/env -0; exit 0;"@ =~= rest);
    assert(crate::startup::login_shell::shell_command(None) =~= rest);
    assert(crate::startup::login_shell::shell_command(Some(home)) =~= "cd '"@ + home + "';"@ + rest);
}

/// A character first is where it is but is nowhere before, and nowhere is the end.
proof fn lemma_first_is(s: Seq<char>, c: char, at: int)
    requires
        0 <= at <= s.len(),
        at < s.len() ==> s[at] == c,
        forall|i: int| 0 <= i < at ==> s[i] != c,
    ensures
        crate::startup::login_shell::first_at(s, c) == at,
    decreases s.len(),
{
    if at > 0 {
        let rest = s.skip(1);
        assert forall|i: int| 0 <= i < at - 1 implies rest[i] != c by {
            assert(rest[i] == s[i + 1]);
        }
        lemma_first_is(rest, c, at - 1);
    }
}

/// A line sets the variable before its first equals sign to all that follows it, and nothing where
/// it has none. Lines end where a zero character is, or at the end, and each counts by itself.
pub proof fn law_what_lines_set(
    name: Seq<char>,
    value: Seq<char>,
    line: Seq<char>,
    rest: Seq<char>,
)
    requires
        !name.contains('='),
        !line.contains('\0'),
    ensures
        crate::startup::login_shell::variable_in(name + seq!['='] + value) == seq![(name, value)],
        !line.contains('=') ==> crate::startup::login_shell::variable_in(line).len() == 0,
        crate::startup::login_shell::variables_in(line)
            == crate::startup::login_shell::variable_in(line),
        crate::startup::login_shell::variables_in(line + seq!['\0'] + rest)
            == crate::startup::login_shell::variable_in(line)
            + crate::startup::login_shell::variables_in(rest),
{
    let set = name + seq!['='] + value;
    assert forall|i: int| 0 <= i < name.len() implies set[i] != '=' by {
        assert(set[i] == name[i]);
    }
    assert(set[name.len() as int] == '=');
    lemma_first_is(set, '=', name.len() as int);
    assert(set.take(name.len() as int) =~= name);
    assert(set.skip(name.len() as int + 1) =~= value);
    if !line.contains('=') {
        lemma_first_is(line, '=', line.len() as int);
    }
    lemma_first_is(line, '\0', line.len() as int);
    if line.len() == 0 {
        lemma_first_is(line, '=', 0);
        assert(crate::startup::login_shell::variables_in(line)
            =~= crate::startup::login_shell::variable_in(line));
    }
    let lines = line + seq!['\0'] + rest;
    assert forall|i: int| 0 <= i < line.len() implies lines[i] != '\0' by {
        assert(lines[i] == line[i]);
    }
    assert(lines[line.len() as int] == '\0');
    lemma_first_is(lines, '\0', line.len() as int);
    assert(lines.take(line.len() as int) =~= line);
    assert(lines.skip(line.len() as int + 1) =~= rest);
}

/// What the shell sets is what stands in its output after the first marker.
pub proof fn law_what_the_output_sets(
    variables: Seq<(Seq<char>, Seq<char>)>,
    output: Seq<char>,
    at: int,
)
    requires
        crate::startup::login_shell::are_set_by(variables, output),
        0 <= at,
        at + "ZED_LOGIN_SHELL_START"@.len() <= output.len(),
        output.subrange(at, at + "ZED_LOGIN_SHELL_START"@.len()) == "ZED_LOGIN_SHELL_START"@,
        forall|before: int|
            0 <= before < at ==> #[trigger] output.subrange(
                before,
                before + "ZED_LOGIN_SHELL_START"@.len(),
            ) != "ZED_LOGIN_SHELL_START"@,
    ensures
        variables == crate::startup::login_shell::variables_in(
            output.subrange(at + "ZED_LOGIN_SHELL_START"@.len(), output.len() as int),
        ),
{
    let marker = "ZED_LOGIN_SHELL_START"@;
    let found = choose|found: int|
        {
            &&& #[trigger] crate::text::occurs_at(output, marker, found)
            &&& forall|before: int|
                0 <= before < found ==> !crate::text::occurs_at(output, marker, before)
            &&& variables == crate::startup::login_shell::variables_in(
                output.skip(found + marker.len()),
            )
        };
    assert(crate::text::occurs_at(output, marker, at));
    if found < at {
        assert(output.subrange(found, found + marker.len()) == marker);
    }
    assert(found == at);
    assert(output.skip(at + marker.len()) =~= output.subrange(
        at + marker.len(),
        output.len() as int,
    ));
}

/// Of the frames of a stack, all up to the first that is called `rust_begin_unwind`, and that one,
/// are left off; and none where none is called so.
pub proof fn law_frames_of_a_panic(backtrace: Seq<String>, at: int)
    requires
        0 <= at <= backtrace.len(),
        at < backtrace.len() ==> backtrace[at]@ == "rust_begin_unwind"@,
        forall|i: int| 0 <= i < at ==> (#[trigger] backtrace[i])@ != "rust_begin_unwind"@,
    ensures
        at < backtrace.len() ==> crate::startup::panics::own_frames(backtrace)
            == backtrace.subrange(at + 1, backtrace.len() as int),
        at == backtrace.len() ==> crate::startup::panics::own_frames(backtrace) == backtrace,
{
    lemma_frames_from(backtrace, 0, at);
    if at < backtrace.len() {
        assert(backtrace.skip(at + 1) =~= backtrace.subrange(at + 1, backtrace.len() as int));
    }
}

proof fn lemma_frames_from(backtrace: Seq<String>, from: int, at: int)
    requires
        0 <= from <= at <= backtrace.len(),
        at < backtrace.len() ==> backtrace[at]@ == "rust_begin_unwind"@,
        forall|i: int| from <= i < at ==> (#[trigger] backtrace[i])@ != "rust_begin_unwind"@,
    ensures
        crate::startup::panics::own_frames_from(backtrace, from) == if at < backtrace.len() {
            backtrace.skip(at + 1)
        } else {
            backtrace
        },
    decreases at - from,
{
    if from < at {
        assert(backtrace[from]@ != "rust_begin_unwind"@);
        lemma_frames_from(backtrace, from + 1, at);
    }
}

/// What was panicked with is a literal, or else a string, or else not known; and the version is
/// the one that the system has, or else the one that was built, or else that of a developer.
pub proof fn law_what_is_known_of_a_panic(info: PanicInfo, other: Seq<char>)
    ensures
        match (info.str_payload, info.string_payload) {
            (Some(literal), _) => info.payload() == literal@,
            (None, Some(string)) => info.payload() == string@,
            (None, None) => info.payload() == "Box<Any>"@,
        },
        match (info.app_version, info.package_version) {
            (Some(version), _) => info.version() == version@,
            (None, Some(version)) => info.version() == version@,
            (None, None) => info.version() == "dev"@,
        },
        match info.thread_name {
            Some(name) => crate::startup::panics::text_or(info.thread_name, other) == name@,
            None => crate::startup::panics::text_or(info.thread_name, other) == other,
        },
{
}

/// Each thing that was to be opened counts by itself: an error is reported as it is, all else not
/// at all, and what is reported of joined lists follows each other.
pub proof fn law_errors_of_opening<T, E>(
    opened: T,
    error: E,
    first: Seq<Option<Result<T, E>>>,
    second: Seq<Option<Result<T, E>>>,
)
    ensures
        crate::startup::session::errors_of(Seq::<Option<Result<T, E>>>::empty()).len() == 0,
        crate::startup::session::errors_of(seq![None::<Result<T, E>>]).len() == 0,
        crate::startup::session::errors_of(seq![Some(Ok::<T, E>(opened))]).len() == 0,
        crate::startup::session::errors_of(seq![Some(Err::<T, E>(error))]) == seq![error],
        crate::startup::session::errors_of(first + second) == crate::startup::session::errors_of(
            first,
        ) + crate::startup::session::errors_of(second),
    decreases second.len(),
{
    reveal_with_fuel(crate::startup::session::errors_of, 2);
    assert(seq![None::<Result<T, E>>].drop_last() =~= Seq::empty());
    assert(seq![Some(Ok::<T, E>(opened))].drop_last() =~= Seq::empty());
    assert(seq![Some(Err::<T, E>(error))].drop_last() =~= Seq::empty());
    if second.len() == 0 {
        assert(first + second =~= first);
        assert(crate::startup::session::errors_of(first) + crate::startup::session::errors_of(
            second,
        ) =~= crate::startup::session::errors_of(first));
    } else {
        let rest = second.drop_last();
        law_errors_of_opening(opened, error, first, rest);
        assert((first + second).drop_last() =~= first + rest);
        assert((first + second).last() == second.last());
        assert(crate::startup::session::errors_of(first + second)
            =~= crate::startup::session::errors_of(first) + crate::startup::session::errors_of(
            second,
        ));
    }
}

/// A log makes way for another once it is larger than 1048576 bytes.
pub proof fn law_how_large_logs_become()
    ensures
        crate::startup::session::MAX_LOG_BYTES == 1048576,
{
}

/// Each asset counts by itself: one whose path ends in `.ttf` is a font, any other is none, and
/// the fonts of joined lists follow each other.
pub proof fn law_which_assets_are_fonts(path: String, first: Seq<String>, second: Seq<String>)
    ensures
        crate::startup::session::font_paths(Seq::empty()).len() == 0,
        (exists|stem: Seq<char>| path@ == #[trigger] (stem + ".ttf"@))
            ==> crate::startup::session::font_paths(seq![path]) == seq![path],
        (forall|stem: Seq<char>| path@ != #[trigger] (stem + ".ttf"@))
            ==> crate::startup::session::font_paths(seq![path]).len() == 0,
        crate::startup::session::font_paths(first + second) == crate::startup::session::font_paths(
            first,
        ) + crate::startup::session::font_paths(second),
{
    let is_font = |path: String| ".ttf"@.is_suffix_of(path@);
    assert(crate::startup::session::font_paths(Seq::empty()).len() == 0
        && crate::startup::session::font_paths(seq![path]) == if is_font(path) {
        seq![path]
    } else {
        Seq::empty()
    }) by {
        reveal(Seq::filter);
        reveal_with_fuel(Seq::filter, 2);
        assert(seq![path].drop_last() =~= Seq::empty());
    }
    if exists|stem: Seq<char>| path@ == #[trigger] (stem + ".ttf"@) {
        let stem = choose|stem: Seq<char>| path@ == #[trigger] (stem + ".ttf"@);
        assert((stem + ".ttf"@).subrange(
            path@.len() - ".ttf"@.len(),
            path@.len() as int,
        ) =~= ".ttf"@);
    } else if is_font(path) {
        let stem = path@.take(path@.len() - ".ttf"@.len());
        assert(path@ =~= stem + ".ttf"@);
    }
    Seq::filter_distributes_over_add(first, second, is_font);
}

/// How the themes of the user are loaded, step by step: from a directory that is there; from one
/// that was just made where there is nothing; and not where something else is in its place. The
/// theme that is shown is read anew once they are loaded. Each failure is reported as what it is.
pub proof fn law_how_themes_are_loaded<E>(themes: UserThemes, event: ThemesEvent<E>)
    requires
        themes.expects(event),
    ensures
        ({
            let (after, action) = themes.after(event);
            match themes {
                UserThemes::Inspecting => match event {
                    ThemesEvent::Inspected(Some(is_dir)) => if is_dir {
                        after is Loading && action is Load
                    } else {
                        after is Finished && action == ThemesAction::<E>::Finish(
                            Err(ThemesError::NotADirectory),
                        )
                    },
                    ThemesEvent::Inspected(None) => after is Creating && action is CreateDir,
                    ThemesEvent::Done(_) => false,
                },
                UserThemes::Creating => match event {
                    ThemesEvent::Done(Ok(_)) => after is Loading && action is Load,
                    ThemesEvent::Done(Err(error)) => after is Finished && action
                        == ThemesAction::<E>::Finish(Err(ThemesError::NotCreated(error))),
                    ThemesEvent::Inspected(_) => false,
                },
                UserThemes::Loading => match event {
                    ThemesEvent::Done(Ok(_)) => after is Reloading && action is ReloadCurrentTheme,
                    ThemesEvent::Done(Err(error)) => after is Finished && action
                        == ThemesAction::<E>::Finish(Err(ThemesError::Failed(error))),
                    ThemesEvent::Inspected(_) => false,
                },
                UserThemes::Reloading => match event {
                    ThemesEvent::Done(Ok(_)) => after is Finished && action == ThemesAction::<
                        E,
                    >::Finish(Ok(())),
                    ThemesEvent::Done(Err(error)) => after is Finished && action
                        == ThemesAction::<E>::Finish(Err(ThemesError::Failed(error))),
                    ThemesEvent::Inspected(_) => false,
                },
                UserThemes::Finished => false,
            }
        }),
{
}

/// What the loading of themes waits for: what is in the place of their directory, and then what
/// came of each step; nothing once it is over.
pub proof fn law_what_loading_themes_waits_for<E>(themes: UserThemes, event: ThemesEvent<E>)
    ensures
        themes is Inspecting ==> (themes.expects(event) <==> event is Inspected),
        themes is Creating || themes is Loading || themes is Reloading ==> (themes.expects(event)
            <==> event is Done),
        themes is Finished ==> !themes.expects(event),
{
}

}
