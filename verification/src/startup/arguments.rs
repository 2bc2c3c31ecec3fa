//! The paths and URLs that the application is started with.
use vstd::prelude::*;

use crate::client::link::parse_zed_link;
use crate::text::{chars_of, starts_with, str_eq};

verus! {

/// Whether a character is a digit of a row or a column.
pub open spec fn is_digit(c: char) -> bool {
    '0' <= c <= '9'
}

/// Where the digits begin that a text has before an index.
pub open spec fn digits_start(s: Seq<char>, end: int) -> int
    decreases end,
{
    if 0 < end <= s.len() && is_digit(s[end - 1]) {
        digits_start(s, end - 1)
    } else {
        end
    }
}

/// Where the colon is, if a colon and a number are what a text has before an index.
pub open spec fn colon_before(s: Seq<char>, end: int) -> Option<int> {
    let start = digits_start(s, end);
    if 0 < start < end && s[start - 1] == ':' {
        Some(start - 1)
    } else {
        None
    }
}

/// Where in `path:line:row` or `path:line` the position begins.
pub open spec fn position_start(s: Seq<char>) -> Option<int> {
    match colon_before(s, s.len() as int) {
        Some(colon) => match colon_before(s, colon) {
            Some(first) => Some(first),
            None => Some(colon),
        },
        None => None,
    }
}

fn find_colon_before(chars: &Vec<char>, end: usize) -> (r: Option<usize>)
    requires
        end <= chars@.len(),
    ensures
        match r {
            Some(colon) => colon < end && colon_before(chars@, end as int) == Some(colon as int),
            None => colon_before(chars@, end as int) is None,
        },
{
    let mut start: usize = end;
    while start > 0 && chars[start - 1] >= '0' && chars[start - 1] <= '9'
        invariant
            start <= end <= chars@.len(),
            digits_start(chars@, end as int) == digits_start(chars@, start as int),
        decreases start,
    {
        start = start - 1;
    }
    if 0 < start && start < end && chars[start - 1] == ':' {
        Some(start - 1)
    } else {
        None
    }
}

/// Parts a path from the position in the file at it, in `path:line:row` or `path:line`.
pub fn split_position<'a>(arg: &'a str) -> (r: Option<(&'a str, &'a str)>)
    ensures
        match r {
            Some((path, position)) => {
                &&& position_start(arg@) == Some(path@.len() as int)
                &&& arg@ == path@ + position@
            },
            None => position_start(arg@) is None,
        },
{
    let chars = chars_of(arg);
    let colon = match find_colon_before(&chars, chars.len()) {
        Some(colon) => colon,
        None => {
            return None;
        },
    };
    let start = match find_colon_before(&chars, colon) {
        Some(first) => first,
        None => colon,
    };
    let path = arg.substring_char(0, start);
    let position = arg.substring_char(start, chars.len());
    assert(arg@ =~= path@ + position@);
    Some((path, position))
}

/// The number that digits write.
pub open spec fn number(digits: Seq<char>) -> nat
    decreases digits.len(),
{
    if digits.len() == 0 {
        0
    } else {
        10 * number(digits.drop_last()) + (digits.last() as nat - '0' as nat) as nat
    }
}

/// The number that digits write, if it is one that a row or a column can have.
pub open spec fn row_or_column(digits: Seq<char>) -> Option<u32> {
    if number(digits) <= u32::MAX {
        Some(number(digits) as u32)
    } else {
        None
    }
}

proof fn lemma_number_grows(digits: Seq<char>, count: int)
    requires
        0 <= count <= digits.len(),
    ensures
        number(digits.take(count)) <= number(digits),
    decreases digits.len() - count,
{
    if count < digits.len() {
        lemma_number_grows(digits, count + 1);
        assert(digits.take(count + 1).drop_last() =~= digits.take(count));
    } else {
        assert(digits.take(count) =~= digits);
    }
}

fn parse_number(chars: &Vec<char>, from: usize, to: usize) -> (r: Option<u32>)
    requires
        from <= to <= chars@.len(),
        forall|i: int| from <= i < to ==> is_digit(#[trigger] chars@[i]),
    ensures
        r == row_or_column(chars@.subrange(from as int, to as int)),
{
    let ghost digits = chars@.subrange(from as int, to as int);
    let mut value: u64 = 0;
    let mut i: usize = from;
    while i < to
        invariant
            from <= i <= to <= chars@.len(),
            digits == chars@.subrange(from as int, to as int),
            forall|j: int| from <= j < to ==> is_digit(#[trigger] chars@[j]),
            value == number(digits.take(i - from)),
            value <= u32::MAX,
        decreases to - i,
    {
        proof {
            let next = digits.take(i - from + 1);
            assert(next.drop_last() =~= digits.take(i - from));
            assert(next.last() == chars@[i as int]);
            lemma_number_grows(digits, i - from + 1);
            assert(is_digit(chars@[i as int]));
        }
        value = 10 * value + (chars[i] as u64 - '0' as u64);
        i = i + 1;
        if value > u32::MAX as u64 {
            return None;
        }
    }
    assert(digits.take(to - from) =~= digits);
    Some(value as u32)
}

/// A path and the place in the file at it that an argument names.
#[derive(Debug)]
pub struct PathAndPlace<'a> {
    pub path: &'a str,
    pub row: Option<u32>,
    pub column: Option<u32>,
}

/// The row and the column that a text names. Of one number it is the row; a number that is too
/// large names none.
pub open spec fn place_in(s: Seq<char>) -> (Option<u32>, Option<u32>) {
    let len = s.len() as int;
    match colon_before(s, len) {
        Some(colon) => match colon_before(s, colon) {
            Some(first) => (
                row_or_column(s.subrange(first + 1, colon)),
                row_or_column(s.subrange(colon + 1, len)),
            ),
            None => (row_or_column(s.subrange(colon + 1, len)), None),
        },
        None => (None, None),
    }
}

/// Reads `path:line:row`, `path:line` or a path alone.
pub fn parse_path_and_place<'a>(text: &'a str) -> (r: PathAndPlace<'a>)
    ensures
        r.path@ == match position_start(text@) {
            Some(start) => text@.take(start),
            None => text@,
        },
        (r.row, r.column) == place_in(text@),
{
    let chars = chars_of(text);
    let len = chars.len();
    let colon = match find_colon_before(&chars, len) {
        Some(colon) => colon,
        None => {
            return PathAndPlace { path: text, row: None, column: None };
        },
    };
    proof {
        lemma_digits(chars@, len as int);
        lemma_digits(chars@, colon as int);
    }
    match find_colon_before(&chars, colon) {
        Some(first) => PathAndPlace {
            path: text.substring_char(0, first),
            row: parse_number(&chars, first + 1, colon),
            column: parse_number(&chars, colon + 1, len),
        },
        None => PathAndPlace {
            path: text.substring_char(0, colon),
            row: parse_number(&chars, colon + 1, len),
            column: None,
        },
    }
}

/// The site of the application.
pub const ZED_SITE: &'static str = "https://zed.dev";

/// What links to the pages of the site begin with.
pub const ZED_PAGES: &'static str = "https://zed.dev/";

/// Whether an argument is a URL that the application opens.
pub open spec fn is_url(arg: Seq<char>) -> bool {
    ||| "file://"@.is_prefix_of(arg)
    ||| "zed-cli://"@.is_prefix_of(arg)
    ||| arg == ZED_SITE@
    ||| ZED_PAGES@.is_prefix_of(arg)
    ||| crate::client::link::zed_link_prefix().is_prefix_of(arg)
}

/// What an argument asks to open, given the full path of the file that it names, or else what is
/// wrong with it as a path, and the full path of what is left of it without a position. URLs are
/// taken as they are.
pub open spec fn url_to_open(
    arg: Seq<char>,
    path: Result<Seq<char>, Seq<char>>,
    path_before_position: Option<Seq<char>>,
) -> Result<Seq<char>, Seq<char>> {
    match path {
        Ok(path) => Ok("file://"@ + path),
        Err(error) => if is_url(arg) {
            Ok(arg)
        } else {
            match (path_before_position, position_start(arg)) {
                (Some(path), Some(start)) => Ok("file://"@ + path + arg.skip(start)),
                _ => Err("error parsing path argument: "@ + error),
            }
        },
    }
}

/// What an argument asks to open.
pub fn parse_url_arg(
    arg: &str,
    path: Result<String, String>,
    path_before_position: Option<String>,
) -> (r: Result<String, String>)
    ensures
        ({
            let expected = url_to_open(
                arg@,
                match path {
                    Ok(path) => Ok(path@),
                    Err(error) => Err(error@),
                },
                match path_before_position {
                    Some(path) => Some(path@),
                    None => None,
                },
            );
            match r {
                Ok(url) => expected == Ok::<Seq<char>, Seq<char>>(url@),
                Err(error) => expected == Err::<Seq<char>, Seq<char>>(error@),
            }
        }),
{
    let error = match path {
        Ok(path) => {
            let mut url = "file://".to_string();
            url.append(path.as_str());
            return Ok(url);
        },
        Err(error) => error,
    };
    if starts_with(arg, "file://") || starts_with(arg, "zed-cli://") {
        return Ok(arg.to_string());
    }
    if str_eq(arg, ZED_SITE) || starts_with(arg, ZED_PAGES) {
        return Ok(arg.to_string());
    }
    match parse_zed_link(arg) {
        Some(rest) => {
            let ghost prefix = crate::client::link::zed_link_prefix();
            assert(arg@.subrange(0, prefix.len() as int) =~= prefix);
            return Ok(arg.to_string());
        },
        None => {},
    }
    match (path_before_position, split_position(arg)) {
        (Some(path), Some((before, position))) => {
            assert(position@ =~= arg@.skip(before@.len() as int));
            let mut url = "file://".to_string();
            url.append(path.as_str());
            url.append(position);
            Ok(url)
        },
        _ => {
            let mut message = "error parsing path argument: ".to_string();
            message.append(error.as_str());
            Err(message)
        },
    }
}

/// A position is what it is written as: the path before it has none of it.
pub proof fn law_position_is_digits_and_colons(arg: Seq<char>)
    requires
        position_start(arg) is Some,
    ensures
        ({
            let start = position_start(arg)->0;
            &&& 0 <= start < arg.len() - 1
            &&& arg[start] == ':'
            &&& is_digit(arg.last())
            &&& forall|i: int| start <= i < arg.len() ==> #[trigger] arg[i] == ':' || is_digit(arg[i])
        }),
{
    let len = arg.len() as int;
    lemma_digits(arg, len);
    let colon = colon_before(arg, len)->0;
    lemma_digits(arg, colon);
}

proof fn lemma_digits(s: Seq<char>, end: int)
    requires
        0 <= end <= s.len(),
    ensures
        0 <= digits_start(s, end) <= end,
        forall|i: int| digits_start(s, end) <= i < end ==> is_digit(#[trigger] s[i]),
    decreases end,
{
    if 0 < end && is_digit(s[end - 1]) {
        lemma_digits(s, end - 1);
    }
}

/// Those of the URLs that arguments ask to open.
pub open spec fn urls_of<E>(args: Seq<Result<String, E>>) -> Seq<String>
    decreases args.len(),
{
    if args.len() == 0 {
        Seq::empty()
    } else {
        let rest = urls_of(args.drop_last());
        match args.last() {
            Ok(url) => rest.push(url),
            Err(_) => rest,
        }
    }
}

/// The URLs to open, without the arguments that ask for nothing that can be opened.
pub fn urls_to_open<E>(args: Vec<Result<String, E>>) -> (r: Vec<String>)
    ensures
        r@ == urls_of(args@),
{
    let ghost all = args@;
    let mut urls: Vec<String> = Vec::new();
    for arg in it: args
        invariant
            it.seq() == all,
            urls@ == urls_of(all.take(it.index())),
    {
        proof {
            let next = all.take(it.index() + 1);
            assert(next.drop_last() =~= all.take(it.index()));
            assert(next.last() == arg);
        }
        match arg {
            Ok(url) => urls.push(url),
            Err(_) => {},
        }
    }
    assert(all.take(all.len() as int) =~= all);
    urls
}

/// What the URL that a path becomes says of a file is the path.
pub proof fn law_path_arguments_are_opened(path: Seq<char>)
    ensures
        crate::open_listener::file_part("file://"@ + path) == Some(path),
{
    let url = "file://"@ + path;
    assert(url.subrange(0, "file://"@.len() as int) =~= "file://"@);
    assert(url.skip("file://"@.len() as int) =~= path);
}

}
