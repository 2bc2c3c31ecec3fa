//! What the application is asked to open, and where in the files that it opens the carets go.
use vstd::prelude::*;

use crate::editor::item::Point;
use crate::paths::FilePath;
use crate::text::strip_prefix;

verus! {

/// A path, and a place in the file at it, as people count: rows and columns from one.
#[derive(Debug)]
pub struct PathLikeWithPosition {
    pub path_like: FilePath,
    pub row: Option<u32>,
    pub column: Option<u32>,
}

/// What the application is asked to open.
#[derive(Debug)]
pub struct OpenRequest {
    pub open_paths: Vec<PathLikeWithPosition>,
    pub open_channel_notes: Vec<(u64, Option<String>)>,
    pub join_channel: Option<u64>,
}

impl Default for OpenRequest {
    fn default() -> (r: Self)
        ensures
            r.open_paths@.len() == 0,
            r.open_channel_notes@.len() == 0,
            r.join_channel is None,
    {
        OpenRequest {
            open_paths: Vec::new(),
            open_channel_notes: Vec::new(),
            join_channel: None,
        }
    }
}

/// What `urlencoding::decode` makes of a text: the text with its escapes replaced, unless that is
/// no text.
pub uninterp spec fn percent_decoded(text: Seq<char>) -> Option<Seq<char>>;

/// Calls `urlencoding::decode`, which replaces the percent escapes in a text and fails where the
/// outcome is not UTF-8. It is a function of the text, and gives a text without a percent sign
/// back as it is.
#[verifier::external_body]
fn decode(text: &str) -> (r: Option<String>)
    ensures
        match r {
            Some(decoded) => percent_decoded(text@) == Some(decoded@),
            None => percent_decoded(text@) is None,
        },
        !text@.contains('%') ==> r is Some && r->0@ == text@,
{
    urlencoding::decode(text).ok().map(|decoded| decoded.into_owned())
}

/// What a URL says of a file: what follows `file://` or `zed://file`.
pub open spec fn file_part(url: Seq<char>) -> Option<Seq<char>> {
    if "file://"@.is_prefix_of(url) {
        Some(url.skip("file://"@.len() as int))
    } else if "zed://file"@.is_prefix_of(url) {
        Some(url.skip("zed://file"@.len() as int))
    } else {
        None
    }
}

/// The file that a URL names, if it names one.
pub open spec fn file_named(url: Seq<char>) -> Option<Seq<char>> {
    match file_part(url) {
        Some(file) => percent_decoded(file),
        None => None,
    }
}

/// The file that a URL names, if it names one.
pub fn file_of_url(url: &str) -> (r: Option<String>)
    ensures
        match r {
            Some(file) => file_named(url@) == Some(file@),
            None => file_named(url@) is None,
        },
        file_part(url@) matches Some(file) ==> !file.contains('%') ==> r is Some && r->0@ == file,
{
    let file = match strip_prefix(url, "file://") {
        Some(file) => {
            assert(file@ =~= url@.skip("file://"@.len() as int));
            file
        },
        None => match strip_prefix(url, "zed://file") {
            Some(file) => {
                assert(file@ =~= url@.skip("zed://file"@.len() as int));
                file
            },
            None => {
                return None;
            },
        },
    };
    decode(file)
}

/// Whether the parser may make this of the text.
pub open spec fn may_parse<F: Fn(String) -> Option<PathLikeWithPosition>>(
    parse_str: F,
    text: Seq<char>,
    outcome: Option<PathLikeWithPosition>,
) -> bool {
    exists|file: String| #![trigger file@] file@ == text && call_ensures(parse_str, (file,), outcome)
}

/// Whether these are the paths that URLs ask to open: what the parser makes of the files that they
/// name, in order, without what it makes nothing of.
pub open spec fn are_paths_of<F: Fn(String) -> Option<PathLikeWithPosition>>(
    urls: Seq<String>,
    parse_str: F,
    paths: Seq<PathLikeWithPosition>,
) -> bool
    decreases urls.len(),
{
    if urls.len() == 0 {
        paths.len() == 0
    } else {
        match file_named(urls.last()@) {
            Some(file) => {
                ||| {
                    &&& may_parse(parse_str, file, None)
                    &&& are_paths_of(urls.drop_last(), parse_str, paths)
                }
                ||| {
                    &&& paths.len() > 0
                    &&& may_parse(parse_str, file, Some(paths.last()))
                    &&& are_paths_of(urls.drop_last(), parse_str, paths.drop_last())
                }
            },
            None => are_paths_of(urls.drop_last(), parse_str, paths),
        }
    }
}

impl OpenRequest {
    /// What URLs ask to open, given how a path with a position is read. A URL that names no file
    /// asks for nothing.
    pub fn parse<F: Fn(String) -> Option<PathLikeWithPosition>>(
        urls: &Vec<String>,
        parse_str: F,
    ) -> (r: Self)
        requires
            forall|file: String| #[trigger] call_requires(parse_str, (file,)),
        ensures
            are_paths_of(urls@, parse_str, r.open_paths@),
            r.open_channel_notes@.len() == 0,
            r.join_channel is None,
    {
        let mut this = OpenRequest::default();
        let mut i: usize = 0;
        while i < urls.len()
            invariant
                forall|file: String| #[trigger] call_requires(parse_str, (file,)),
                i <= urls.len(),
                are_paths_of(urls@.take(i as int), parse_str, this.open_paths@),
                this.open_channel_notes@.len() == 0,
                this.join_channel is None,
            decreases urls.len() - i,
        {
            let ghost before = this.open_paths@;
            let ghost next = urls@.take(i + 1);
            assert(next.drop_last() =~= urls@.take(i as int));
            assert(next.last() == urls@[i as int]);
            match file_of_url(urls[i].as_str()) {
                Some(file) => {
                    let ghost text = file@;
                    assert(file_named(next.last()@) == Some(text));
                    match parse_str(file) {
                        Some(path) => {
                            this.open_paths.push(path);
                            assert(may_parse(parse_str, text, Some(path)));
                            assert(this.open_paths@.drop_last() =~= before);
                        },
                        None => {
                            assert(may_parse(parse_str, text, None));
                        },
                    }
                },
                None => {},
            }
            i = i + 1;
        }
        assert(urls@.take(urls.len() as int) =~= urls@);
        this
    }
}

/// The URLs that name a file are those that begin with `file://` or with `zed://file`, and what
/// they name is what follows, with its escapes replaced.
pub proof fn law_urls_that_name_files(url: Seq<char>, rest: Seq<char>)
    ensures
        url == "file://"@ + rest ==> file_part(url) == Some(rest) && file_named(url)
            == percent_decoded(rest),
        url == "zed://file"@ + rest ==> file_part(url) == Some(rest) && file_named(url)
            == percent_decoded(rest),
        file_part(url) is Some ==> url == "file://"@ + file_part(url)->0 || url == "zed://file"@
            + file_part(url)->0,
        file_part(url) is None ==> file_named(url) is None,
{
    reveal_strlit("file://");
    reveal_strlit("zed://file");
    if url == "file://"@ + rest {
        assert(url.subrange(0, "file://"@.len() as int) =~= "file://"@);
        assert("file://"@.is_prefix_of(url));
        assert(url.skip("file://"@.len() as int) =~= rest);
    }
    if url == "zed://file"@ + rest {
        assert(url[0] == 'z');
        assert(!"file://"@.is_prefix_of(url)) by {
            assert("file://"@[0] == 'f');
        }
        assert(url.subrange(0, "zed://file"@.len() as int) =~= "zed://file"@);
        assert("zed://file"@.is_prefix_of(url));
        assert(url.skip("zed://file"@.len() as int) =~= rest);
    }
    if "file://"@.is_prefix_of(url) {
        assert(url =~= "file://"@ + url.skip("file://"@.len() as int));
    } else if "zed://file"@.is_prefix_of(url) {
        assert(url =~= "zed://file"@ + url.skip("zed://file"@.len() as int));
    }
}

/// A single URL asks to open what the parser makes of the file that it names, if it makes
/// something of it; and nothing where it names none or its escapes stand for no text.
pub proof fn law_one_url_asks_for_one_file<F: Fn(String) -> Option<PathLikeWithPosition>>(
    url: String,
    rest: Seq<char>,
    parse_str: F,
    paths: Seq<PathLikeWithPosition>,
)
    requires
        are_paths_of(seq![url], parse_str, paths),
    ensures
        url@ == "file://"@ + rest || url@ == "zed://file"@ + rest ==> match percent_decoded(rest) {
            Some(text) => {
                ||| {
                    &&& paths.len() == 0
                    &&& exists|file: String|
                        #![trigger file@]
                        file@ == text && call_ensures(parse_str, (file,), None)
                }
                ||| {
                    &&& paths.len() == 1
                    &&& exists|file: String|
                        #![trigger file@]
                        file@ == text && call_ensures(parse_str, (file,), Some(paths[0]))
                }
            },
            None => paths.len() == 0,
        },
        (forall|rest: Seq<char>| url@ != #[trigger] ("file://"@ + rest)) && (forall|
            rest: Seq<char>,
        |
            url@ != #[trigger] ("zed://file"@ + rest)) ==> paths.len() == 0,
{
    law_urls_that_name_files(url@, rest);
    let urls = seq![url];
    assert(urls.last() == url);
    assert(urls.drop_last().len() == 0);
    reveal_with_fuel(are_paths_of, 2);
    if paths.len() > 0 {
        assert(file_named(url@) is Some);
        let file = file_part(url@)->0;
        assert(url@ == "file://"@ + file || url@ == "zed://file"@ + file);
    }
}

/// Without URLs nothing is opened.
pub proof fn law_no_urls_ask_for_nothing<F: Fn(String) -> Option<PathLikeWithPosition>>(
    parse_str: F,
    paths: Seq<PathLikeWithPosition>,
)
    requires
        are_paths_of(Seq::empty(), parse_str, paths),
    ensures
        paths.len() == 0,
{
}

/// No more paths are opened than there are URLs.
pub proof fn law_no_more_paths_than_urls<F: Fn(String) -> Option<PathLikeWithPosition>>(
    urls: Seq<String>,
    parse_str: F,
    paths: Seq<PathLikeWithPosition>,
)
    requires
        are_paths_of(urls, parse_str, paths),
    ensures
        paths.len() <= urls.len(),
    decreases urls.len(),
{
    if urls.len() > 0 {
        let rest = urls.drop_last();
        if are_paths_of(rest, parse_str, paths) {
            law_no_more_paths_than_urls(rest, parse_str, paths);
        } else {
            law_no_more_paths_than_urls(rest, parse_str, paths.drop_last());
        }
    }
}

/// What joined lists of URLs ask to open is what the first asks to open, followed by what the
/// second does: each URL counts by itself.
pub proof fn law_paths_of_joined_urls<F: Fn(String) -> Option<PathLikeWithPosition>>(
    first: Seq<String>,
    second: Seq<String>,
    parse_str: F,
    first_paths: Seq<PathLikeWithPosition>,
    second_paths: Seq<PathLikeWithPosition>,
)
    requires
        are_paths_of(first, parse_str, first_paths),
        are_paths_of(second, parse_str, second_paths),
    ensures
        are_paths_of(first + second, parse_str, first_paths + second_paths),
    decreases second.len(),
{
    let urls = first + second;
    let paths = first_paths + second_paths;
    if second.len() == 0 {
        assert(urls =~= first);
        assert(paths =~= first_paths);
    } else {
        let rest = second.drop_last();
        assert(urls.drop_last() =~= first + rest);
        assert(urls.last() == second.last());
        if (file_named(second.last()@) is None || may_parse(
            parse_str,
            file_named(second.last()@)->0,
            None,
        )) && are_paths_of(rest, parse_str, second_paths) {
            law_paths_of_joined_urls(first, rest, parse_str, first_paths, second_paths);
        } else {
            law_paths_of_joined_urls(
                first,
                rest,
                parse_str,
                first_paths,
                second_paths.drop_last(),
            );
            assert(paths.drop_last() =~= first_paths + second_paths.drop_last());
            assert(paths.last() == second_paths.last());
        }
    }
}

/// Joined lists of URLs ask to open nothing else: what they ask to open can be parted into what
/// the first asks to open and what the second does.
pub proof fn law_joined_urls_have_no_other_paths<F: Fn(String) -> Option<PathLikeWithPosition>>(
    first: Seq<String>,
    second: Seq<String>,
    parse_str: F,
    paths: Seq<PathLikeWithPosition>,
)
    requires
        are_paths_of(first + second, parse_str, paths),
    ensures
        exists|at: int|
            {
                &&& 0 <= at <= paths.len()
                &&& are_paths_of(first, parse_str, #[trigger] paths.take(at))
                &&& are_paths_of(second, parse_str, paths.skip(at))
            },
    decreases second.len(),
{
    let urls = first + second;
    if second.len() == 0 {
        assert(urls =~= first);
        let at = paths.len() as int;
        assert(paths.take(at) =~= paths);
        assert(are_paths_of(first, parse_str, paths.take(at)));
        assert(paths.skip(at).len() == 0);
    } else {
        let rest = second.drop_last();
        assert(urls.drop_last() =~= first + rest);
        assert(urls.last() == second.last());
        if (file_named(second.last()@) is None || may_parse(
            parse_str,
            file_named(second.last()@)->0,
            None,
        )) && are_paths_of(first + rest, parse_str, paths) {
            law_joined_urls_have_no_other_paths(first, rest, parse_str, paths);
            let at = choose|at: int|
                {
                    &&& 0 <= at <= paths.len()
                    &&& are_paths_of(first, parse_str, #[trigger] paths.take(at))
                    &&& are_paths_of(rest, parse_str, paths.skip(at))
                };
            assert(are_paths_of(first, parse_str, paths.take(at)));
            assert(are_paths_of(second, parse_str, paths.skip(at)));
        } else {
            let before = paths.drop_last();
            law_joined_urls_have_no_other_paths(first, rest, parse_str, before);
            let at = choose|at: int|
                {
                    &&& 0 <= at <= before.len()
                    &&& are_paths_of(first, parse_str, #[trigger] before.take(at))
                    &&& are_paths_of(rest, parse_str, before.skip(at))
                };
            assert(paths.take(at) =~= before.take(at));
            assert(paths.skip(at).drop_last() =~= before.skip(at));
            assert(paths.skip(at).last() == paths.last());
            assert(are_paths_of(first, parse_str, paths.take(at)));
            assert(are_paths_of(second, parse_str, paths.skip(at)));
        }
    }
}

/// A path and a place in the file at it, by the texts of the names of the path.
#[verifier::ext_equal]
pub ghost struct PlaceKey {
    pub path: crate::paths::PathKey,
    pub row: Option<u32>,
    pub column: Option<u32>,
}

/// The paths and places, by the texts of the names of the paths.
pub open spec fn place_keys(paths: Seq<PathLikeWithPosition>) -> Seq<PlaceKey> {
    paths.map_values(|path: PathLikeWithPosition| path.place_key())
}

/// Whether two outcomes of a parser are the same path and place, or both none.
pub open spec fn same_outcome(
    a: Option<PathLikeWithPosition>,
    b: Option<PathLikeWithPosition>,
) -> bool {
    match (a, b) {
        (Some(a), Some(b)) => a.place_key() == b.place_key(),
        (None, None) => true,
        _ => false,
    }
}

/// Whether a parser always makes the same of a text.
pub open spec fn makes_one_thing<F: Fn(String) -> Option<PathLikeWithPosition>>(
    parse_str: F,
) -> bool {
    forall|
        text: Seq<char>,
        a: Option<PathLikeWithPosition>,
        b: Option<PathLikeWithPosition>,
    | #[trigger]
        may_parse(parse_str, text, a) && #[trigger] may_parse(parse_str, text, b) ==> same_outcome(
            a,
            b,
        )
}

/// With a parser that always makes the same of a text, URLs always ask to open the same.
pub proof fn law_paths_are_determined<F: Fn(String) -> Option<PathLikeWithPosition>>(
    urls: Seq<String>,
    parse_str: F,
    paths: Seq<PathLikeWithPosition>,
    others: Seq<PathLikeWithPosition>,
)
    requires
        makes_one_thing(parse_str),
        are_paths_of(urls, parse_str, paths),
        are_paths_of(urls, parse_str, others),
    ensures
        place_keys(paths) == place_keys(others),
    decreases urls.len(),
{
    if urls.len() == 0 {
        assert(place_keys(paths) =~= place_keys(others));
    } else {
        let rest = urls.drop_last();
        match file_named(urls.last()@) {
            Some(file) => {
                if may_parse(parse_str, file, None) {
                    assert(paths.len() > 0 ==> !may_parse(parse_str, file, Some(paths.last())));
                    assert(others.len() > 0 ==> !may_parse(parse_str, file, Some(others.last())));
                    law_paths_are_determined(rest, parse_str, paths, others);
                } else {
                    let a = paths.drop_last();
                    let b = others.drop_last();
                    law_paths_are_determined(rest, parse_str, a, b);
                    assert(same_outcome(Some(paths.last()), Some(others.last())));
                    assert(place_keys(paths) =~= place_keys(a).push(paths.last().place_key()));
                    assert(place_keys(others) =~= place_keys(b).push(others.last().place_key()));
                }
            },
            None => {
                law_paths_are_determined(rest, parse_str, paths, others);
            },
        }
    }
}

/// With a parser that always makes the same of a text, joined lists of URLs ask to open exactly
/// what the first asks to open, followed by what the second does.
pub proof fn law_joined_urls_open_what_each_opens<F: Fn(String) -> Option<PathLikeWithPosition>>(
    first: Seq<String>,
    second: Seq<String>,
    parse_str: F,
    first_paths: Seq<PathLikeWithPosition>,
    second_paths: Seq<PathLikeWithPosition>,
    paths: Seq<PathLikeWithPosition>,
)
    requires
        makes_one_thing(parse_str),
        are_paths_of(first, parse_str, first_paths),
        are_paths_of(second, parse_str, second_paths),
        are_paths_of(first + second, parse_str, paths),
    ensures
        place_keys(paths) == place_keys(first_paths) + place_keys(second_paths),
{
    law_paths_of_joined_urls(first, second, parse_str, first_paths, second_paths);
    law_paths_are_determined(first + second, parse_str, paths, first_paths + second_paths);
    assert(place_keys(first_paths + second_paths) =~= place_keys(first_paths) + place_keys(
        second_paths,
    ));
}

/// A number one less, but not below zero.
pub open spec fn one_less(n: u32) -> u32 {
    if n == 0 {
        0
    } else {
        (n - 1) as u32
    }
}

impl PathLikeWithPosition {
    /// The path and the place, by the texts of the names of the path.
    pub open spec fn place_key(self) -> PlaceKey {
        PlaceKey { path: self.path_like.key(), row: self.row, column: self.column }
    }

    /// The place in the file, counted from zero. Without a row there is none.
    pub open spec fn caret(self) -> Option<Point> {
        match self.row {
            Some(row) => Some(
                Point {
                    row: one_less(row),
                    column: one_less(
                        match self.column {
                            Some(column) => column,
                            None => 0,
                        },
                    ),
                },
            ),
            None => None,
        }
    }

    fn caret_position(&self) -> (r: Option<Point>)
        ensures
            r == self.caret(),
    {
        match self.row {
            Some(row) => {
                let column = match self.column {
                    Some(column) => column,
                    None => 0,
                };
                Some(Point { row: row.saturating_sub(1), column: column.saturating_sub(1) })
            },
            None => None,
        }
    }
}

/// Where in files carets go, by the paths of the files.
#[derive(Debug)]
pub struct CaretPositions {
    entries: Vec<(FilePath, Point)>,
}

/// The entries of a list as a map: of two entries with one key, the later counts.
pub closed spec fn entries_map(entries: Seq<(FilePath, Point)>) -> Map<
    crate::paths::PathKey,
    Point,
>
    decreases entries.len(),
{
    if entries.len() == 0 {
        Map::empty()
    } else {
        entries_map(entries.drop_last()).insert(entries.last().0.key(), entries.last().1)
    }
}

impl View for CaretPositions {
    type V = Map<crate::paths::PathKey, Point>;

    closed spec fn view(&self) -> Map<crate::paths::PathKey, Point> {
        entries_map(self.entries@)
    }
}

/// A list has a key exactly where one of its entries does.
proof fn lemma_entries_map_domain(
    entries: Seq<(FilePath, Point)>,
    key: crate::paths::PathKey,
)
    ensures
        entries_map(entries).dom().contains(key) <==> exists|i: int|
            0 <= i < entries.len() && (#[trigger] entries[i]).0.key() == key,
    decreases entries.len(),
{
    if entries.len() > 0 {
        let rest = entries.drop_last();
        lemma_entries_map_domain(rest, key);
        if entries_map(entries).dom().contains(key) {
            if entries.last().0.key() == key {
                assert(entries[entries.len() - 1].0.key() == key);
            } else {
                let i = choose|i: int| 0 <= i < rest.len() && (#[trigger] rest[i]).0.key() == key;
                assert(entries[i].0.key() == key);
            }
        }
        if exists|i: int| 0 <= i < entries.len() && (#[trigger] entries[i]).0.key() == key {
            let i = choose|i: int|
                0 <= i < entries.len() && (#[trigger] entries[i]).0.key() == key;
            if i < rest.len() {
                assert(rest[i].0.key() == key);
            }
        }
    }
}

/// Taking the last entry with a key away from a list whose other entries have other keys takes
/// the key away from the map.
proof fn lemma_entries_map_remove(entries: Seq<(FilePath, Point)>, at: int)
    requires
        0 <= at < entries.len(),
        forall|i: int|
            0 <= i < entries.len() && i != at ==> (#[trigger] entries[i]).0.key()
                != entries[at].0.key(),
    ensures
        entries_map(entries).dom().contains(entries[at].0.key()),
        entries_map(entries)[entries[at].0.key()] == entries[at].1,
        entries_map(entries.remove(at)) == entries_map(entries).remove(entries[at].0.key()),
    decreases entries.len(),
{
    let key = entries[at].0.key();
    let rest = entries.drop_last();
    if at == entries.len() - 1 {
        assert(entries.remove(at) =~= rest);
        lemma_entries_map_domain(rest, key);
        assert forall|i: int| 0 <= i < rest.len() implies (#[trigger] rest[i]).0.key() != key by {
            assert(rest[i] == entries[i]);
        }
        assert(entries_map(rest) =~= entries_map(entries).remove(key));
    } else {
        lemma_entries_map_remove(rest, at);
        let removed = entries.remove(at);
        assert(removed.drop_last() =~= rest.remove(at));
        assert(removed.last() == entries.last());
        assert(entries[entries.len() - 1].0.key() != key);
        assert(entries_map(removed) =~= entries_map(entries).remove(key));
    }
}

/// Whether no path has two entries.
spec fn one_entry_each(entries: Seq<(FilePath, Point)>) -> bool {
    forall|i: int, j: int|
        0 <= i < j < entries.len() ==> (#[trigger] entries[i]).0.key() != (
        #[trigger] entries[j]).0.key()
}

impl CaretPositions {
    /// No path has two entries.
    #[verifier::type_invariant]
    spec fn inv(self) -> bool {
        one_entry_each(self.entries@)
    }

    fn new() -> (r: Self)
        ensures
            r@ == Map::<crate::paths::PathKey, Point>::empty(),
    {
        CaretPositions { entries: Vec::new() }
    }

    /// Takes the place in the file at a path.
    pub fn remove(&mut self, path: &FilePath) -> (r: Option<Point>)
        ensures
            final(self)@ == old(self)@.remove(path.key()),
            r == if old(self)@.dom().contains(path.key()) {
                Some(old(self)@[path.key()])
            } else {
                None
            },
    {
        proof {
            use_type_invariant(&*self);
        }
        let mut entries: Vec<(FilePath, Point)> = Vec::new();
        std::mem::swap(&mut entries, &mut self.entries);
        let r = remove_entry(&mut entries, path);
        self.entries = entries;
        r
    }

    fn insert(&mut self, path: FilePath, point: Point)
        ensures
            final(self)@ == old(self)@.insert(path.key(), point),
    {
        proof {
            use_type_invariant(&*self);
        }
        let ghost before = self@;
        let mut entries: Vec<(FilePath, Point)> = Vec::new();
        std::mem::swap(&mut entries, &mut self.entries);
        remove_entry(&mut entries, &path);
        let ghost without = entries@;
        proof {
            lemma_entries_map_domain(without, path.key());
        }
        entries.push((path, point));
        proof {
            assert(entries@.drop_last() =~= without);
            assert(entries_map(entries@) =~= before.insert(path.key(), point));
            assert forall|a: int, b: int| 0 <= a < b < entries@.len() implies (
            #[trigger] entries@[a]).0.key() != (#[trigger] entries@[b]).0.key() by {
                assert(entries@[a] == without[a]);
                if b < without.len() {
                    assert(entries@[b] == without[b]);
                }
            }
        }
        self.entries = entries;
    }
}

fn remove_entry(entries: &mut Vec<(FilePath, Point)>, path: &FilePath) -> (r: Option<Point>)
    requires
        one_entry_each(old(entries)@),
    ensures
        one_entry_each(final(entries)@),
        entries_map(final(entries)@) == entries_map(old(entries)@).remove(path.key()),
        r == if entries_map(old(entries)@).dom().contains(path.key()) {
            Some(entries_map(old(entries)@)[path.key()])
        } else {
            None
        },
{
    let ghost before = entries@;
    let mut i: usize = 0;
    while i < entries.len()
        invariant
            entries@ == before,
            old(entries)@ == before,
            one_entry_each(before),
            i <= before.len(),
            forall|j: int| 0 <= j < i ==> (#[trigger] before[j]).0.key() != path.key(),
        decreases before.len() - i,
    {
        if entries[i].0.same(path) {
            proof {
                assert forall|j: int| 0 <= j < before.len() && j != i implies (
                #[trigger] before[j]).0.key() != before[i as int].0.key() by {
                    if j < i {
                        assert(before[j].0.key() != before[i as int].0.key());
                    } else {
                        assert(before[i as int].0.key() != before[j].0.key());
                    }
                }
                lemma_entries_map_remove(before, i as int);
            }
            let (_, point) = entries.remove(i);
            assert(entries@ =~= before.remove(i as int));
            assert forall|a: int, b: int| 0 <= a < b < entries@.len() implies (
            #[trigger] entries@[a]).0.key() != (#[trigger] entries@[b]).0.key() by {
                let x = if a < i { a } else { a + 1 };
                let y = if b < i { b } else { b + 1 };
                assert(entries@[a] == before[x]);
                assert(entries@[b] == before[y]);
            }
            return Some(point);
        }
        i = i + 1;
    }
    proof {
        lemma_entries_map_domain(before, path.key());
        assert(entries_map(before) =~= entries_map(before).remove(path.key()));
    }
    None
}

/// Where the carets go, given which of the paths are of files: only what is a file has a caret,
/// and of two places in one file the later counts.
pub open spec fn carets(path_likes: Seq<PathLikeWithPosition>, is_file: Seq<bool>) -> Map<
    crate::paths::PathKey,
    Point,
>
    decreases path_likes.len(),
{
    if path_likes.len() == 0 {
        Map::empty()
    } else {
        let last = path_likes.last();
        let rest = carets(path_likes.drop_last(), is_file);
        match last.caret() {
            Some(point) if is_file[path_likes.len() - 1] => rest.insert(last.path_like.key(), point),
            _ => rest,
        }
    }
}

/// Only what is a file has a caret: for anything else the position is ignored.
pub proof fn law_only_files_have_carets(
    path_likes: Seq<PathLikeWithPosition>,
    is_file: Seq<bool>,
    key: crate::paths::PathKey,
)
    requires
        carets(path_likes, is_file).dom().contains(key),
    ensures
        exists|i: int|
            {
                &&& 0 <= i < path_likes.len()
                &&& (#[trigger] path_likes[i]).path_like.key() == key
                &&& is_file[i]
                &&& path_likes[i].caret() == Some(carets(path_likes, is_file)[key])
            },
    decreases path_likes.len(),
{
    let last = path_likes.len() - 1;
    let rest = path_likes.drop_last();
    if path_likes[last].path_like.key() == key && is_file[last] && path_likes[last].caret() is Some {
        assert(path_likes.last() == path_likes[last]);
    } else {
        law_only_files_have_carets(rest, is_file, key);
        let i = choose|i: int|
            {
                &&& 0 <= i < rest.len()
                &&& (#[trigger] rest[i]).path_like.key() == key
                &&& is_file[i]
                &&& rest[i].caret() == Some(carets(rest, is_file)[key])
            };
        assert(path_likes[i] == rest[i]);
    }
}

/// A path has a caret exactly where it is asked for as a file, with a row. Where it is asked for
/// more than once like that, the last one counts: its row and its column, each one less and not
/// below zero, and the first column where none is given.
pub proof fn law_last_position_in_a_file_counts(
    path_likes: Seq<PathLikeWithPosition>,
    is_file: Seq<bool>,
    key: crate::paths::PathKey,
    i: int,
)
    ensures
        carets(path_likes, is_file).dom().contains(key) <==> exists|j: int|
            {
                &&& 0 <= j < path_likes.len()
                &&& (#[trigger] path_likes[j]).path_like.key() == key
                &&& is_file[j]
                &&& path_likes[j].row is Some
            },
        0 <= i < path_likes.len() && path_likes[i].path_like.key() == key && is_file[i]
            && path_likes[i].row is Some && (forall|j: int|
            #![trigger path_likes[j]]
            i < j < path_likes.len() && path_likes[j].path_like.key() == key && is_file[j]
                ==> path_likes[j].row is None) ==> {
            let point = carets(path_likes, is_file)[key];
            let row = path_likes[i].row->0;
            &&& point.row == if row > 0 {
                row - 1
            } else {
                0
            }
            &&& point.column == match path_likes[i].column {
                Some(column) => if column > 0 {
                    column - 1
                } else {
                    0
                },
                None => 0,
            }
        },
    decreases path_likes.len(),
{
    if path_likes.len() > 0 {
        let last = path_likes.len() - 1;
        let rest = path_likes.drop_last();
        law_last_position_in_a_file_counts(rest, is_file, key, i);
        if carets(rest, is_file).dom().contains(key) {
            let j = choose|j: int|
                {
                    &&& 0 <= j < rest.len()
                    &&& (#[trigger] rest[j]).path_like.key() == key
                    &&& is_file[j]
                    &&& rest[j].row is Some
                };
            assert(path_likes[j] == rest[j]);
        }
        if exists|j: int|
            {
                &&& 0 <= j < path_likes.len()
                &&& (#[trigger] path_likes[j]).path_like.key() == key
                &&& is_file[j]
                &&& path_likes[j].row is Some
            } {
            let j = choose|j: int|
                {
                    &&& 0 <= j < path_likes.len()
                    &&& (#[trigger] path_likes[j]).path_like.key() == key
                    &&& is_file[j]
                    &&& path_likes[j].row is Some
                };
            if j < last {
                assert(rest[j] == path_likes[j]);
            }
        }
        assert(path_likes[last] == path_likes.last());
        if 0 <= i < last {
            assert forall|j: int|
                #![trigger rest[j]]
                i < j < rest.len() implies rest[j] == path_likes[j] by {
            }
        }
    }
}

/// The paths to open, and where in the files at them the carets go.
pub fn open_paths_with_positions(
    path_likes: &Vec<PathLikeWithPosition>,
    is_file: &Vec<bool>,
) -> (r: (Vec<FilePath>, CaretPositions))
    requires
        is_file@.len() == path_likes@.len(),
    ensures
        r.0@.len() == path_likes@.len(),
        forall|i: int| 0 <= i < r.0@.len() ==> (#[trigger] r.0@[i])@ == path_likes@[i].path_like@,
        r.1@ == carets(path_likes@, is_file@),
{
    let mut paths: Vec<FilePath> = Vec::new();
    let mut caret_positions = CaretPositions::new();
    let mut i: usize = 0;
    while i < path_likes.len()
        invariant
            i <= path_likes.len(),
            is_file@.len() == path_likes@.len(),
            paths@.len() == i,
            forall|j: int| 0 <= j < i ==> (#[trigger] paths@[j])@ == path_likes@[j].path_like@,
            caret_positions@ == carets(path_likes@.take(i as int), is_file@),
        decreases path_likes.len() - i,
    {
        let path_with_position = &path_likes[i];
        proof {
            let next = path_likes@.take(i + 1);
            assert(next.drop_last() =~= path_likes@.take(i as int));
            assert(next.last() == path_likes@[i as int]);
        }
        match path_with_position.caret_position() {
            Some(point) => if is_file[i] {
                caret_positions.insert(path_with_position.path_like.copy(), point);
            },
            None => {},
        }
        paths.push(path_with_position.path_like.copy());
        i = i + 1;
    }
    assert(path_likes@.take(path_likes.len() as int) =~= path_likes@);
    (paths, caret_positions)
}

/// What became of a path that was to be opened.
#[derive(Clone, Copy, Debug, PartialEq, Eq, Structural)]
pub enum OpenedItem {
    /// There was nothing to open.
    Nothing,
    /// It could not be opened.
    Failed,
    /// It is open in an editor.
    Editor,
    /// It is open as something else.
    Other,
}

impl OpenedItem {
    /// Whether the path is open.
    pub open spec fn is_open(self) -> bool {
        self == OpenedItem::Editor || self == OpenedItem::Other
    }
}

/// Where in the files that were opened the carets are left to go, after the first so many.
pub open spec fn carets_left(
    items: Seq<OpenedItem>,
    paths: Seq<FilePath>,
    carets: Map<crate::paths::PathKey, Point>,
    count: int,
) -> Map<crate::paths::PathKey, Point>
    decreases count,
{
    if count <= 0 {
        carets
    } else {
        let left = carets_left(items, paths, carets, count - 1);
        if items[count - 1].is_open() {
            left.remove(paths[count - 1].key())
        } else {
            left
        }
    }
}

/// The carets that go into the first so many files, each with the number of the file. The caret
/// of a path goes into the first that is open at it, and nowhere if that is no editor.
pub open spec fn placed_carets(
    items: Seq<OpenedItem>,
    paths: Seq<FilePath>,
    carets: Map<crate::paths::PathKey, Point>,
    count: int,
) -> Seq<(usize, Point)>
    decreases count,
{
    if count <= 0 {
        Seq::empty()
    } else {
        let i = count - 1;
        let rest = placed_carets(items, paths, carets, i);
        let left = carets_left(items, paths, carets, i);
        if items[i] == OpenedItem::Editor && left.dom().contains(paths[i].key()) {
            rest.push((i as usize, left[paths[i].key()]))
        } else {
            rest
        }
    }
}

/// As many files as there are both items and paths.
pub open spec fn pairs(items: Seq<OpenedItem>, paths: Seq<FilePath>) -> int {
    if items.len() < paths.len() {
        items.len() as int
    } else {
        paths.len() as int
    }
}

/// The carets to place in the editors that were opened, each with the number of its editor.
pub fn carets_to_place(
    items: &Vec<OpenedItem>,
    paths: &Vec<FilePath>,
    caret_positions: CaretPositions,
) -> (r: Vec<(usize, Point)>)
    ensures
        r@ == placed_carets(items@, paths@, caret_positions@, pairs(items@, paths@)),
        forall|i: usize, point: Point| #[trigger]
            r@.contains((i, point)) <==> {
                &&& i < items@.len() && i < paths@.len()
                &&& items@[i as int] == OpenedItem::Editor
                &&& caret_positions@.dom().contains(paths@[i as int].key())
                &&& caret_positions@[paths@[i as int].key()] == point
                &&& forall|j: int|
                    #![trigger paths@[j]]
                    0 <= j < i && (items@[j] == OpenedItem::Editor || items@[j]
                        == OpenedItem::Other) ==> paths@[j].key() != paths@[i as int].key()
            },
{
    let ghost all = caret_positions@;
    let mut caret_positions = caret_positions;
    let mut placed: Vec<(usize, Point)> = Vec::new();
    let mut i: usize = 0;
    while i < items.len() && i < paths.len()
        invariant
            i <= items.len(),
            i <= paths.len(),
            caret_positions@ == carets_left(items@, paths@, all, i as int),
            placed@ == placed_carets(items@, paths@, all, i as int),
        decreases items.len() - i,
    {
        match items[i] {
            OpenedItem::Nothing | OpenedItem::Failed => {},
            OpenedItem::Editor => {
                match caret_positions.remove(&paths[i]) {
                    Some(point) => placed.push((i, point)),
                    None => {},
                }
            },
            OpenedItem::Other => {
                caret_positions.remove(&paths[i]);
            },
        }
        i = i + 1;
    }
    proof {
        law_carets_go_where_they_are_asked_for(items@, paths@, all);
        assert(placed@ == placed_carets(items@, paths@, all, pairs(items@, paths@)));
    }
    placed
}

/// What is left after some files have been opened is what was there for paths that none of them
/// is open at.
proof fn lemma_carets_left(
    items: Seq<OpenedItem>,
    paths: Seq<FilePath>,
    carets: Map<crate::paths::PathKey, Point>,
    count: int,
    key: crate::paths::PathKey,
)
    requires
        0 <= count <= items.len(),
        count <= paths.len(),
    ensures
        ({
            let left = carets_left(items, paths, carets, count);
            &&& left.dom().contains(key) <==> {
                &&& carets.dom().contains(key)
                &&& forall|j: int|
                    #![trigger paths[j]]
                    0 <= j < count && (items[j] == OpenedItem::Editor || items[j]
                        == OpenedItem::Other) ==> paths[j].key() != key
            }
            &&& left.dom().contains(key) ==> left[key] == carets[key]
        }),
    decreases count,
{
    if count > 0 {
        lemma_carets_left(items, paths, carets, count - 1, key);
        assert(paths[count - 1].key() == paths[count - 1].key());
    }
}

/// What is placed in the first so many files is placed in editors whose path has a caret and at
/// whose path no file before them is open; and all of that is placed.
proof fn lemma_placed_carets(
    items: Seq<OpenedItem>,
    paths: Seq<FilePath>,
    carets: Map<crate::paths::PathKey, Point>,
    count: int,
    i: usize,
    point: Point,
)
    requires
        0 <= count <= items.len(),
        count <= paths.len(),
        count <= usize::MAX,
    ensures
        placed_carets(items, paths, carets, count).contains((i, point)) <==> {
            &&& i < count
            &&& items[i as int] == OpenedItem::Editor
            &&& carets.dom().contains(paths[i as int].key())
            &&& carets[paths[i as int].key()] == point
            &&& forall|j: int|
                #![trigger paths[j]]
                0 <= j < i && (items[j] == OpenedItem::Editor || items[j] == OpenedItem::Other)
                    ==> paths[j].key() != paths[i as int].key()
        },
    decreases count,
{
    if count > 0 {
        let last = count - 1;
        lemma_placed_carets(items, paths, carets, last, i, point);
        lemma_carets_left(items, paths, carets, last, paths[last].key());
        let rest = placed_carets(items, paths, carets, last);
        let placed = placed_carets(items, paths, carets, count);
        if placed.len() > rest.len() {
            let added = placed.last();
            assert(placed =~= rest.push(added));
            assert(placed[placed.len() - 1] == added);
            if rest.contains((i, point)) {
                let at = choose|at: int| 0 <= at < rest.len() && rest[at] == (i, point);
                assert(placed[at] == (i, point));
            }
            if placed.contains((i, point)) && added != (i, point) {
                let at = choose|at: int| 0 <= at < placed.len() && placed[at] == (i, point);
                assert(rest[at] == (i, point));
            }
        }
    }
}

/// A caret goes into a file exactly where the file is open in an editor, its path has that caret,
/// and no file before it is open at the same path, in an editor or otherwise. The carets are in
/// the order of the files, one for a file at most.
pub proof fn law_carets_go_where_they_are_asked_for(
    items: Seq<OpenedItem>,
    paths: Seq<FilePath>,
    carets: Map<crate::paths::PathKey, Point>,
)
    requires
        items.len() <= usize::MAX,
    ensures
        ({
            let placed = placed_carets(items, paths, carets, pairs(items, paths));
            &&& forall|i: usize, point: Point| #[trigger]
                placed.contains((i, point)) <==> {
                    &&& i < items.len() && i < paths.len()
                    &&& items[i as int] == OpenedItem::Editor
                    &&& carets.dom().contains(paths[i as int].key())
                    &&& carets[paths[i as int].key()] == point
                    &&& forall|j: int|
                        #![trigger paths[j]]
                        0 <= j < i && (items[j] == OpenedItem::Editor || items[j]
                            == OpenedItem::Other) ==> paths[j].key() != paths[i as int].key()
                }
            &&& forall|a: int, b: int|
                #![trigger placed[a], placed[b]]
                0 <= a < b < placed.len() ==> placed[a].0 < placed[b].0
        }),
{
    let count = pairs(items, paths);
    let placed = placed_carets(items, paths, carets, count);
    assert forall|i: usize, point: Point| #[trigger]
        placed.contains((i, point)) <==> {
            &&& i < items.len() && i < paths.len()
            &&& items[i as int] == OpenedItem::Editor
            &&& carets.dom().contains(paths[i as int].key())
            &&& carets[paths[i as int].key()] == point
            &&& forall|j: int|
                #![trigger paths[j]]
                0 <= j < i && (items[j] == OpenedItem::Editor || items[j] == OpenedItem::Other)
                    ==> paths[j].key() != paths[i as int].key()
        } by {
        lemma_placed_carets(items, paths, carets, count, i, point);
    }
    assert forall|a: int, b: int|
        #![trigger placed[a], placed[b]]
        0 <= a < b < placed.len() implies placed[a].0 < placed[b].0 by {
        law_one_caret_for_a_path(items, paths, carets, count, a, b);
    }
}

/// A path gets at most one caret, however often it is opened.
pub proof fn law_one_caret_for_a_path(
    items: Seq<OpenedItem>,
    paths: Seq<FilePath>,
    carets: Map<crate::paths::PathKey, Point>,
    count: int,
    a: int,
    b: int,
)
    requires
        0 <= count <= pairs(items, paths),
        count <= usize::MAX,
        0 <= a < b < placed_carets(items, paths, carets, count).len(),
    ensures
        ({
            let placed = placed_carets(items, paths, carets, count);
            &&& placed[a].0 < placed[b].0 < count
            &&& paths[placed[a].0 as int].key() != paths[placed[b].0 as int].key()
        }),
    decreases count,
{
    let rest = placed_carets(items, paths, carets, count - 1);
    let placed = placed_carets(items, paths, carets, count);
    if b < rest.len() {
        law_one_caret_for_a_path(items, paths, carets, count - 1, a, b);
    } else {
        lemma_placed_is_not_left(items, paths, carets, count - 1, a);
    }
}

/// A caret that was placed is in an editor, and no longer left.
proof fn lemma_placed_is_not_left(
    items: Seq<OpenedItem>,
    paths: Seq<FilePath>,
    carets: Map<crate::paths::PathKey, Point>,
    count: int,
    a: int,
)
    requires
        0 <= count <= pairs(items, paths),
        count <= usize::MAX,
        0 <= a < placed_carets(items, paths, carets, count).len(),
    ensures
        ({
            let placed = placed_carets(items, paths, carets, count);
            &&& placed[a].0 < count
            &&& !carets_left(items, paths, carets, count).dom().contains(
                paths[placed[a].0 as int].key(),
            )
        }),
    decreases count,
{
    let rest = placed_carets(items, paths, carets, count - 1);
    if a < rest.len() {
        lemma_placed_is_not_left(items, paths, carets, count - 1, a);
    }
}

/// Rows and columns are counted from one where they are asked for and from zero where they are
/// used, so that the first of each is where zero is, too.
pub proof fn law_carets_count_from_zero(path_like: FilePath, row: u32, column: u32)
    requires
        row < u32::MAX,
        column < u32::MAX,
    ensures
        (PathLikeWithPosition {
            path_like,
            row: Some((row + 1) as u32),
            column: Some((column + 1) as u32),
        }).caret() == Some(Point { row, column }),
        (PathLikeWithPosition { path_like, row: Some((row + 1) as u32), column: None }).caret()
            == Some(Point { row, column: 0 }),
{
}

}
