//! Paths of files.
use vstd::prelude::*;

use crate::text::{copy_strings, copy_subrange, str_eq};

verus! {

/// A path: the names on the way to a file, from the root of the file system or from anywhere.
#[derive(Debug)]
pub struct FilePath {
    pub absolute: bool,
    pub components: Vec<String>,
}

/// A path, by its names.
#[verifier::ext_equal]
pub ghost struct FilePathView {
    pub absolute: bool,
    pub components: Seq<String>,
}

impl View for FilePath {
    type V = FilePathView;

    open spec fn view(&self) -> FilePathView {
        FilePathView { absolute: self.absolute, components: self.components@ }
    }
}

/// Names with a slash between each two.
pub open spec fn slashed(components: Seq<String>) -> Seq<char>
    decreases components.len(),
{
    if components.len() == 0 {
        Seq::empty()
    } else if components.len() == 1 {
        components[0]@
    } else {
        slashed(components.drop_last()) + "/"@ + components.last()@
    }
}

impl FilePathView {
    /// The path as it is written.
    pub open spec fn text(self) -> Seq<char> {
        if self.absolute {
            "/"@ + slashed(self.components)
        } else {
            slashed(self.components)
        }
    }

    /// The path without its last name, if it has any.
    pub open spec fn parent(self) -> Option<FilePathView> {
        if self.components.len() == 0 {
            None
        } else {
            Some(FilePathView { components: self.components.drop_last(), ..self })
        }
    }

    /// The last `count` names of the path.
    pub open spec fn tail(self, count: int) -> FilePathView {
        FilePathView {
            absolute: false,
            components: self.components.skip(self.components.len() - count),
        }
    }
}

impl FilePath {
    /// The path as it is written.
    pub fn to_text(&self) -> (r: String)
        ensures
            r@ == self@.text(),
    {
        let mut text = String::new();
        if self.absolute {
            text.append("/");
        }
        let ghost root = text@;
        let mut i: usize = 0;
        while i < self.components.len()
            invariant
                i <= self.components.len(),
                text@ == root + slashed(self.components@.take(i as int)),
            decreases self.components.len() - i,
        {
            if i > 0 {
                text.append("/");
            }
            text.append(self.components[i].as_str());
            proof {
                let next = self.components@.take(i + 1);
                assert(next.drop_last() =~= self.components@.take(i as int));
                assert(next.last() == self.components@[i as int]);
                assert(text@ =~= root + slashed(next));
            }
            i = i + 1;
        }
        assert(self.components@.take(self.components.len() as int) =~= self.components@);
        assert(text@ =~= self@.text());
        text
    }

    /// The path without its last name, if it has any.
    pub fn parent(&self) -> (r: Option<FilePath>)
        ensures
            match r {
                Some(parent) => self@.parent() == Some(parent@),
                None => self@.parent() is None,
            },
    {
        let len = self.components.len();
        if len == 0 {
            None
        } else {
            let components = copy_subrange(&self.components, 0, len - 1);
            assert(components@ =~= self.components@.drop_last());
            Some(FilePath { absolute: self.absolute, components })
        }
    }

    /// A path with the same names.
    pub fn copy(&self) -> (r: FilePath)
        ensures
            r@ == self@,
    {
        FilePath { absolute: self.absolute, components: copy_strings(&self.components) }
    }
}

/// A path, by the texts of its names. Two paths with one key are the same path.
#[verifier::ext_equal]
pub ghost struct PathKey {
    pub absolute: bool,
    pub names: Seq<Seq<char>>,
}

/// The texts of strings.
pub open spec fn texts(strings: Seq<String>) -> Seq<Seq<char>> {
    strings.map_values(|s: String| s@)
}

fn same_strings(a: &Vec<String>, b: &Vec<String>) -> (r: bool)
    ensures
        r == (texts(a@) == texts(b@)),
{
    if a.len() != b.len() {
        assert(texts(a@).len() != texts(b@).len());
        return false;
    }
    let mut i: usize = 0;
    while i < a.len()
        invariant
            i <= a.len(),
            a.len() == b.len(),
            forall|j: int| 0 <= j < i ==> a@[j]@ == b@[j]@,
        decreases a.len() - i,
    {
        if !str_eq(a[i].as_str(), b[i].as_str()) {
            assert(texts(a@)[i as int] != texts(b@)[i as int]);
            return false;
        }
        i = i + 1;
    }
    assert(texts(a@) =~= texts(b@));
    true
}

impl FilePath {
    /// The texts of the names of the path.
    pub open spec fn key(self) -> PathKey {
        PathKey { absolute: self.absolute, names: texts(self.components@) }
    }

    /// Whether this is the same path.
    pub fn same(&self, other: &FilePath) -> (r: bool)
        ensures
            r == (self.key() == other.key()),
    {
        self.absolute == other.absolute && same_strings(&self.components, &other.components)
    }
}

}
