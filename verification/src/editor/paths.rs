//! How much of the path of a file its tab shows.
use vstd::prelude::*;

use crate::paths::FilePath;
use crate::text::copy_subrange;

verus! {

/// A file that a buffer is of.
#[derive(Debug)]
pub struct File {
    /// Its path from the root of its worktree.
    pub path: FilePath,
    /// The same with the root before it.
    pub full_path: FilePath,
}

/// The end of the path of a file, with `height` directories, or the full path where it has not
/// that many. The name of the file is left off unless it is to be included.
pub open spec fn shown_path(
    path: crate::paths::FilePathView,
    full_path: crate::paths::FilePathView,
    height: nat,
    include_filename: bool,
) -> Option<crate::paths::FilePathView> {
    let shown = if path.components.len() > height {
        path.tail(height as int + 1)
    } else {
        full_path
    };
    if include_filename {
        Some(shown)
    } else {
        shown.parent()
    }
}

/// The end of the path of a file, with `height` directories.
pub fn path_for_file(file: &File, height: usize, include_filename: bool) -> (r: Option<FilePath>)
    requires
        height < usize::MAX,
    ensures
        match r {
            Some(path) => shown_path(
                file.path@,
                file.full_path@,
                height as nat,
                include_filename,
            ) == Some(path@),
            None => shown_path(file.path@, file.full_path@, height as nat, include_filename)
                is None,
        },
{
    // At least the name of the file is always shown.
    let ghost wanted = height + 1;
    let mut height = height + 1;
    let len = file.path.components.len();
    let mut prefix = len;
    while height > 0 && prefix > 0
        invariant
            prefix <= len,
            height + (len - prefix) == wanted,
        decreases prefix,
    {
        prefix = prefix - 1;
        height = height - 1;
    }
    if height > 0 {
        if include_filename {
            Some(file.full_path.copy())
        } else {
            file.full_path.parent()
        }
    } else {
        let components = copy_subrange(&file.path.components, prefix, len);
        assert(components@ =~= file.path@.tail(wanted as int).components);
        let path = FilePath { absolute: false, components };
        if include_filename {
            Some(path)
        } else {
            path.parent()
        }
    }
}

/// The end of the path of the file that a buffer is of, where it is of one.
pub fn path_for_buffer(
    file: Option<&File>,
    height: usize,
    include_filename: bool,
) -> (r: Option<FilePath>)
    requires
        height < usize::MAX,
    ensures
        match (r, file) {
            (Some(path), Some(file)) => shown_path(
                file.path@,
                file.full_path@,
                height as nat,
                include_filename,
            ) == Some(path@),
            (None, Some(file)) => shown_path(
                file.path@,
                file.full_path@,
                height as nat,
                include_filename,
            ) is None,
            (Some(_), None) => false,
            (None, None) => true,
        },
{
    match file {
        Some(file) => path_for_file(file, height, include_filename),
        None => None,
    }
}

/// However few directories are shown, the name of the file is.
pub proof fn law_file_name_is_always_shown(
    path: crate::paths::FilePathView,
    full_path: crate::paths::FilePathView,
    height: nat,
)
    requires
        path.components.len() > 0,
        full_path.components.len() > 0,
        full_path.components.last() == path.components.last(),
    ensures
        ({
            let shown = shown_path(path, full_path, height, true);
            &&& shown is Some
            &&& shown->0.components.len() > 0
            &&& shown->0.components.last() == path.components.last()
        }),
{
}

/// What is shown of a path always ends as the path itself does: with the name of the file, or,
/// where that is left off, with the name of the directory that it is in.
pub proof fn law_shown_path_ends_as_the_path(path: crate::paths::FilePathView, height: nat)
    requires
        path.components.len() > height,
    ensures
        ({
            let shown = shown_path(path, path, height, true);
            &&& shown is Some
            &&& shown->0.components.len() == height + 1
            &&& shown->0.components.is_suffix_of(path.components)
        }),
        ({
            let shown = shown_path(path, path, height, false);
            &&& shown is Some
            &&& shown->0.components.len() == height
            &&& shown->0.components.is_suffix_of(path.components.drop_last())
        }),
{
}

}
