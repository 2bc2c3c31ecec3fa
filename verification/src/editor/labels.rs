//! The colors of the labels of files.
use vstd::prelude::*;

use crate::ui::color::Color;

verus! {

/// What the repository has to say of a file that differs from what is committed.
#[derive(Clone, Copy, Debug, PartialEq, Eq, Structural)]
pub enum GitFileStatus {
    Added,
    Modified,
    Conflict,
}

/// The color of a label whose file has nothing special to it.
pub open spec fn plain_label_color(selected: bool) -> Color {
    if selected {
        Color::Default
    } else {
        Color::Muted
    }
}

/// The color of a label, given what the repository has to say of its file.
pub open spec fn git_label_color(
    git_status: Option<GitFileStatus>,
    ignored: bool,
    selected: bool,
) -> Color {
    if ignored {
        Color::Disabled
    } else {
        match git_status {
            Some(GitFileStatus::Added) => Color::Created,
            Some(GitFileStatus::Modified) => Color::Modified,
            Some(GitFileStatus::Conflict) => Color::Conflict,
            None => plain_label_color(selected),
        }
    }
}

/// The color of a label whose file has nothing special to it.
pub fn entry_label_color(selected: bool) -> (r: Color)
    ensures
        r == plain_label_color(selected),
{
    if selected {
        Color::Default
    } else {
        Color::Muted
    }
}

/// The color of a label, given what the repository has to say of its file.
pub fn entry_git_aware_label_color(
    git_status: Option<GitFileStatus>,
    ignored: bool,
    selected: bool,
) -> (r: Color)
    ensures
        r == git_label_color(git_status, ignored, selected),
{
    if ignored {
        Color::Disabled
    } else {
        match git_status {
            Some(GitFileStatus::Added) => Color::Created,
            Some(GitFileStatus::Modified) => Color::Modified,
            Some(GitFileStatus::Conflict) => Color::Conflict,
            None => entry_label_color(selected),
        }
    }
}

/// Selecting an item changes the color of its label only where the repository has nothing to
/// say of its file.
pub proof fn law_selection_shows_on_plain_labels_only(
    git_status: Option<GitFileStatus>,
    ignored: bool,
)
    ensures
        git_label_color(git_status, ignored, true) != git_label_color(git_status, ignored, false)
            <==> !ignored && git_status is None,
{
}

}
