//! The roles that colors have in a theme.
use vstd::prelude::*;

verus! {

/// The role of a color.
#[derive(Clone, Copy, Debug, PartialEq, Eq, Structural)]
pub enum Color {
    Default,
    Muted,
    Disabled,
    Created,
    Modified,
    Conflict,
}

impl Default for Color {
    fn default() -> (r: Self)
        ensures
            r == Color::Default,
    {
        Color::Default
    }
}

}
