//! Icons.
use vstd::prelude::*;

use crate::ui::color::Color;

verus! {

/// A length, in pixels at the base size of the font.
#[derive(Clone, Copy, Debug, PartialEq, Eq, Structural)]
pub struct Rems {
    pub px: u32,
}

/// The length that is this many pixels at the base size of the font.
pub fn rems_from_px(px: u32) -> (r: Rems)
    ensures
        r.px == px,
{
    Rems { px }
}

/// One, as the bits of a 32-bit floating point number.
pub const ONE_BITS: u32 = 0x3f80_0000;

/// How an icon is scaled, moved and turned. Each number is held by its bits as a 32-bit floating
/// point number.
#[derive(Clone, Copy, Debug, PartialEq, Eq, Structural)]
pub struct Transformation {
    pub scale_x: u32,
    pub scale_y: u32,
    pub translate_x: u32,
    pub translate_y: u32,
    pub rotate: u32,
}

/// The transformation that leaves an icon as it is.
pub open spec fn identity() -> Transformation {
    Transformation {
        scale_x: ONE_BITS,
        scale_y: ONE_BITS,
        translate_x: 0,
        translate_y: 0,
        rotate: 0,
    }
}

impl Default for Transformation {
    fn default() -> (r: Self)
        ensures
            r == identity(),
    {
        Transformation {
            scale_x: ONE_BITS,
            scale_y: ONE_BITS,
            translate_x: 0,
            translate_y: 0,
            rotate: 0,
        }
    }
}

/// How large an icon is drawn.
#[derive(Clone, Copy, Debug, PartialEq, Eq, Structural)]
pub enum IconSize {
    Indicator,
    XSmall,
    Small,
    Medium,
}

impl Default for IconSize {
    fn default() -> (r: Self)
        ensures
            r == IconSize::Medium,
    {
        IconSize::Medium
    }
}

impl IconSize {
    /// The side of an icon of this size, in pixels at the base size of the font.
    pub open spec fn px(self) -> u32 {
        match self {
            IconSize::Indicator => 10,
            IconSize::XSmall => 12,
            IconSize::Small => 14,
            IconSize::Medium => 16,
        }
    }

    /// The side of an icon of this size.
    pub fn rems(self) -> (r: Rems)
        ensures
            r == (Rems { px: self.px() }),
    {
        match self {
            IconSize::Indicator => rems_from_px(10),
            IconSize::XSmall => rems_from_px(12),
            IconSize::Small => rems_from_px(14),
            IconSize::Medium => rems_from_px(16),
        }
    }
}

/// The icons that the application ships.
#[derive(Clone, Copy, Debug, PartialEq, Eq, Structural)]
pub enum IconName {
    Ai,
    ArrowDown,
    ArrowLeft,
    ArrowRight,
    ArrowUp,
    ArrowUpRight,
    ArrowCircle,
    AtSign,
    AudioOff,
    AudioOn,
    Backspace,
    Bell,
    BellOff,
    BellRing,
    BellDot,
    Bolt,
    CaseSensitive,
    Check,
    ChevronDown,
    ChevronLeft,
    ChevronRight,
    ChevronUp,
    Close,
    Command,
    Control,
    Copy,
    Dash,
    Delete,
    Disconnected,
    Ellipsis,
    Envelope,
    Escape,
    ExclamationTriangle,
    Exit,
    ExternalLink,
    File,
    FileDoc,
    FileGeneric,
    FileGit,
    FileLock,
    FileRust,
    FileToml,
    FileTree,
    Filter,
    Folder,
    FolderOpen,
    FolderX,
    Github,
    Hash,
    InlayHint,
    Link,
    MagicWand,
    MagnifyingGlass,
    MailOpen,
    Maximize,
    Menu,
    MessageBubbles,
    Mic,
    MicMute,
    Minimize,
    Option,
    PageDown,
    PageUp,
    Pencil,
    Play,
    Plus,
    Public,
    Quote,
    Replace,
    ReplaceAll,
    ReplaceNext,
    Return,
    ReplyArrowRight,
    ReplyArrowLeft,
    Screen,
    SelectAll,
    Shift,
    Snip,
    Space,
    Split,
    Tab,
    Terminal,
    Update,
    WholeWord,
    XCircle,
}

impl IconName {
    /// Where the asset of the icon lies.
    pub open spec fn asset(self) -> Seq<char> {
        match self {
            IconName::Ai => "icons/ai.svg"@,
            IconName::ArrowDown => "icons/arrow_down.svg"@,
            IconName::ArrowLeft => "icons/arrow_left.svg"@,
            IconName::ArrowRight => "icons/arrow_right.svg"@,
            IconName::ArrowUp => "icons/arrow_up.svg"@,
            IconName::ArrowUpRight => "icons/arrow_up_right.svg"@,
            IconName::ArrowCircle => "icons/arrow_circle.svg"@,
            IconName::AtSign => "icons/at_sign.svg"@,
            IconName::AudioOff => "icons/speaker_off.svg"@,
            IconName::AudioOn => "icons/speaker_loud.svg"@,
            IconName::Backspace => "icons/backspace.svg"@,
            IconName::Bell => "icons/bell.svg"@,
            IconName::BellOff => "icons/bell_off.svg"@,
            IconName::BellRing => "icons/bell_ring.svg"@,
            IconName::BellDot => "icons/bell_dot.svg"@,
            IconName::Bolt => "icons/bolt.svg"@,
            IconName::CaseSensitive => "icons/case_insensitive.svg"@,
            IconName::Check => "icons/check.svg"@,
            IconName::ChevronDown => "icons/chevron_down.svg"@,
            IconName::ChevronLeft => "icons/chevron_left.svg"@,
            IconName::ChevronRight => "icons/chevron_right.svg"@,
            IconName::ChevronUp => "icons/chevron_up.svg"@,
            IconName::Close => "icons/x.svg"@,
            IconName::Command => "icons/command.svg"@,
            IconName::Control => "icons/control.svg"@,
            IconName::Copy => "icons/copy.svg"@,
            IconName::Dash => "icons/dash.svg"@,
            IconName::Delete => "icons/delete.svg"@,
            IconName::Disconnected => "icons/disconnected.svg"@,
            IconName::Ellipsis => "icons/ellipsis.svg"@,
            IconName::Envelope => "icons/feedback.svg"@,
            IconName::Escape => "icons/escape.svg"@,
            IconName::ExclamationTriangle => "icons/warning.svg"@,
            IconName::Exit => "icons/exit.svg"@,
            IconName::ExternalLink => "icons/external_link.svg"@,
            IconName::File => "icons/file.svg"@,
            IconName::FileDoc => "icons/file_icons/book.svg"@,
            IconName::FileGeneric => "icons/file_icons/file.svg"@,
            IconName::FileGit => "icons/file_icons/git.svg"@,
            IconName::FileLock => "icons/file_icons/lock.svg"@,
            IconName::FileRust => "icons/file_icons/rust.svg"@,
            IconName::FileToml => "icons/file_icons/toml.svg"@,
            IconName::FileTree => "icons/project.svg"@,
            IconName::Filter => "icons/filter.svg"@,
            IconName::Folder => "icons/file_icons/folder.svg"@,
            IconName::FolderOpen => "icons/file_icons/folder_open.svg"@,
            IconName::FolderX => "icons/stop_sharing.svg"@,
            IconName::Github => "icons/github.svg"@,
            IconName::Hash => "icons/hash.svg"@,
            IconName::InlayHint => "icons/inlay_hint.svg"@,
            IconName::Link => "icons/link.svg"@,
            IconName::MagicWand => "icons/magic_wand.svg"@,
            IconName::MagnifyingGlass => "icons/magnifying_glass.svg"@,
            IconName::MailOpen => "icons/mail_open.svg"@,
            IconName::Maximize => "icons/maximize.svg"@,
            IconName::Menu => "icons/menu.svg"@,
            IconName::MessageBubbles => "icons/conversations.svg"@,
            IconName::Mic => "icons/mic.svg"@,
            IconName::MicMute => "icons/mic_mute.svg"@,
            IconName::Minimize => "icons/minimize.svg"@,
            IconName::Option => "icons/option.svg"@,
            IconName::PageDown => "icons/page_down.svg"@,
            IconName::PageUp => "icons/page_up.svg"@,
            IconName::Pencil => "icons/pencil.svg"@,
            IconName::Play => "icons/play.svg"@,
            IconName::Plus => "icons/plus.svg"@,
            IconName::Public => "icons/public.svg"@,
            IconName::Quote => "icons/quote.svg"@,
            IconName::Replace => "icons/replace.svg"@,
            IconName::ReplaceAll => "icons/replace_all.svg"@,
            IconName::ReplaceNext => "icons/replace_next.svg"@,
            IconName::Return => "icons/return.svg"@,
            IconName::ReplyArrowRight => "icons/reply_arrow_right.svg"@,
            IconName::ReplyArrowLeft => "icons/reply_arrow_left.svg"@,
            IconName::Screen => "icons/desktop.svg"@,
            IconName::SelectAll => "icons/select_all.svg"@,
            IconName::Shift => "icons/shift.svg"@,
            IconName::Snip => "icons/snip.svg"@,
            IconName::Space => "icons/space.svg"@,
            IconName::Split => "icons/split.svg"@,
            IconName::Tab => "icons/tab.svg"@,
            IconName::Terminal => "icons/terminal.svg"@,
            IconName::Update => "icons/update.svg"@,
            IconName::WholeWord => "icons/word_search.svg"@,
            IconName::XCircle => "icons/error.svg"@,
        }
    }

    /// Where the asset of the icon lies.
    pub fn path(self) -> (r: &'static str)
        ensures
            r@ == self.asset(),
    {
        match self {
            IconName::Ai => "icons/ai.svg",
            IconName::ArrowDown => "icons/arrow_down.svg",
            IconName::ArrowLeft => "icons/arrow_left.svg",
            IconName::ArrowRight => "icons/arrow_right.svg",
            IconName::ArrowUp => "icons/arrow_up.svg",
            IconName::ArrowUpRight => "icons/arrow_up_right.svg",
            IconName::ArrowCircle => "icons/arrow_circle.svg",
            IconName::AtSign => "icons/at_sign.svg",
            IconName::AudioOff => "icons/speaker_off.svg",
            IconName::AudioOn => "icons/speaker_loud.svg",
            IconName::Backspace => "icons/backspace.svg",
            IconName::Bell => "icons/bell.svg",
            IconName::BellOff => "icons/bell_off.svg",
            IconName::BellRing => "icons/bell_ring.svg",
            IconName::BellDot => "icons/bell_dot.svg",
            IconName::Bolt => "icons/bolt.svg",
            IconName::CaseSensitive => "icons/case_insensitive.svg",
            IconName::Check => "icons/check.svg",
            IconName::ChevronDown => "icons/chevron_down.svg",
            IconName::ChevronLeft => "icons/chevron_left.svg",
            IconName::ChevronRight => "icons/chevron_right.svg",
            IconName::ChevronUp => "icons/chevron_up.svg",
            IconName::Close => "icons/x.svg",
            IconName::Command => "icons/command.svg",
            IconName::Control => "icons/control.svg",
            IconName::Copy => "icons/copy.svg",
            IconName::Dash => "icons/dash.svg",
            IconName::Delete => "icons/delete.svg",
            IconName::Disconnected => "icons/disconnected.svg",
            IconName::Ellipsis => "icons/ellipsis.svg",
            IconName::Envelope => "icons/feedback.svg",
            IconName::Escape => "icons/escape.svg",
            IconName::ExclamationTriangle => "icons/warning.svg",
            IconName::Exit => "icons/exit.svg",
            IconName::ExternalLink => "icons/external_link.svg",
            IconName::File => "icons/file.svg",
            IconName::FileDoc => "icons/file_icons/book.svg",
            IconName::FileGeneric => "icons/file_icons/file.svg",
            IconName::FileGit => "icons/file_icons/git.svg",
            IconName::FileLock => "icons/file_icons/lock.svg",
            IconName::FileRust => "icons/file_icons/rust.svg",
            IconName::FileToml => "icons/file_icons/toml.svg",
            IconName::FileTree => "icons/project.svg",
            IconName::Filter => "icons/filter.svg",
            IconName::Folder => "icons/file_icons/folder.svg",
            IconName::FolderOpen => "icons/file_icons/folder_open.svg",
            IconName::FolderX => "icons/stop_sharing.svg",
            IconName::Github => "icons/github.svg",
            IconName::Hash => "icons/hash.svg",
            IconName::InlayHint => "icons/inlay_hint.svg",
            IconName::Link => "icons/link.svg",
            IconName::MagicWand => "icons/magic_wand.svg",
            IconName::MagnifyingGlass => "icons/magnifying_glass.svg",
            IconName::MailOpen => "icons/mail_open.svg",
            IconName::Maximize => "icons/maximize.svg",
            IconName::Menu => "icons/menu.svg",
            IconName::MessageBubbles => "icons/conversations.svg",
            IconName::Mic => "icons/mic.svg",
            IconName::MicMute => "icons/mic_mute.svg",
            IconName::Minimize => "icons/minimize.svg",
            IconName::Option => "icons/option.svg",
            IconName::PageDown => "icons/page_down.svg",
            IconName::PageUp => "icons/page_up.svg",
            IconName::Pencil => "icons/pencil.svg",
            IconName::Play => "icons/play.svg",
            IconName::Plus => "icons/plus.svg",
            IconName::Public => "icons/public.svg",
            IconName::Quote => "icons/quote.svg",
            IconName::Replace => "icons/replace.svg",
            IconName::ReplaceAll => "icons/replace_all.svg",
            IconName::ReplaceNext => "icons/replace_next.svg",
            IconName::Return => "icons/return.svg",
            IconName::ReplyArrowRight => "icons/reply_arrow_right.svg",
            IconName::ReplyArrowLeft => "icons/reply_arrow_left.svg",
            IconName::Screen => "icons/desktop.svg",
            IconName::SelectAll => "icons/select_all.svg",
            IconName::Shift => "icons/shift.svg",
            IconName::Snip => "icons/snip.svg",
            IconName::Space => "icons/space.svg",
            IconName::Split => "icons/split.svg",
            IconName::Tab => "icons/tab.svg",
            IconName::Terminal => "icons/terminal.svg",
            IconName::Update => "icons/update.svg",
            IconName::WholeWord => "icons/word_search.svg",
            IconName::XCircle => "icons/error.svg",
        }
    }

    /// The number of the icon, in the order in which they are declared.
    pub open spec fn number(self) -> int {
        match self {
            IconName::Ai => 0,
            IconName::ArrowDown => 1,
            IconName::ArrowLeft => 2,
            IconName::ArrowRight => 3,
            IconName::ArrowUp => 4,
            IconName::ArrowUpRight => 5,
            IconName::ArrowCircle => 6,
            IconName::AtSign => 7,
            IconName::AudioOff => 8,
            IconName::AudioOn => 9,
            IconName::Backspace => 10,
            IconName::Bell => 11,
            IconName::BellOff => 12,
            IconName::BellRing => 13,
            IconName::BellDot => 14,
            IconName::Bolt => 15,
            IconName::CaseSensitive => 16,
            IconName::Check => 17,
            IconName::ChevronDown => 18,
            IconName::ChevronLeft => 19,
            IconName::ChevronRight => 20,
            IconName::ChevronUp => 21,
            IconName::Close => 22,
            IconName::Command => 23,
            IconName::Control => 24,
            IconName::Copy => 25,
            IconName::Dash => 26,
            IconName::Delete => 27,
            IconName::Disconnected => 28,
            IconName::Ellipsis => 29,
            IconName::Envelope => 30,
            IconName::Escape => 31,
            IconName::ExclamationTriangle => 32,
            IconName::Exit => 33,
            IconName::ExternalLink => 34,
            IconName::File => 35,
            IconName::FileDoc => 36,
            IconName::FileGeneric => 37,
            IconName::FileGit => 38,
            IconName::FileLock => 39,
            IconName::FileRust => 40,
            IconName::FileToml => 41,
            IconName::FileTree => 42,
            IconName::Filter => 43,
            IconName::Folder => 44,
            IconName::FolderOpen => 45,
            IconName::FolderX => 46,
            IconName::Github => 47,
            IconName::Hash => 48,
            IconName::InlayHint => 49,
            IconName::Link => 50,
            IconName::MagicWand => 51,
            IconName::MagnifyingGlass => 52,
            IconName::MailOpen => 53,
            IconName::Maximize => 54,
            IconName::Menu => 55,
            IconName::MessageBubbles => 56,
            IconName::Mic => 57,
            IconName::MicMute => 58,
            IconName::Minimize => 59,
            IconName::Option => 60,
            IconName::PageDown => 61,
            IconName::PageUp => 62,
            IconName::Pencil => 63,
            IconName::Play => 64,
            IconName::Plus => 65,
            IconName::Public => 66,
            IconName::Quote => 67,
            IconName::Replace => 68,
            IconName::ReplaceAll => 69,
            IconName::ReplaceNext => 70,
            IconName::Return => 71,
            IconName::ReplyArrowRight => 72,
            IconName::ReplyArrowLeft => 73,
            IconName::Screen => 74,
            IconName::SelectAll => 75,
            IconName::Shift => 76,
            IconName::Snip => 77,
            IconName::Space => 78,
            IconName::Split => 79,
            IconName::Tab => 80,
            IconName::Terminal => 81,
            IconName::Update => 82,
            IconName::WholeWord => 83,
            IconName::XCircle => 84,
        }
    }

    /// All the icons, in the order in which they are declared.
    pub fn all() -> (r: Vec<IconName>)
        ensures
            r@.len() == 85,
            forall|icon: IconName|
                0 <= (#[trigger] icon.number()) < r@.len() && r@[icon.number()] == icon,
            forall|i: int| 0 <= i < r@.len() ==> (#[trigger] r@[i]).number() == i,
    {
        vec![
            IconName::Ai,
            IconName::ArrowDown,
            IconName::ArrowLeft,
            IconName::ArrowRight,
            IconName::ArrowUp,
            IconName::ArrowUpRight,
            IconName::ArrowCircle,
            IconName::AtSign,
            IconName::AudioOff,
            IconName::AudioOn,
            IconName::Backspace,
            IconName::Bell,
            IconName::BellOff,
            IconName::BellRing,
            IconName::BellDot,
            IconName::Bolt,
            IconName::CaseSensitive,
            IconName::Check,
            IconName::ChevronDown,
            IconName::ChevronLeft,
            IconName::ChevronRight,
            IconName::ChevronUp,
            IconName::Close,
            IconName::Command,
            IconName::Control,
            IconName::Copy,
            IconName::Dash,
            IconName::Delete,
            IconName::Disconnected,
            IconName::Ellipsis,
            IconName::Envelope,
            IconName::Escape,
            IconName::ExclamationTriangle,
            IconName::Exit,
            IconName::ExternalLink,
            IconName::File,
            IconName::FileDoc,
            IconName::FileGeneric,
            IconName::FileGit,
            IconName::FileLock,
            IconName::FileRust,
            IconName::FileToml,
            IconName::FileTree,
            IconName::Filter,
            IconName::Folder,
            IconName::FolderOpen,
            IconName::FolderX,
            IconName::Github,
            IconName::Hash,
            IconName::InlayHint,
            IconName::Link,
            IconName::MagicWand,
            IconName::MagnifyingGlass,
            IconName::MailOpen,
            IconName::Maximize,
            IconName::Menu,
            IconName::MessageBubbles,
            IconName::Mic,
            IconName::MicMute,
            IconName::Minimize,
            IconName::Option,
            IconName::PageDown,
            IconName::PageUp,
            IconName::Pencil,
            IconName::Play,
            IconName::Plus,
            IconName::Public,
            IconName::Quote,
            IconName::Replace,
            IconName::ReplaceAll,
            IconName::ReplaceNext,
            IconName::Return,
            IconName::ReplyArrowRight,
            IconName::ReplyArrowLeft,
            IconName::Screen,
            IconName::SelectAll,
            IconName::Shift,
            IconName::Snip,
            IconName::Space,
            IconName::Split,
            IconName::Tab,
            IconName::Terminal,
            IconName::Update,
            IconName::WholeWord,
            IconName::XCircle,
        ]
    }
}

/// Every icon is an SVG file under `icons/`.
pub proof fn law_icons_are_svg_assets(icon: IconName)
    ensures
        "icons/"@.is_prefix_of(icon.asset()),
        ".svg"@.is_suffix_of(icon.asset()),
{
    reveal_strlit("icons/");
    reveal_strlit(".svg");
    match icon {
        IconName::Ai => { reveal_strlit("icons/ai.svg"); },
        IconName::ArrowDown => { reveal_strlit("icons/arrow_down.svg"); },
        IconName::ArrowLeft => { reveal_strlit("icons/arrow_left.svg"); },
        IconName::ArrowRight => { reveal_strlit("icons/arrow_right.svg"); },
        IconName::ArrowUp => { reveal_strlit("icons/arrow_up.svg"); },
        IconName::ArrowUpRight => { reveal_strlit("icons/arrow_up_right.svg"); },
        IconName::ArrowCircle => { reveal_strlit("icons/arrow_circle.svg"); },
        IconName::AtSign => { reveal_strlit("icons/at_sign.svg"); },
        IconName::AudioOff => { reveal_strlit("icons/speaker_off.svg"); },
        IconName::AudioOn => { reveal_strlit("icons/speaker_loud.svg"); },
        IconName::Backspace => { reveal_strlit("icons/backspace.svg"); },
        IconName::Bell => { reveal_strlit("icons/bell.svg"); },
        IconName::BellOff => { reveal_strlit("icons/bell_off.svg"); },
        IconName::BellRing => { reveal_strlit("icons/bell_ring.svg"); },
        IconName::BellDot => { reveal_strlit("icons/bell_dot.svg"); },
        IconName::Bolt => { reveal_strlit("icons/bolt.svg"); },
        IconName::CaseSensitive => { reveal_strlit("icons/case_insensitive.svg"); },
        IconName::Check => { reveal_strlit("icons/check.svg"); },
        IconName::ChevronDown => { reveal_strlit("icons/chevron_down.svg"); },
        IconName::ChevronLeft => { reveal_strlit("icons/chevron_left.svg"); },
        IconName::ChevronRight => { reveal_strlit("icons/chevron_right.svg"); },
        IconName::ChevronUp => { reveal_strlit("icons/chevron_up.svg"); },
        IconName::Close => { reveal_strlit("icons/x.svg"); },
        IconName::Command => { reveal_strlit("icons/command.svg"); },
        IconName::Control => { reveal_strlit("icons/control.svg"); },
        IconName::Copy => { reveal_strlit("icons/copy.svg"); },
        IconName::Dash => { reveal_strlit("icons/dash.svg"); },
        IconName::Delete => { reveal_strlit("icons/delete.svg"); },
        IconName::Disconnected => { reveal_strlit("icons/disconnected.svg"); },
        IconName::Ellipsis => { reveal_strlit("icons/ellipsis.svg"); },
        IconName::Envelope => { reveal_strlit("icons/feedback.svg"); },
        IconName::Escape => { reveal_strlit("icons/escape.svg"); },
        IconName::ExclamationTriangle => { reveal_strlit("icons/warning.svg"); },
        IconName::Exit => { reveal_strlit("icons/exit.svg"); },
        IconName::ExternalLink => { reveal_strlit("icons/external_link.svg"); },
        IconName::File => { reveal_strlit("icons/file.svg"); },
        IconName::FileDoc => { reveal_strlit("icons/file_icons/book.svg"); },
        IconName::FileGeneric => { reveal_strlit("icons/file_icons/file.svg"); },
        IconName::FileGit => { reveal_strlit("icons/file_icons/git.svg"); },
        IconName::FileLock => { reveal_strlit("icons/file_icons/lock.svg"); },
        IconName::FileRust => { reveal_strlit("icons/file_icons/rust.svg"); },
        IconName::FileToml => { reveal_strlit("icons/file_icons/toml.svg"); },
        IconName::FileTree => { reveal_strlit("icons/project.svg"); },
        IconName::Filter => { reveal_strlit("icons/filter.svg"); },
        IconName::Folder => { reveal_strlit("icons/file_icons/folder.svg"); },
        IconName::FolderOpen => { reveal_strlit("icons/file_icons/folder_open.svg"); },
        IconName::FolderX => { reveal_strlit("icons/stop_sharing.svg"); },
        IconName::Github => { reveal_strlit("icons/github.svg"); },
        IconName::Hash => { reveal_strlit("icons/hash.svg"); },
        IconName::InlayHint => { reveal_strlit("icons/inlay_hint.svg"); },
        IconName::Link => { reveal_strlit("icons/link.svg"); },
        IconName::MagicWand => { reveal_strlit("icons/magic_wand.svg"); },
        IconName::MagnifyingGlass => { reveal_strlit("icons/magnifying_glass.svg"); },
        IconName::MailOpen => { reveal_strlit("icons/mail_open.svg"); },
        IconName::Maximize => { reveal_strlit("icons/maximize.svg"); },
        IconName::Menu => { reveal_strlit("icons/menu.svg"); },
        IconName::MessageBubbles => { reveal_strlit("icons/conversations.svg"); },
        IconName::Mic => { reveal_strlit("icons/mic.svg"); },
        IconName::MicMute => { reveal_strlit("icons/mic_mute.svg"); },
        IconName::Minimize => { reveal_strlit("icons/minimize.svg"); },
        IconName::Option => { reveal_strlit("icons/option.svg"); },
        IconName::PageDown => { reveal_strlit("icons/page_down.svg"); },
        IconName::PageUp => { reveal_strlit("icons/page_up.svg"); },
        IconName::Pencil => { reveal_strlit("icons/pencil.svg"); },
        IconName::Play => { reveal_strlit("icons/play.svg"); },
        IconName::Plus => { reveal_strlit("icons/plus.svg"); },
        IconName::Public => { reveal_strlit("icons/public.svg"); },
        IconName::Quote => { reveal_strlit("icons/quote.svg"); },
        IconName::Replace => { reveal_strlit("icons/replace.svg"); },
        IconName::ReplaceAll => { reveal_strlit("icons/replace_all.svg"); },
        IconName::ReplaceNext => { reveal_strlit("icons/replace_next.svg"); },
        IconName::Return => { reveal_strlit("icons/return.svg"); },
        IconName::ReplyArrowRight => { reveal_strlit("icons/reply_arrow_right.svg"); },
        IconName::ReplyArrowLeft => { reveal_strlit("icons/reply_arrow_left.svg"); },
        IconName::Screen => { reveal_strlit("icons/desktop.svg"); },
        IconName::SelectAll => { reveal_strlit("icons/select_all.svg"); },
        IconName::Shift => { reveal_strlit("icons/shift.svg"); },
        IconName::Snip => { reveal_strlit("icons/snip.svg"); },
        IconName::Space => { reveal_strlit("icons/space.svg"); },
        IconName::Split => { reveal_strlit("icons/split.svg"); },
        IconName::Tab => { reveal_strlit("icons/tab.svg"); },
        IconName::Terminal => { reveal_strlit("icons/terminal.svg"); },
        IconName::Update => { reveal_strlit("icons/update.svg"); },
        IconName::WholeWord => { reveal_strlit("icons/word_search.svg"); },
        IconName::XCircle => { reveal_strlit("icons/error.svg"); },
    }
}

/// Which file each of the icons is.
pub proof fn law_files_of_icons()
    ensures
        IconName::Ai.asset() == "icons/ai.svg"@,
        IconName::ArrowDown.asset() == "icons/arrow_down.svg"@,
        IconName::ArrowLeft.asset() == "icons/arrow_left.svg"@,
        IconName::ArrowRight.asset() == "icons/arrow_right.svg"@,
        IconName::ArrowUp.asset() == "icons/arrow_up.svg"@,
        IconName::ArrowUpRight.asset() == "icons/arrow_up_right.svg"@,
        IconName::ArrowCircle.asset() == "icons/arrow_circle.svg"@,
        IconName::AtSign.asset() == "icons/at_sign.svg"@,
        IconName::AudioOff.asset() == "icons/speaker_off.svg"@,
        IconName::AudioOn.asset() == "icons/speaker_loud.svg"@,
        IconName::Backspace.asset() == "icons/backspace.svg"@,
        IconName::Bell.asset() == "icons/bell.svg"@,
        IconName::BellOff.asset() == "icons/bell_off.svg"@,
        IconName::BellRing.asset() == "icons/bell_ring.svg"@,
        IconName::BellDot.asset() == "icons/bell_dot.svg"@,
        IconName::Bolt.asset() == "icons/bolt.svg"@,
        IconName::CaseSensitive.asset() == "icons/case_insensitive.svg"@,
        IconName::Check.asset() == "icons/check.svg"@,
        IconName::ChevronDown.asset() == "icons/chevron_down.svg"@,
        IconName::ChevronLeft.asset() == "icons/chevron_left.svg"@,
        IconName::ChevronRight.asset() == "icons/chevron_right.svg"@,
        IconName::ChevronUp.asset() == "icons/chevron_up.svg"@,
        IconName::Close.asset() == "icons/x.svg"@,
        IconName::Command.asset() == "icons/command.svg"@,
        IconName::Control.asset() == "icons/control.svg"@,
        IconName::Copy.asset() == "icons/copy.svg"@,
        IconName::Dash.asset() == "icons/dash.svg"@,
        IconName::Delete.asset() == "icons/delete.svg"@,
        IconName::Disconnected.asset() == "icons/disconnected.svg"@,
        IconName::Ellipsis.asset() == "icons/ellipsis.svg"@,
        IconName::Envelope.asset() == "icons/feedback.svg"@,
        IconName::Escape.asset() == "icons/escape.svg"@,
        IconName::ExclamationTriangle.asset() == "icons/warning.svg"@,
        IconName::Exit.asset() == "icons/exit.svg"@,
        IconName::ExternalLink.asset() == "icons/external_link.svg"@,
        IconName::File.asset() == "icons/file.svg"@,
        IconName::FileDoc.asset() == "icons/file_icons/book.svg"@,
        IconName::FileGeneric.asset() == "icons/file_icons/file.svg"@,
        IconName::FileGit.asset() == "icons/file_icons/git.svg"@,
        IconName::FileLock.asset() == "icons/file_icons/lock.svg"@,
        IconName::FileRust.asset() == "icons/file_icons/rust.svg"@,
        IconName::FileToml.asset() == "icons/file_icons/toml.svg"@,
        IconName::FileTree.asset() == "icons/project.svg"@,
        IconName::Filter.asset() == "icons/filter.svg"@,
        IconName::Folder.asset() == "icons/file_icons/folder.svg"@,
        IconName::FolderOpen.asset() == "icons/file_icons/folder_open.svg"@,
        IconName::FolderX.asset() == "icons/stop_sharing.svg"@,
        IconName::Github.asset() == "icons/github.svg"@,
        IconName::Hash.asset() == "icons/hash.svg"@,
        IconName::InlayHint.asset() == "icons/inlay_hint.svg"@,
        IconName::Link.asset() == "icons/link.svg"@,
        IconName::MagicWand.asset() == "icons/magic_wand.svg"@,
        IconName::MagnifyingGlass.asset() == "icons/magnifying_glass.svg"@,
        IconName::MailOpen.asset() == "icons/mail_open.svg"@,
        IconName::Maximize.asset() == "icons/maximize.svg"@,
        IconName::Menu.asset() == "icons/menu.svg"@,
        IconName::MessageBubbles.asset() == "icons/conversations.svg"@,
        IconName::Mic.asset() == "icons/mic.svg"@,
        IconName::MicMute.asset() == "icons/mic_mute.svg"@,
        IconName::Minimize.asset() == "icons/minimize.svg"@,
        IconName::Option.asset() == "icons/option.svg"@,
        IconName::PageDown.asset() == "icons/page_down.svg"@,
        IconName::PageUp.asset() == "icons/page_up.svg"@,
        IconName::Pencil.asset() == "icons/pencil.svg"@,
        IconName::Play.asset() == "icons/play.svg"@,
        IconName::Plus.asset() == "icons/plus.svg"@,
        IconName::Public.asset() == "icons/public.svg"@,
        IconName::Quote.asset() == "icons/quote.svg"@,
        IconName::Replace.asset() == "icons/replace.svg"@,
        IconName::ReplaceAll.asset() == "icons/replace_all.svg"@,
        IconName::ReplaceNext.asset() == "icons/replace_next.svg"@,
        IconName::Return.asset() == "icons/return.svg"@,
        IconName::ReplyArrowRight.asset() == "icons/reply_arrow_right.svg"@,
        IconName::ReplyArrowLeft.asset() == "icons/reply_arrow_left.svg"@,
        IconName::Screen.asset() == "icons/desktop.svg"@,
        IconName::SelectAll.asset() == "icons/select_all.svg"@,
        IconName::Shift.asset() == "icons/shift.svg"@,
        IconName::Snip.asset() == "icons/snip.svg"@,
        IconName::Space.asset() == "icons/space.svg"@,
        IconName::Split.asset() == "icons/split.svg"@,
        IconName::Tab.asset() == "icons/tab.svg"@,
        IconName::Terminal.asset() == "icons/terminal.svg"@,
        IconName::Update.asset() == "icons/update.svg"@,
        IconName::WholeWord.asset() == "icons/word_search.svg"@,
        IconName::XCircle.asset() == "icons/error.svg"@,
{
}

/// The sides of icons, in pixels, from the smallest to the largest; and the transformation that
/// changes nothing scales by one and neither moves nor turns.
pub proof fn law_measures_of_icons()
    ensures
        IconSize::Indicator.px() == 10,
        IconSize::XSmall.px() == 12,
        IconSize::Small.px() == 14,
        IconSize::Medium.px() == 16,
        identity() == (Transformation {
            scale_x: 0x3f80_0000,
            scale_y: 0x3f80_0000,
            translate_x: 0,
            translate_y: 0,
            rotate: 0,
        }),
{
}

/// The icons are numbered in the order in which they are declared.
pub proof fn law_order_of_icons()
    ensures
        IconName::Ai.number() == 0,
        IconName::ArrowDown.number() == 1,
        IconName::ArrowLeft.number() == 2,
        IconName::ArrowRight.number() == 3,
        IconName::ArrowUp.number() == 4,
        IconName::ArrowUpRight.number() == 5,
        IconName::ArrowCircle.number() == 6,
        IconName::AtSign.number() == 7,
        IconName::AudioOff.number() == 8,
        IconName::AudioOn.number() == 9,
        IconName::Backspace.number() == 10,
        IconName::Bell.number() == 11,
        IconName::BellOff.number() == 12,
        IconName::BellRing.number() == 13,
        IconName::BellDot.number() == 14,
        IconName::Bolt.number() == 15,
        IconName::CaseSensitive.number() == 16,
        IconName::Check.number() == 17,
        IconName::ChevronDown.number() == 18,
        IconName::ChevronLeft.number() == 19,
        IconName::ChevronRight.number() == 20,
        IconName::ChevronUp.number() == 21,
        IconName::Close.number() == 22,
        IconName::Command.number() == 23,
        IconName::Control.number() == 24,
        IconName::Copy.number() == 25,
        IconName::Dash.number() == 26,
        IconName::Delete.number() == 27,
        IconName::Disconnected.number() == 28,
        IconName::Ellipsis.number() == 29,
        IconName::Envelope.number() == 30,
        IconName::Escape.number() == 31,
        IconName::ExclamationTriangle.number() == 32,
        IconName::Exit.number() == 33,
        IconName::ExternalLink.number() == 34,
        IconName::File.number() == 35,
        IconName::FileDoc.number() == 36,
        IconName::FileGeneric.number() == 37,
        IconName::FileGit.number() == 38,
        IconName::FileLock.number() == 39,
        IconName::FileRust.number() == 40,
        IconName::FileToml.number() == 41,
        IconName::FileTree.number() == 42,
        IconName::Filter.number() == 43,
        IconName::Folder.number() == 44,
        IconName::FolderOpen.number() == 45,
        IconName::FolderX.number() == 46,
        IconName::Github.number() == 47,
        IconName::Hash.number() == 48,
        IconName::InlayHint.number() == 49,
        IconName::Link.number() == 50,
        IconName::MagicWand.number() == 51,
        IconName::MagnifyingGlass.number() == 52,
        IconName::MailOpen.number() == 53,
        IconName::Maximize.number() == 54,
        IconName::Menu.number() == 55,
        IconName::MessageBubbles.number() == 56,
        IconName::Mic.number() == 57,
        IconName::MicMute.number() == 58,
        IconName::Minimize.number() == 59,
        IconName::Option.number() == 60,
        IconName::PageDown.number() == 61,
        IconName::PageUp.number() == 62,
        IconName::Pencil.number() == 63,
        IconName::Play.number() == 64,
        IconName::Plus.number() == 65,
        IconName::Public.number() == 66,
        IconName::Quote.number() == 67,
        IconName::Replace.number() == 68,
        IconName::ReplaceAll.number() == 69,
        IconName::ReplaceNext.number() == 70,
        IconName::Return.number() == 71,
        IconName::ReplyArrowRight.number() == 72,
        IconName::ReplyArrowLeft.number() == 73,
        IconName::Screen.number() == 74,
        IconName::SelectAll.number() == 75,
        IconName::Shift.number() == 76,
        IconName::Snip.number() == 77,
        IconName::Space.number() == 78,
        IconName::Split.number() == 79,
        IconName::Tab.number() == 80,
        IconName::Terminal.number() == 81,
        IconName::Update.number() == 82,
        IconName::WholeWord.number() == 83,
        IconName::XCircle.number() == 84,
{
}

/// An icon to be drawn.
pub struct Icon {
    path: String,
    color: Color,
    size: IconSize,
    transformation: Transformation,
}

/// What an icon is drawn from.
#[verifier::ext_equal]
pub ghost struct IconView {
    pub path: Seq<char>,
    pub color: Color,
    pub size: IconSize,
    pub transformation: Transformation,
}

impl View for Icon {
    type V = IconView;

    closed spec fn view(&self) -> IconView {
        IconView {
            path: self.path@,
            color: self.color,
            size: self.size,
            transformation: self.transformation,
        }
    }
}

/// The picture that an icon is drawn as.
#[derive(Debug)]
pub struct Svg {
    pub path: String,
    pub size: Rems,
    /// Whether the picture keeps its size when there is more or less room for it.
    pub flex_none: bool,
    pub text_color: Color,
    pub transformation: Transformation,
}

impl Icon {
    /// One of the icons that the application ships.
    pub fn new(icon: IconName) -> (r: Self)
        ensures
            r@ == (IconView {
                path: icon.asset(),
                color: Color::Default,
                size: IconSize::Medium,
                transformation: identity(),
            }),
    {
        Icon {
            path: icon.path().to_string(),
            color: Color::default(),
            size: IconSize::default(),
            transformation: Transformation::default(),
        }
    }

    /// The icon whose asset lies at `path`.
    pub fn from_path(path: String) -> (r: Self)
        ensures
            r@ == (IconView {
                path: path@,
                color: Color::Default,
                size: IconSize::Medium,
                transformation: identity(),
            }),
    {
        Icon {
            path,
            color: Color::default(),
            size: IconSize::default(),
            transformation: Transformation::default(),
        }
    }

    /// The icon in another color.
    pub fn color(self, color: Color) -> (r: Self)
        ensures
            r@ == (IconView { color, ..self@ }),
    {
        Icon { color, ..self }
    }

    /// The icon in another size.
    pub fn size(self, size: IconSize) -> (r: Self)
        ensures
            r@ == (IconView { size, ..self@ }),
    {
        Icon { size, ..self }
    }

    /// The icon under another transformation.
    pub fn transform(self, transformation: Transformation) -> (r: Self)
        ensures
            r@ == (IconView { transformation, ..self@ }),
    {
        Icon { transformation, ..self }
    }

    /// The picture that the icon is drawn as.
    pub fn render(self) -> (r: Svg)
        ensures
            r.path@ == self@.path,
            r.size.px == self@.size.px(),
            r.flex_none,
            r.text_color == self@.color,
            r.transformation == self@.transformation,
    {
        Svg {
            path: self.path,
            size: self.size.rems(),
            flex_none: true,
            text_color: self.color,
            transformation: self.transformation,
        }
    }
}

}
