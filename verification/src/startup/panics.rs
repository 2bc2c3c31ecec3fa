//! What is written down of a panic.
use vstd::prelude::*;

use crate::text::{copy_subrange, str_eq};

verus! {

/// The frame of a stack trace below which Rust handles the panic.
pub const PANIC_FRAME: &'static str = "rust_begin_unwind";

/// Where in the code something is.
#[derive(Debug)]
pub struct LocationData {
    pub file: String,
    pub line: u32,
}

/// What is known of a panic when it happens.
#[derive(Debug)]
pub struct PanicInfo {
    pub thread_name: Option<String>,
    /// What was panicked with, if it was a literal.
    pub str_payload: Option<String>,
    /// What was panicked with, if it was a string.
    pub string_payload: Option<String>,
    pub location: Option<LocationData>,
    /// The version that the system says the application has.
    pub app_version: Option<String>,
    /// The version that the application was built with.
    pub package_version: Option<String>,
    pub os_name: String,
    pub os_version: Option<String>,
    pub architecture: String,
    pub panicked_on: i64,
    /// The names on the stack, the innermost first.
    pub backtrace: Vec<String>,
}

/// What is written down of a panic.
#[derive(Debug)]
pub struct Panic {
    pub thread: String,
    pub payload: String,
    pub location_data: Option<LocationData>,
    pub backtrace: Vec<String>,
    pub app_version: String,
    pub os_name: String,
    pub os_version: Option<String>,
    pub architecture: String,
    pub panicked_on: i64,
}

/// The frames of a stack without those of Rust's own handling of the panic: everything up to the
/// first frame of that name, and that one, is left off. Without such a frame nothing is.
pub open spec fn own_frames(backtrace: Seq<String>) -> Seq<String> {
    own_frames_from(backtrace, 0)
}

/// The same, given that the first so many frames have other names.
pub open spec fn own_frames_from(backtrace: Seq<String>, from: int) -> Seq<String>
    decreases backtrace.len() - from,
{
    if from < 0 || from >= backtrace.len() {
        backtrace
    } else if backtrace[from]@ == PANIC_FRAME@ {
        backtrace.skip(from + 1)
    } else {
        own_frames_from(backtrace, from + 1)
    }
}

/// Leaves off the frames of Rust's own handling of the panic.
pub fn strip_panic_frames(backtrace: Vec<String>) -> (r: Vec<String>)
    ensures
        r@ == own_frames(backtrace@),
{
    let mut i: usize = 0;
    while i < backtrace.len()
        invariant
            i <= backtrace.len(),
            own_frames(backtrace@) == own_frames_from(backtrace@, i as int),
        decreases backtrace.len() - i,
    {
        if str_eq(backtrace[i].as_str(), PANIC_FRAME) {
            let frames = copy_subrange(&backtrace, i + 1, backtrace.len());
            assert(frames@ =~= backtrace@.skip(i + 1));
            return frames;
        }
        i = i + 1;
    }
    backtrace
}

/// What is left of a stack is its end.
pub proof fn law_outer_frames_stay(backtrace: Seq<String>, from: int)
    requires
        0 <= from <= backtrace.len(),
    ensures
        own_frames_from(backtrace, from).is_suffix_of(backtrace),
        (forall|i: int| from <= i < backtrace.len() ==> (#[trigger] backtrace[i])@ != PANIC_FRAME@)
            ==> own_frames_from(backtrace, from) == backtrace,
    decreases backtrace.len() - from,
{
    if from < backtrace.len() && backtrace[from]@ != PANIC_FRAME@ {
        law_outer_frames_stay(backtrace, from + 1);
    } else if from < backtrace.len() {
        assert(backtrace.skip(from + 1) =~= backtrace.subrange(
            backtrace.len() - backtrace.skip(from + 1).len(),
            backtrace.len() as int,
        ));
    } else {
        assert(backtrace =~= backtrace.subrange(0, backtrace.len() as int));
    }
}

/// A text, or else another.
pub open spec fn text_or(text: Option<String>, other: Seq<char>) -> Seq<char> {
    match text {
        Some(text) => text@,
        None => other,
    }
}

impl PanicInfo {
    /// What was panicked with, as far as it is text.
    pub open spec fn payload(self) -> Seq<char> {
        match self.str_payload {
            Some(payload) => payload@,
            None => text_or(self.string_payload, "Box<Any>"@),
        }
    }

    /// The version of the application.
    pub open spec fn version(self) -> Seq<char> {
        match self.app_version {
            Some(version) => version@,
            None => text_or(self.package_version, "dev"@),
        }
    }
}

fn string_or(text: Option<String>, other: &str) -> (r: String)
    ensures
        r@ == text_or(text, other@),
{
    match text {
        Some(text) => text,
        None => other.to_string(),
    }
}

/// What is written down of a panic.
pub fn panic_data(info: PanicInfo) -> (r: Panic)
    ensures
        r.thread@ == text_or(info.thread_name, "<unnamed>"@),
        r.payload@ == info.payload(),
        r.location_data == info.location,
        r.backtrace@ == own_frames(info.backtrace@),
        r.app_version@ == info.version(),
        r.os_name == info.os_name,
        r.os_version == info.os_version,
        r.architecture == info.architecture,
        r.panicked_on == info.panicked_on,
{
    let thread = string_or(info.thread_name, "<unnamed>");
    let payload = match info.str_payload {
        Some(payload) => payload,
        None => string_or(info.string_payload, "Box<Any>"),
    };
    let app_version = match info.app_version {
        Some(version) => version,
        None => string_or(info.package_version, "dev"),
    };
    Panic {
        thread,
        payload,
        location_data: info.location,
        backtrace: strip_panic_frames(info.backtrace),
        app_version,
        os_name: info.os_name,
        os_version: info.os_version,
        architecture: info.architecture,
        panicked_on: info.panicked_on,
    }
}

/// The name of the file that a panic is written to, given when it happened.
pub fn panic_file_name(timestamp: &str) -> (r: String)
    ensures
        r@ == "zed-"@ + timestamp@ + ".panic"@,
{
    let mut name = "zed-".to_string();
    name.append(timestamp);
    name.append(".panic");
    name
}

/// What a thread that panics does.
#[derive(Clone, Copy, Debug, PartialEq, Eq, Structural)]
pub enum PanicAction {
    /// Another thread is at it already.
    Wait,
    /// The panic is logged.
    Log,
    /// The panic is logged and written to a file.
    LogAndWrite,
}

/// What a thread that panics does: only the first one reports it, and to a file only where
/// nobody is looking.
pub fn panic_action(prior_panic_count: u32, is_pty: bool) -> (r: PanicAction)
    ensures
        r == if prior_panic_count > 0 {
            PanicAction::Wait
        } else if is_pty {
            PanicAction::Log
        } else {
            PanicAction::LogAndWrite
        },
{
    if prior_panic_count > 0 {
        PanicAction::Wait
    } else if is_pty {
        PanicAction::Log
    } else {
        PanicAction::LogAndWrite
    }
}

}
