//! Texts the application makes from numbers: log lines, window titles and
//! the wallpaper window class name.
use vstd::prelude::*;
use rand::Rng;
use crate::text::{chars_of, decimal, push_chars, push_decimal, string_of};

verus! {

broadcast use vstd::string::group_string_axioms;

/// A line of the log file: the time in seconds since the Unix epoch in
/// brackets, a space, and the message.
pub open spec fn log_line(timestamp: u64, msg: Seq<char>) -> Seq<char> {
    seq!['['] + decimal(timestamp as nat) + seq![']', ' '] + msg
}

/// The line that `log_msg` appends to the log file.
pub fn format_log_line(timestamp: u64, msg: &str) -> (line: String)
    ensures
        line@ == log_line(timestamp, msg@),
{
    let mut v: Vec<char> = Vec::new();
    v.push('[');
    push_decimal(&mut v, timestamp);
    v.push(']');
    v.push(' ');
    let m = chars_of(msg);
    push_chars(&mut v, m.as_slice());
    assert(v@ =~= log_line(timestamp, msg@));
    string_of(v.as_slice())
}

/// `prefix` followed by the decimal text of `n`.
fn prefixed_number(prefix: &str, n: u64) -> (s: String)
    ensures
        s@ == prefix@ + decimal(n as nat),
{
    let mut v = chars_of(prefix);
    push_decimal(&mut v, n);
    string_of(v.as_slice())
}

/// The title of the wallpaper window of monitor `index`.
pub open spec fn window_title(index: usize) -> Seq<char> {
    "CPU Live Wallpaper "@ + decimal(index as nat)
}

/// The title of the wallpaper window of monitor `index`.
pub fn wallpaper_window_title(index: usize) -> (s: String)
    ensures
        s@ == window_title(index),
{
    prefixed_number("CPU Live Wallpaper ", index as u64)
}

/// The wallpaper window class name with number `id`.
pub open spec fn class_name_for(id: u32) -> Seq<char> {
    "BGCoreV2WallpaperClass_"@ + decimal(id as nat)
}

/// The wallpaper window class name with number `id`.
pub fn wallpaper_class_name(id: u32) -> (s: String)
    ensures
        s@ == class_name_for(id),
{
    prefixed_number("BGCoreV2WallpaperClass_", id as u64)
}

/// `rand::thread_rng().gen::<u32>()`: a number from the thread's random
/// generator. Nothing is claimed of it.
#[verifier::external_body]
fn random_u32() -> u32 {
    rand::thread_rng().gen::<u32>()
}

/// A fresh wallpaper window class name with a random number, so that a
/// restarted application never meets a class left registered before.
pub fn new_wallpaper_class_name() -> (s: String)
    ensures
        exists|id: u32| s@ == class_name_for(id),
{
    let id = random_u32();
    let s = wallpaper_class_name(id);
    assert(s@ == class_name_for(id));
    s
}

/// `ERROR_CLASS_ALREADY_EXISTS`.
pub const ERROR_CLASS_ALREADY_EXISTS: u32 = 1410;

/// Whether the tray window class is usable after `RegisterClassW` returned
/// `atom` and `GetLastError` gave `last_error`: registered now, or already
/// registered before.
pub fn tray_class_registered(atom: u16, last_error: u32) -> (ok: bool)
    ensures
        ok == (atom != 0 || last_error == ERROR_CLASS_ALREADY_EXISTS),
{
    atom != 0 || last_error == ERROR_CLASS_ALREADY_EXISTS
}

} // verus!
