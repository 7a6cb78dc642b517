//! What a log line reads.
//!
//! A line is made of the timestamp, the level tag in a field of seven
//! characters, the owner aligned to the right of a field of sixty, the mark
//! `|:` and the message. The owner field names the emitting thread after the
//! owner itself.

use vstd::prelude::*;
use vstd::string::*;
use crate::level::Level;
use crate::paint::{line_paint, line_paint_of, paint_outcome, tag_paint, tag_paint_of};
use crate::text::{decimal, pad_left, pad_right, padded_left, padded_right, push_decimal};

verus! {

/// Width of the field that holds the level tag.
pub const TAG_WIDTH: usize = 7;

/// Width of the field that holds the owner.
pub const OWNER_WIDTH: usize = 60;

/// Width of the field that holds the thread's display name.
pub const THREAD_WIDTH: usize = 20;

/// The owner as it is written: the owner, then ` @` and the display name of the
/// emitting thread in its field.
pub open spec fn owner_field(owner: Seq<char>, thread_name: Seq<char>) -> Seq<char> {
    owner + " @"@ + padded_right(thread_name, THREAD_WIDTH as nat)
}

/// The owner that stands for a place in the source: file, line and column,
/// parted by colons.
pub open spec fn location_text(file: Seq<char>, line: nat, column: nat) -> Seq<char> {
    file + ":"@ + decimal(line) + ":"@ + decimal(column)
}

/// The tag of `level` in its field.
pub open spec fn tag_field(level: Level) -> Seq<char> {
    padded_right(level.tag_text(), TAG_WIDTH as nat)
}

/// A line without its end: the fields in their order, each parted from the next
/// by a space.
pub open spec fn line_of(
    timestamp: Seq<char>,
    tag: Seq<char>,
    owner: Seq<char>,
    message: Seq<char>,
) -> Seq<char> {
    timestamp + " "@ + tag + " "@ + padded_left(owner, OWNER_WIDTH as nat) + " |: "@ + message
}

/// The line that a file receives: plain text, ended by a line feed.
pub open spec fn file_text(
    timestamp: Seq<char>,
    level: Level,
    owner: Seq<char>,
    message: Seq<char>,
) -> Seq<char> {
    line_of(timestamp, tag_field(level), owner, message) + "\n"@
}

/// `out` is the line `body` as the console receives it: painted with the
/// colour of `level`, or left plain where colouring is off, and ended by a line
/// feed.
pub open spec fn shown_line(out: Seq<char>, body: Seq<char>, level: Level) -> bool {
    exists|shown: Seq<char>| #[trigger]
        paint_outcome(shown, body, line_paint_of(level)) && out == shown + "\n"@
}

/// `out` is a line that the console may receive: the tag is painted in its
/// field, the line is built around it, and the whole is painted once more.
pub open spec fn console_text(
    out: Seq<char>,
    timestamp: Seq<char>,
    level: Level,
    owner: Seq<char>,
    message: Seq<char>,
) -> bool {
    exists|tag: Seq<char>| #[trigger]
        paint_outcome(tag, tag_field(level), tag_paint_of(level)) && shown_line(
            out,
            line_of(timestamp, tag, owner, message),
            level,
        )
}

/// The owner as it is written, with the display name of the emitting thread.
pub fn make_owner_field(owner: &str, thread_name: &str) -> (out: String)
    ensures
        out@ == owner_field(owner@, thread_name@),
{
    let mut out: String = String::from_str(owner);
    out.append(" @");
    let name: String = pad_right(thread_name, THREAD_WIDTH);
    out.append(name.as_str());
    out
}

/// The owner that stands for a place in the source.
pub fn location_owner(file: &str, line: u32, column: u32) -> (out: String)
    ensures
        out@ == location_text(file@, line as nat, column as nat),
{
    let mut out: String = String::from_str(file);
    out.append(":");
    push_decimal(&mut out, line);
    out.append(":");
    push_decimal(&mut out, column);
    out
}

/// Puts a line together from its fields. `tag` is the tag field as it is to be
/// written, painted or plain.
pub fn make_line(timestamp: &str, tag: &str, owner: &str, message: &str) -> (out: String)
    ensures
        out@ == line_of(timestamp@, tag@, owner@, message@),
{
    let mut out: String = String::from_str(timestamp);
    out.append(" ");
    out.append(tag);
    out.append(" ");
    let field: String = pad_left(owner, OWNER_WIDTH);
    out.append(field.as_str());
    out.append(" |: ");
    out.append(message);
    out
}

/// The line that a file receives.
pub fn make_file_text(timestamp: &str, level: Level, owner: &str, message: &str) -> (out: String)
    ensures
        out@ == file_text(timestamp@, level, owner@, message@),
{
    let tag: String = pad_right(level.tag(), TAG_WIDTH);
    let mut out: String = make_line(timestamp, tag.as_str(), owner, message);
    out.append("\n");
    out
}

/// Ends a shown console line with a line feed.
pub fn end_console_line(shown: String) -> (out: String)
    ensures
        out@ == shown@ + "\n"@,
{
    let mut out: String = shown;
    out.append("\n");
    out
}

/// The line that the console receives. The tag is painted first, alone in its
/// field, then the whole line.
pub fn make_console_text(timestamp: &str, level: Level, owner: &str, message: &str) -> (out: String)
    ensures
        console_text(out@, timestamp@, level, owner@, message@),
{
    let field: String = pad_right(level.tag(), TAG_WIDTH);
    let tag: String = tag_paint(level).apply(field.as_str());
    let body: String = make_line(timestamp, tag.as_str(), owner, message);
    let shown: String = line_paint(level).apply(body.as_str());
    let out: String = end_console_line(shown);
    proof {
        assert(paint_outcome(shown@, body@, line_paint_of(level)) && out@ == shown@ + "\n"@);
        assert(shown_line(out@, line_of(timestamp@, tag@, owner@, message@), level));
        assert(paint_outcome(tag@, tag_field(level), tag_paint_of(level)));
    }
    out
}

} // verus!
