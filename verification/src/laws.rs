//! What holds of every event, whatever the configuration.

use vstd::prelude::*;
use vstd::std_specs::cmp::PartialOrdSpec;
use crate::level::Level;
use crate::line::{file_text, line_of, owner_field, shown_line, tag_field, OWNER_WIDTH, TAG_WIDTH, THREAD_WIDTH};
use crate::log::logged;
use crate::clock::is_timestamp;
use crate::logger::{sink_for, Emission, Logger, SinkView};
use crate::paint::{line_paint_of, paint_outcome, tag_paint_of};
use crate::text::{
    is_subsequence, lemma_subsequence_append, lemma_subsequence_concat, lemma_subsequence_padded,
    lemma_subsequence_prepend, lemma_subsequence_refl, lemma_subsequence_trans, padded_left,
    padded_right, spaces,
};

verus! {

/// What every line names, in this order: the level tag, the owner, the display
/// name of the emitting thread, and the message.
pub open spec fn line_parts(
    level: Level,
    owner: Seq<char>,
    thread_name: Seq<char>,
    message: Seq<char>,
) -> Seq<char> {
    level.tag_text() + owner + thread_name + message
}

/// `text` holds the four parts whole, in this order, with anything before,
/// between and after them.
pub open spec fn holds_in_order(
    text: Seq<char>,
    first: Seq<char>,
    second: Seq<char>,
    third: Seq<char>,
    fourth: Seq<char>,
) -> bool {
    exists|gaps: Seq<Seq<char>>| #[trigger]
        gaps.len() == 5 && text == gaps[0] + first + gaps[1] + second + gaps[2] + third + gaps[3]
            + fourth + gaps[4]
}

/// The spaces that fill a field of `width` characters beside `s`.
pub open spec fn fill(s: Seq<char>, width: nat) -> Seq<char> {
    if s.len() >= width {
        Seq::empty()
    } else {
        spaces((width - s.len()) as nat)
    }
}

/// The levels are totally ordered by their severity: of two levels exactly one
/// is less, or they are the same; and the order carries over a middle one.
pub proof fn law_levels_are_totally_ordered(a: Level, b: Level, c: Level)
    ensures
        a.rank() == b.rank() <==> a == b,
        a.partial_cmp_spec(&b) == Some(a.order(b)),
        a.order(b) is Less <==> b.order(a) is Greater,
        a.order(b) is Equal <==> a == b,
        a.order(b) is Less && b.order(c) is Less ==> a.order(c) is Less,
        Level::Debug.order(Level::Info) is Less,
        Level::Info.order(Level::Warn) is Less,
        Level::Warn.order(Level::Error) is Less,
{
}

/// An event below the threshold leaves nothing to write, on any sink.
pub proof fn law_silent_below_threshold(
    logger: Logger,
    r: Option<Emission>,
    timestamp: Seq<char>,
    level: Level,
    owner: Seq<char>,
    message: Seq<char>,
)
    requires
        logger.renders(r, timestamp, level, owner, message),
        level.rank() < logger.threshold().rank(),
    ensures
        r is None,
{
}

/// A line built around a tag that keeps the characters of the level tag names
/// the tag, the owner, the thread and the message, in this order.
pub proof fn lemma_line_names_its_parts(
    timestamp: Seq<char>,
    tag: Seq<char>,
    level: Level,
    owner: Seq<char>,
    thread_name: Seq<char>,
    message: Seq<char>,
)
    requires
        is_subsequence(tag_field(level), tag),
    ensures
        is_subsequence(
            line_parts(level, owner, thread_name, message),
            line_of(timestamp, tag, owner_field(owner, thread_name), message),
        ),
{
    let field = owner_field(owner, thread_name);
    let name = padded_right(thread_name, THREAD_WIDTH as nat);
    // the tag
    lemma_subsequence_padded(level.tag_text(), TAG_WIDTH as nat);
    lemma_subsequence_trans(level.tag_text(), tag_field(level), tag);
    lemma_subsequence_prepend(level.tag_text(), tag, timestamp + " "@);
    let upto_tag = timestamp + " "@ + tag;
    lemma_subsequence_append(level.tag_text(), upto_tag, " "@);
    // the owner and the thread
    lemma_subsequence_refl(owner);
    lemma_subsequence_append(owner, owner, " @"@);
    lemma_subsequence_padded(thread_name, THREAD_WIDTH as nat);
    lemma_subsequence_concat(owner, owner + " @"@, thread_name, name);
    lemma_subsequence_padded(field, OWNER_WIDTH as nat);
    lemma_subsequence_trans(owner + thread_name, field, padded_left(field, OWNER_WIDTH as nat));
    lemma_subsequence_concat(
        level.tag_text(),
        upto_tag + " "@,
        owner + thread_name,
        padded_left(field, OWNER_WIDTH as nat),
    );
    let upto_owner = upto_tag + " "@ + padded_left(field, OWNER_WIDTH as nat);
    lemma_subsequence_append(level.tag_text() + (owner + thread_name), upto_owner, " |: "@);
    // the message
    lemma_subsequence_refl(message);
    lemma_subsequence_concat(
        level.tag_text() + (owner + thread_name),
        upto_owner + " |: "@,
        message,
        message,
    );
    assert(level.tag_text() + (owner + thread_name) + message =~= line_parts(
        level,
        owner,
        thread_name,
        message,
    ));
}

/// An event at or above the threshold leaves exactly one line to write, and
/// the line names the level tag, the owner, the display name of the emitting
/// thread and the message, in this order. On the console escape sequences may
/// stand between their characters.
pub proof fn law_emitted_line_names_its_parts(
    logger: Logger,
    r: Option<Emission>,
    timestamp: Seq<char>,
    level: Level,
    owner: Seq<char>,
    thread_name: Seq<char>,
    message: Seq<char>,
)
    requires
        logger.renders(r, timestamp, level, owner_field(owner, thread_name), message),
        level.rank() >= logger.threshold().rank(),
    ensures
        r is Some,
        is_subsequence(line_parts(level, owner, thread_name, message), r->0.text@),
{
    let text = r->0.text@;
    let field = owner_field(owner, thread_name);
    let parts = line_parts(level, owner, thread_name, message);
    if logger.destination() is Some {
        lemma_subsequence_refl(tag_field(level));
        lemma_line_names_its_parts(timestamp, tag_field(level), level, owner, thread_name, message);
        lemma_subsequence_append(
            parts,
            line_of(timestamp, tag_field(level), field, message),
            "\n"@,
        );
    } else {
        let tag = choose|tag: Seq<char>| #[trigger]
            paint_outcome(tag, tag_field(level), tag_paint_of(level)) && shown_line(
                text,
                line_of(timestamp, tag, field, message),
                level,
            );
        let body = line_of(timestamp, tag, field, message);
        let shown = choose|shown: Seq<char>| #[trigger]
            paint_outcome(shown, body, line_paint_of(level)) && text == shown + "\n"@;
        lemma_line_names_its_parts(timestamp, tag, level, owner, thread_name, message);
        lemma_subsequence_trans(parts, body, shown);
        lemma_subsequence_append(parts, shown, "\n"@);
    }
}

/// A line for a file holds the level tag, the owner, the display name of the
/// emitting thread and the message whole, in this order, and ends with a line
/// feed.
pub proof fn law_file_line_holds_its_parts(
    timestamp: Seq<char>,
    level: Level,
    owner: Seq<char>,
    thread_name: Seq<char>,
    message: Seq<char>,
)
    ensures
        holds_in_order(
            file_text(timestamp, level, owner_field(owner, thread_name), message),
            level.tag_text(),
            owner,
            thread_name,
            message,
        ),
        file_text(timestamp, level, owner_field(owner, thread_name), message).last() == '\n',
{
    let field = owner_field(owner, thread_name);
    let text = file_text(timestamp, level, field, message);
    let gaps = seq![
        timestamp + " "@,
        fill(level.tag_text(), TAG_WIDTH as nat) + " "@ + fill(field, OWNER_WIDTH as nat),
        " @"@,
        fill(thread_name, THREAD_WIDTH as nat) + " |: "@,
        "\n"@,
    ];
    assert(padded_right(level.tag_text(), TAG_WIDTH as nat) =~= level.tag_text() + fill(
        level.tag_text(),
        TAG_WIDTH as nat,
    ));
    assert(padded_right(thread_name, THREAD_WIDTH as nat) =~= thread_name + fill(
        thread_name,
        THREAD_WIDTH as nat,
    ));
    assert(padded_left(field, OWNER_WIDTH as nat) =~= fill(field, OWNER_WIDTH as nat) + field);
    assert(text =~= gaps[0] + level.tag_text() + gaps[1] + owner + gaps[2] + thread_name + gaps[3]
        + message + gaps[4]);
    assert(gaps.len() == 5);
    reveal_strlit("\n");
}

/// A line goes to the sink of the destination that is set when the event is
/// handled, and to no other: to the file where one is set, else to the console.
pub proof fn law_sink_follows_destination(
    logger: Logger,
    r: Option<Emission>,
    timestamp: Seq<char>,
    level: Level,
    owner: Seq<char>,
    message: Seq<char>,
)
    requires
        logger.renders(r, timestamp, level, owner, message),
        r is Some,
    ensures
        logger.destination() matches Some(path) ==> r->0.sink@ == SinkView::File(path),
        logger.destination() is None ==> r->0.sink@ == (if level == Level::Error {
            SinkView::Stderr
        } else {
            SinkView::Stdout
        }),
{
}

/// Logging below the threshold leaves nothing to write, whatever the thread,
/// the owner and the message.
pub proof fn law_log_is_silent_below_threshold(
    logger: Logger,
    r: Option<Emission>,
    thread_name: Seq<char>,
    level: Level,
    owner: Seq<char>,
    message: Seq<char>,
)
    requires
        logged(&logger, r, thread_name, level, owner, message),
        level.rank() < logger.threshold().rank(),
    ensures
        r is None,
{
}

/// Logging at or above the threshold leaves exactly one line to write, for the
/// sink of the destination that is set at that moment, and the line names the
/// level tag, the owner, the display name of the emitting thread and the
/// message, in this order. Where the destination is a file the line holds them
/// whole and ends with a line feed.
pub proof fn law_log_writes_one_line(
    logger: Logger,
    r: Option<Emission>,
    thread_name: Seq<char>,
    level: Level,
    owner: Seq<char>,
    message: Seq<char>,
)
    requires
        logged(&logger, r, thread_name, level, owner, message),
        level.rank() >= logger.threshold().rank(),
    ensures
        r is Some,
        r->0.sink@ == sink_for(logger.destination(), level),
        is_subsequence(line_parts(level, owner, thread_name, message), r->0.text@),
        logger.destination() is Some ==> holds_in_order(
            r->0.text@,
            level.tag_text(),
            owner,
            thread_name,
            message,
        ) && r->0.text@.last() == '\n',
{
    let timestamp = choose|timestamp: Seq<char>|
        is_timestamp(timestamp) && #[trigger] logger.renders(
            r,
            timestamp,
            level,
            owner_field(owner, thread_name),
            message,
        );
    law_emitted_line_names_its_parts(logger, r, timestamp, level, owner, thread_name, message);
    if logger.destination() is Some {
        law_file_line_holds_its_parts(timestamp, level, owner, thread_name, message);
    }
}

} // verus!
