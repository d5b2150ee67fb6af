//! Rooms, strokes and points, and how rows read from the database become them.
//!
//! Opacity and point coordinates are IEEE-754 double values; the library holds
//! each as its 64-bit pattern and never reads it.

use vstd::prelude::*;

verus! {

/// A point of a stroke. `x` and `y` are the bit patterns of the coordinates.
#[derive(Debug)]
pub struct Point {
    pub id: i64,
    pub stroke_id: i64,
    pub x: u64,
    pub y: u64,
}

/// A stroke drawn in a room. `alpha` is the bit pattern of the opacity.
#[derive(Debug)]
pub struct Stroke {
    pub id: i64,
    pub room_id: i64,
    pub width: i64,
    pub red: i64,
    pub green: i64,
    pub blue: i64,
    pub alpha: u64,
    pub created_at: String,
    pub points: Vec<Point>,
}

/// A room with its canvas size and the counts shown in the room list.
#[derive(Debug)]
pub struct Room {
    pub id: i64,
    pub name: String,
    pub canvas_width: i64,
    pub canvas_height: i64,
    pub created_at: String,
    pub strokes: Vec<Stroke>,
    pub stroke_count: i64,
    pub watcher_count: i64,
}

/// A date and time of day as the database hands it back.
#[derive(Clone, Copy, Debug, PartialEq, Eq, Structural)]
pub struct Timestamp {
    pub year: i32,
    pub month: u32,
    pub day: u32,
    pub hour: u32,
    pub minute: u32,
    pub second: u32,
    pub nanosecond: u32,
}

/// The columns of one row of the `strokes` table.
#[derive(Clone, Copy, Debug)]
pub struct StrokeRow {
    pub id: i64,
    pub room_id: i64,
    pub width: i64,
    pub red: i64,
    pub green: i64,
    pub blue: i64,
    pub alpha: u64,
    pub created_at: Timestamp,
}

/// The columns of one row of the `rooms` table.
#[derive(Debug)]
pub struct RoomRow {
    pub id: i64,
    pub name: String,
    pub canvas_width: i64,
    pub canvas_height: i64,
    pub created_at: Timestamp,
}

/// What chrono's `NaiveDateTime::format` writes for the date and time given by
/// the fields, with the strftime-style `pattern`; `None` where the fields name
/// no valid date and time or where the pattern cannot be formatted.
pub uninterp spec fn formatted_datetime(
    pattern: Seq<char>,
    year: int,
    month: int,
    day: int,
    hour: int,
    minute: int,
    second: int,
    nanosecond: int,
) -> Option<Seq<char>>;

/// The strftime pattern with which stroke and room times are written.
pub open spec fn created_at_pattern() -> Seq<char> {
    "%Y-%m-%dT%H:%M:%S%.f%"@
}

/// What `formatted_datetime` gives for a timestamp and a pattern.
pub open spec fn timestamp_text(pattern: Seq<char>, t: Timestamp) -> Option<Seq<char>> {
    formatted_datetime(
        pattern,
        t.year as int,
        t.month as int,
        t.day as int,
        t.hour as int,
        t.minute as int,
        t.second as int,
        t.nanosecond as int,
    )
}

/// Builds a `chrono::NaiveDateTime` from the fields (`NaiveDate::from_ymd_opt`,
/// then `and_hms_nano_opt`) and writes it with `DelayedFormat::write_to` after
/// `NaiveDateTime::format(pattern)`. It claims that the result is the one
/// `formatted_datetime` names for these arguments: `None` when chrono rejects
/// the fields or reports a formatting error, the written text otherwise. It
/// also claims that the service's pattern is never written: the pattern ends
/// in a lone `%`, which chrono's strftime parser turns into an error item, and
/// `write_to` answers that item with `fmt::Error`.
#[verifier::external_body]
fn format_datetime(pattern: &str, t: &Timestamp) -> (r: Option<String>)
    ensures
        pattern@ == created_at_pattern() ==> r is None,
        match r {
            Some(s) => formatted_datetime(
                pattern@,
                t.year as int,
                t.month as int,
                t.day as int,
                t.hour as int,
                t.minute as int,
                t.second as int,
                t.nanosecond as int,
            ) == Some(s@),
            None => formatted_datetime(
                pattern@,
                t.year as int,
                t.month as int,
                t.day as int,
                t.hour as int,
                t.minute as int,
                t.second as int,
                t.nanosecond as int,
            ) is None,
        },
{
    let date = match chrono::NaiveDate::from_ymd_opt(t.year, t.month, t.day) {
        Some(d) => d,
        None => return None,
    };
    let datetime = match date.and_hms_nano_opt(t.hour, t.minute, t.second, t.nanosecond) {
        Some(d) => d,
        None => return None,
    };
    let mut text = String::new();
    match datetime.format(pattern).write_to(&mut text) {
        Ok(()) => Some(text),
        Err(_) => None,
    }
}

/// The text stored as `created_at` of a stroke or a room read at time `t`,
/// or `None` where chrono cannot write it with the service's pattern, which
/// ends in a lone `%` and so is never written.
pub fn format_created_at(t: &Timestamp) -> (r: Option<String>)
    ensures
        r is None,
        match r {
            Some(s) => timestamp_text(created_at_pattern(), *t) == Some(s@),
            None => timestamp_text(created_at_pattern(), *t) is None,
        },
{
    format_datetime("%Y-%m-%dT%H:%M:%S%.f%", t)
}

/// The stroke that a row of the `strokes` table stands for, given the text of
/// its creation time: every column is carried over and the stroke has no points.
pub fn stroke_from_parts(row: StrokeRow, created_at: String) -> (s: Stroke)
    ensures
        s.id == row.id,
        s.room_id == row.room_id,
        s.width == row.width,
        s.red == row.red,
        s.green == row.green,
        s.blue == row.blue,
        s.alpha == row.alpha,
        s.created_at == created_at,
        s.points@.len() == 0,
{
    Stroke {
        id: row.id,
        room_id: row.room_id,
        width: row.width,
        red: row.red,
        green: row.green,
        blue: row.blue,
        alpha: row.alpha,
        created_at,
        points: Vec::new(),
    }
}

/// The stroke that a row of the `strokes` table stands for; `None` exactly when
/// its creation time cannot be written with the service's pattern, which is
/// for every row.
pub fn stroke_from_row(row: StrokeRow) -> (r: Option<Stroke>)
    ensures
        r is None,
        r is Some <==> timestamp_text(created_at_pattern(), row.created_at) is Some,
        r matches Some(s) ==> {
            &&& Some(s.created_at@) == timestamp_text(created_at_pattern(), row.created_at)
            &&& s.id == row.id
            &&& s.room_id == row.room_id
            &&& s.width == row.width
            &&& s.red == row.red
            &&& s.green == row.green
            &&& s.blue == row.blue
            &&& s.alpha == row.alpha
            &&& s.points@.len() == 0
        },
{
    match format_created_at(&row.created_at) {
        Some(text) => Some(stroke_from_parts(row, text)),
        None => None,
    }
}

/// The room that a row of the `rooms` table stands for, given the text of its
/// creation time: no strokes loaded, and both counts zero.
pub fn room_from_parts(row: RoomRow, created_at: String) -> (room: Room)
    ensures
        room.id == row.id,
        room.name == row.name,
        room.canvas_width == row.canvas_width,
        room.canvas_height == row.canvas_height,
        room.created_at == created_at,
        room.strokes@.len() == 0,
        room.stroke_count == 0,
        room.watcher_count == 0,
{
    Room {
        id: row.id,
        name: row.name,
        canvas_width: row.canvas_width,
        canvas_height: row.canvas_height,
        created_at,
        strokes: Vec::new(),
        stroke_count: 0,
        watcher_count: 0,
    }
}

/// The room that a row of the `rooms` table stands for; `None` exactly when its
/// creation time cannot be written with the service's pattern, which is for
/// every row.
pub fn room_from_row(row: RoomRow) -> (r: Option<Room>)
    ensures
        r is None,
        r is Some <==> timestamp_text(created_at_pattern(), row.created_at) is Some,
        r matches Some(room) ==> {
            &&& Some(room.created_at@) == timestamp_text(created_at_pattern(), row.created_at)
            &&& room.id == row.id
            &&& room.name == row.name
            &&& room.canvas_width == row.canvas_width
            &&& room.canvas_height == row.canvas_height
            &&& room.strokes@.len() == 0
            &&& room.stroke_count == 0
            &&& room.watcher_count == 0
        },
{
    let created_at = row.created_at;
    match format_created_at(&created_at) {
        Some(text) => Some(room_from_parts(row, text)),
        None => None,
    }
}

} // verus!
