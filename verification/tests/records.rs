use isuketch::model::{
    format_created_at, room_from_parts, room_from_row, stroke_from_parts, stroke_from_row, RoomRow,
    StrokeRow, Timestamp,
};

fn noon() -> Timestamp {
    Timestamp { year: 2016, month: 10, day: 22, hour: 12, minute: 34, second: 56, nanosecond: 789_000_000 }
}

fn stroke_row() -> StrokeRow {
    StrokeRow {
        id: 11,
        room_id: 3,
        width: 8,
        red: 128,
        green: 64,
        blue: 32,
        alpha: 0.5f64.to_bits(),
        created_at: noon(),
    }
}

#[test]
fn created_at_pattern_cannot_be_written() {
    // The pattern ends in a lone `%`, which chrono reports as a formatting error.
    assert_eq!(format_created_at(&noon()), None);
    let midnight = Timestamp { year: 1970, month: 1, day: 1, hour: 0, minute: 0, second: 0, nanosecond: 0 };
    assert_eq!(format_created_at(&midnight), None);
}

#[test]
fn invalid_timestamp_is_not_written() {
    let bad = Timestamp { year: 2016, month: 2, day: 30, hour: 0, minute: 0, second: 0, nanosecond: 0 };
    assert_eq!(format_created_at(&bad), None);
}

#[test]
fn rows_with_unwritable_times_give_nothing() {
    assert!(stroke_from_row(stroke_row()).is_none());
    let row = RoomRow { id: 3, name: "sketch".to_string(), canvas_width: 1028, canvas_height: 768, created_at: noon() };
    assert!(room_from_row(row).is_none());
}

#[test]
fn stroke_from_columns() {
    let s = stroke_from_parts(stroke_row(), "2016-10-22T12:34:56.789".to_string());
    assert_eq!((s.id, s.room_id, s.width, s.red, s.green, s.blue), (11, 3, 8, 128, 64, 32));
    assert_eq!(f64::from_bits(s.alpha), 0.5);
    assert_eq!(s.created_at, "2016-10-22T12:34:56.789");
    assert!(s.points.is_empty());
}

#[test]
fn room_from_columns() {
    let row = RoomRow { id: 3, name: "sketch".to_string(), canvas_width: 1028, canvas_height: 768, created_at: noon() };
    let r = room_from_parts(row, "2016-10-22T12:34:56".to_string());
    assert_eq!(r.id, 3);
    assert_eq!(r.name, "sketch");
    assert_eq!((r.canvas_width, r.canvas_height), (1028, 768));
    assert_eq!(r.created_at, "2016-10-22T12:34:56");
    assert!(r.strokes.is_empty());
    assert_eq!((r.stroke_count, r.watcher_count), (0, 0));
}
