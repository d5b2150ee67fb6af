use isuketch::handlers::{
    get_api_rooms, get_api_rooms_id, post_api_csrf_token, post_api_rooms, Action, RoomList,
    RoomsEvent, RoomsPhase, TokenEvent, TokenPhase,
};
use isuketch::model::{room_from_parts, stroke_from_parts, Room, RoomRow, Stroke, StrokeRow, Timestamp};
use isuketch::query::ParamValue;
use isuketch::reply::Outcome;

fn ts() -> Timestamp {
    Timestamp { year: 2016, month: 10, day: 22, hour: 1, minute: 2, second: 3, nanosecond: 0 }
}

fn room(id: i64, name: &str) -> Room {
    room_from_parts(
        RoomRow { id, name: name.to_string(), canvas_width: 1028, canvas_height: 768, created_at: ts() },
        "2016-10-22T01:02:03".to_string(),
    )
}

fn strokes(n: usize, room_id: i64) -> Vec<Stroke> {
    (0..n)
        .map(|i| {
            stroke_from_parts(
                StrokeRow {
                    id: i as i64 + 1,
                    room_id,
                    width: 5,
                    red: 1,
                    green: 2,
                    blue: 3,
                    alpha: 1.0f64.to_bits(),
                    created_at: ts(),
                },
                "t".to_string(),
            )
        })
        .collect()
}

fn step(state: RoomList, event: RoomsEvent) -> (RoomList, Action) {
    get_api_rooms(state, event)
}

#[test]
fn csrf_token_success_run() {
    let (p, a) = post_api_csrf_token(TokenPhase::Start, TokenEvent::Begin);
    assert_eq!(p, TokenPhase::Inserting);
    match a {
        Action::Execute(q) => assert!(q.text.starts_with("INSERT INTO `tokens`")),
        other => panic!("unexpected {:?}", other),
    }
    let (p, a) = post_api_csrf_token(p, TokenEvent::Inserted(Ok(42)));
    assert_eq!(p, TokenPhase::Reading);
    match a {
        Action::FetchFirst(q) => {
            assert_eq!(q.text, "SELECT `id`, `csrf_token`, `created_at` FROM `tokens` WHERE id = :id");
            assert_eq!(q.params.len(), 1);
            assert_eq!(q.params[0].name, "id");
            assert_eq!(q.params[0].value, ParamValue::UInt(42));
        }
        other => panic!("unexpected {:?}", other),
    }
    let (p, a) = post_api_csrf_token(p, TokenEvent::Read(Ok(Some("abcdef".to_string()))));
    assert_eq!(p, TokenPhase::Done);
    match a {
        Action::RespondToken(t) => assert_eq!(t, "abcdef"),
        other => panic!("unexpected {:?}", other),
    }
}

#[test]
fn csrf_token_failures() {
    let (p, a) = post_api_csrf_token(TokenPhase::Inserting, TokenEvent::Inserted(Err("lost".to_string())));
    assert_eq!(p, TokenPhase::Done);
    assert!(matches!(a, Action::Fail(ref m) if m == "lost"));
    let (p, a) = post_api_csrf_token(TokenPhase::Reading, TokenEvent::Read(Ok(None)));
    assert_eq!(p, TokenPhase::Done);
    assert!(matches!(a, Action::Fail(ref m) if m == "row is none"));
    let (p, a) = post_api_csrf_token(TokenPhase::Reading, TokenEvent::Read(Err("gone".to_string())));
    assert_eq!(p, TokenPhase::Done);
    assert!(matches!(a, Action::Fail(ref m) if m == "gone"));
}

#[test]
fn room_list_success_run() {
    let s = RoomList::new();
    let (s, a) = step(s, RoomsEvent::Begin);
    match a {
        Action::Execute(q) => assert_eq!(
            q.text,
            "SELECT `room_id`, MAX(`id`) AS `max_id` FROM `strokes` GROUP BY `room_id` ORDER BY `max_id` DESC LIMIT 100"
        ),
        other => panic!("unexpected {:?}", other),
    }
    let (s, a) = step(s, RoomsEvent::Listed(Ok(())));
    assert!(matches!(a, Action::NextRow));
    // first row: room 9 with three strokes
    let (s, a) = step(s, RoomsEvent::Row(Some(9)));
    assert!(matches!(a, Action::LoadRoom(9)));
    let (s, a) = step(s, RoomsEvent::Loaded(Ok(Some(room(9, "nine")))));
    assert!(matches!(a, Action::LoadStrokes(9, 0)));
    let (s, a) = step(s, RoomsEvent::Counted(Ok(strokes(3, 9))));
    assert!(matches!(a, Action::NextRow));
    // second row: room 4 with no strokes
    let (s, a) = step(s, RoomsEvent::Row(Some(4)));
    assert!(matches!(a, Action::LoadRoom(4)));
    let (s, a) = step(s, RoomsEvent::Loaded(Ok(Some(room(4, "four")))));
    assert!(matches!(a, Action::LoadStrokes(4, 0)));
    let (s, a) = step(s, RoomsEvent::Counted(Ok(Vec::new())));
    assert!(matches!(a, Action::NextRow));
    let (s, a) = step(s, RoomsEvent::Row(None));
    let rooms = match a {
        Action::EncodeRooms(rooms) => rooms,
        other => panic!("unexpected {:?}", other),
    };
    assert_eq!(rooms.len(), 2);
    assert_eq!((rooms[0].id, rooms[0].name.as_str(), rooms[0].stroke_count), (9, "nine", 3));
    assert_eq!((rooms[1].id, rooms[1].name.as_str(), rooms[1].stroke_count), (4, "four", 0));
    assert_eq!(rooms[0].watcher_count, 0);
    assert!(rooms[0].strokes.is_empty());
    let (s, a) = step(s, RoomsEvent::Encoded(Ok("{\"RoomResp\":[]}".to_string())));
    assert!(matches!(s.phase, RoomsPhase::Done));
    assert!(matches!(a, Action::RespondJson(ref b) if b == "{\"RoomResp\":[]}"));
}

#[test]
fn room_list_empty_index() {
    let (s, _) = step(RoomList::new(), RoomsEvent::Begin);
    let (s, _) = step(s, RoomsEvent::Listed(Ok(())));
    let (s, a) = step(s, RoomsEvent::Row(None));
    assert!(matches!(a, Action::EncodeRooms(ref r) if r.is_empty()));
    assert!(matches!(s.phase, RoomsPhase::Encoding));
}

#[test]
fn room_list_failures_end_the_request() {
    let (s, _) = step(RoomList::new(), RoomsEvent::Begin);
    let (done, a) = step(s, RoomsEvent::Listed(Err("index failed".to_string())));
    assert!(matches!(done.phase, RoomsPhase::Done));
    assert!(matches!(a, Action::Fail(ref m) if m == "index failed"));

    let (s, _) = step(RoomList::new(), RoomsEvent::Begin);
    let (s, _) = step(s, RoomsEvent::Listed(Ok(())));
    let (s, _) = step(s, RoomsEvent::Row(Some(1)));
    let (done, a) = step(s, RoomsEvent::Loaded(Ok(None)));
    assert!(matches!(done.phase, RoomsPhase::Done));
    assert!(matches!(a, Action::Fail(ref m) if m == "row is none"));

    let (s, _) = step(RoomList::new(), RoomsEvent::Begin);
    let (s, _) = step(s, RoomsEvent::Listed(Ok(())));
    let (s, _) = step(s, RoomsEvent::Row(Some(1)));
    let (s, _) = step(s, RoomsEvent::Loaded(Ok(Some(room(1, "one")))));
    let (done, a) = step(s, RoomsEvent::Counted(Err("strokes failed".to_string())));
    assert!(matches!(done.phase, RoomsPhase::Done));
    assert_eq!(done.rooms.len(), 0);
    assert!(matches!(a, Action::Fail(ref m) if m == "strokes failed"));

    let s = RoomList { phase: RoomsPhase::Encoding, rooms: Vec::new() };
    let (done, a) = step(s, RoomsEvent::Encoded(Err("encode failed".to_string())));
    assert!(matches!(done.phase, RoomsPhase::Done));
    assert!(matches!(a, Action::Fail(ref m) if m == "encode failed"));
}

#[test]
fn plain_ok_handlers() {
    for o in [post_api_rooms(), get_api_rooms_id()] {
        match o {
            Outcome::Reply(r) => {
                assert_eq!(r.status, 200);
                assert_eq!(r.body, "ok");
                assert!(!r.json);
            }
            Outcome::Exit(_) => panic!("unexpected exit"),
        }
    }
}
