//! The request handlers that talk to the database, as state machines. The
//! server performs each action that a step returns and hands the result back
//! as the next event, until the step that answers the request.

use vstd::prelude::*;
use crate::model::{Room, Stroke};
use crate::query::{
    Query, QueryView, ParamValue, room_index_query, room_index_sql, token_insert_query,
    token_insert_sql, token_select_query, token_select_sql,
};
use crate::reply::{Outcome, ok_reply};

verus! {

/// What the server is asked to do next.
#[derive(Debug)]
pub enum Action {
    /// Run the statement; the event carries the insert id or the error text.
    Execute(Query),
    /// Run the statement and read its first row.
    FetchFirst(Query),
    /// Read the next row of the statement run last.
    NextRow,
    /// Load the room with this id.
    LoadRoom(i64),
    /// Load the strokes of the room with this id whose id is above the second value.
    LoadStrokes(i64, i64),
    /// Write the rooms as the JSON body `{"RoomResp":[...]}`.
    EncodeRooms(Vec<Room>),
    /// Answer with this token (see `reply::token_reply`).
    RespondToken(String),
    /// Answer with status 200 and this JSON body (see `reply::json_reply`).
    RespondJson(String),
    /// Answer with an internal server error that logs this text (see `reply::output_error`).
    Fail(String),
}

/// An action, with its statements, rooms and texts taken by their views.
#[verifier::ext_equal]
pub enum Command {
    Execute(QueryView),
    FetchFirst(QueryView),
    NextRow,
    LoadRoom(i64),
    LoadStrokes(i64, i64),
    EncodeRooms(Seq<Room>),
    RespondToken(Seq<char>),
    RespondJson(Seq<char>),
    Fail(Seq<char>),
}

impl View for Action {
    type V = Command;

    open spec fn view(&self) -> Command {
        match self {
            Action::Execute(q) => Command::Execute(q@),
            Action::FetchFirst(q) => Command::FetchFirst(q@),
            Action::NextRow => Command::NextRow,
            Action::LoadRoom(id) => Command::LoadRoom(*id),
            Action::LoadStrokes(id, above) => Command::LoadStrokes(*id, *above),
            Action::EncodeRooms(rooms) => Command::EncodeRooms(rooms@),
            Action::RespondToken(t) => Command::RespondToken(t@),
            Action::RespondJson(b) => Command::RespondJson(b@),
            Action::Fail(m) => Command::Fail(m@),
        }
    }
}

/// The message of the failure where an expected row is missing.
pub open spec fn missing_row_message() -> Seq<char> {
    "row is none"@
}

// ----- Handing out a CSRF token -----

/// Where the CSRF token handler stands.
#[derive(Clone, Copy, Debug, PartialEq, Eq, Structural)]
pub enum TokenPhase {
    Start,
    Inserting,
    Reading,
    Done,
}

/// What the server hands back to the CSRF token handler.
#[derive(Debug)]
pub enum TokenEvent {
    /// The request arrived.
    Begin,
    /// The insert ran: its insert id, or the error text.
    Inserted(Result<u64, String>),
    /// The token was read: the `csrf_token` column of the first row (`None`
    /// where there was no row), or the error text.
    Read(Result<Option<String>, String>),
}

/// The events the CSRF token handler takes in each phase.
pub open spec fn token_accepts(p: TokenPhase, e: TokenEvent) -> bool {
    match p {
        TokenPhase::Start => e is Begin,
        TokenPhase::Inserting => e is Inserted,
        TokenPhase::Reading => e is Read,
        TokenPhase::Done => false,
    }
}

/// One step of the CSRF token handler: it stores a new token, reads back the
/// row with the insert id, and answers with its token; every failure is
/// answered with an internal server error that logs it.
pub open spec fn token_next(p: TokenPhase, e: TokenEvent) -> (TokenPhase, Command) {
    match e {
        TokenEvent::Begin => (
            TokenPhase::Inserting,
            Command::Execute(QueryView { text: token_insert_sql(), params: seq![] }),
        ),
        TokenEvent::Inserted(Ok(id)) => (
            TokenPhase::Reading,
            Command::FetchFirst(
                QueryView { text: token_select_sql(), params: seq![("id"@, ParamValue::UInt(id))] },
            ),
        ),
        TokenEvent::Inserted(Err(m)) => (TokenPhase::Done, Command::Fail(m@)),
        TokenEvent::Read(Ok(Some(t))) => (TokenPhase::Done, Command::RespondToken(t@)),
        TokenEvent::Read(Ok(None)) => (TokenPhase::Done, Command::Fail(missing_row_message())),
        TokenEvent::Read(Err(m)) => (TokenPhase::Done, Command::Fail(m@)),
    }
}

/// One step of the handler that hands out a new CSRF token (`POST /api/csrf_token`).
pub fn post_api_csrf_token(phase: TokenPhase, event: TokenEvent) -> (r: (TokenPhase, Action))
    requires
        token_accepts(phase, event),
    ensures
        (r.0, r.1@) == token_next(phase, event),
{
    match event {
        TokenEvent::Begin => {
            let q = token_insert_query();
            assert(q@ =~= QueryView { text: token_insert_sql(), params: seq![] });
            (TokenPhase::Inserting, Action::Execute(q))
        },
        TokenEvent::Inserted(Ok(id)) => (TokenPhase::Reading, Action::FetchFirst(token_select_query(id))),
        TokenEvent::Inserted(Err(m)) => (TokenPhase::Done, Action::Fail(m)),
        TokenEvent::Read(Ok(Some(t))) => (TokenPhase::Done, Action::RespondToken(t)),
        TokenEvent::Read(Ok(None)) => (TokenPhase::Done, Action::Fail(String::from_str("row is none"))),
        TokenEvent::Read(Err(m)) => (TokenPhase::Done, Action::Fail(m)),
    }
}

// ----- Listing the rooms -----

/// Where the room list handler stands; while the strokes of a room load, the
/// room waits in the phase.
#[derive(Debug)]
pub enum RoomsPhase {
    Start,
    Listing,
    Reading,
    LoadingRoom,
    LoadingStrokes(Room),
    Encoding,
    Done,
}

/// The room list handler: its phase and the rooms it has gathered.
#[derive(Debug)]
pub struct RoomList {
    pub phase: RoomsPhase,
    pub rooms: Vec<Room>,
}

/// The room list handler, with the gathered rooms as a sequence.
#[verifier::ext_equal]
pub struct RoomListView {
    pub phase: RoomsPhase,
    pub rooms: Seq<Room>,
}

impl View for RoomList {
    type V = RoomListView;

    open spec fn view(&self) -> RoomListView {
        RoomListView { phase: self.phase, rooms: self.rooms@ }
    }
}

/// What the server hands back to the room list handler.
#[derive(Debug)]
pub enum RoomsEvent {
    /// The request arrived.
    Begin,
    /// The room index ran, or the error text.
    Listed(Result<(), String>),
    /// The `room_id` column of the next row of the index, or `None` after the last row.
    Row(Option<i64>),
    /// The room was loaded (`None` where it does not exist), or the error text.
    Loaded(Result<Option<Room>, String>),
    /// The strokes of the room were loaded, or the error text.
    Counted(Result<Vec<Stroke>, String>),
    /// The rooms were written as JSON, or the error text.
    Encoded(Result<String, String>),
}

/// The room list handler before the request.
pub open spec fn rooms_start() -> RoomListView {
    RoomListView { phase: RoomsPhase::Start, rooms: seq![] }
}

/// The events the room list handler takes in each phase.
pub open spec fn rooms_accepts(p: RoomsPhase, e: RoomsEvent) -> bool {
    match p {
        RoomsPhase::Start => e is Begin,
        RoomsPhase::Listing => e is Listed,
        RoomsPhase::Reading => e is Row,
        RoomsPhase::LoadingRoom => e is Loaded,
        RoomsPhase::LoadingStrokes(_) => e is Counted,
        RoomsPhase::Encoding => e is Encoded,
        RoomsPhase::Done => false,
    }
}

/// `room` with its stroke count set to the number of `strokes`.
pub open spec fn counted_room(room: Room, strokes: Seq<Stroke>) -> Room {
    Room { stroke_count: strokes.len() as i64, ..room }
}

/// One step of the room list handler: it runs the room index, and for each of
/// its rows loads the room and the number of its strokes; after the last row
/// it writes the gathered rooms as JSON and answers with them. A failure of any
/// call, or a room that does not exist, is answered with an internal server
/// error that logs it.
pub open spec fn rooms_next(m: RoomListView, e: RoomsEvent) -> (RoomListView, Command) {
    let done = RoomListView { phase: RoomsPhase::Done, rooms: m.rooms };
    match e {
        RoomsEvent::Begin => (
            RoomListView { phase: RoomsPhase::Listing, rooms: m.rooms },
            Command::Execute(QueryView { text: room_index_sql(), params: seq![] }),
        ),
        RoomsEvent::Listed(Ok(())) => (
            RoomListView { phase: RoomsPhase::Reading, rooms: m.rooms },
            Command::NextRow,
        ),
        RoomsEvent::Listed(Err(msg)) => (done, Command::Fail(msg@)),
        RoomsEvent::Row(Some(id)) => (
            RoomListView { phase: RoomsPhase::LoadingRoom, rooms: m.rooms },
            Command::LoadRoom(id),
        ),
        RoomsEvent::Row(None) => (
            RoomListView { phase: RoomsPhase::Encoding, rooms: seq![] },
            Command::EncodeRooms(m.rooms),
        ),
        RoomsEvent::Loaded(Ok(Some(room))) => (
            RoomListView { phase: RoomsPhase::LoadingStrokes(room), rooms: m.rooms },
            Command::LoadStrokes(room.id, 0),
        ),
        RoomsEvent::Loaded(Ok(None)) => (done, Command::Fail(missing_row_message())),
        RoomsEvent::Loaded(Err(msg)) => (done, Command::Fail(msg@)),
        RoomsEvent::Counted(Ok(strokes)) => match m.phase {
            RoomsPhase::LoadingStrokes(room) => (
                RoomListView {
                    phase: RoomsPhase::Reading,
                    rooms: m.rooms.push(counted_room(room, strokes@)),
                },
                Command::NextRow,
            ),
            _ => (done, Command::NextRow),
        },
        RoomsEvent::Counted(Err(msg)) => (done, Command::Fail(msg@)),
        RoomsEvent::Encoded(Ok(body)) => (done, Command::RespondJson(body@)),
        RoomsEvent::Encoded(Err(msg)) => (done, Command::Fail(msg@)),
    }
}

impl RoomList {
    /// The room list handler before the request.
    pub fn new() -> (r: RoomList)
        ensures
            r@ == rooms_start(),
    {
        RoomList { phase: RoomsPhase::Start, rooms: Vec::new() }
    }
}

/// One step of the handler that lists the rooms drawn in most recently
/// (`GET /api/rooms`).
pub fn get_api_rooms(state: RoomList, event: RoomsEvent) -> (r: (RoomList, Action))
    requires
        rooms_accepts(state.phase, event),
    ensures
        (r.0@, r.1@) == rooms_next(state@, event),
        state.phase matches RoomsPhase::LoadingStrokes(room) ==> event matches RoomsEvent::Counted(
            Ok(strokes),
        ) ==> {
            let added = r.0.rooms@.last();
            &&& r.0.rooms@.len() == state.rooms@.len() + 1
            &&& added.stroke_count == strokes@.len() as i64
            &&& added.id == room.id
            &&& added.name == room.name
            &&& added.canvas_width == room.canvas_width
            &&& added.canvas_height == room.canvas_height
            &&& added.created_at == room.created_at
            &&& added.strokes == room.strokes
            &&& added.watcher_count == room.watcher_count
        },
{
    let RoomList { phase, rooms } = state;
    match event {
        RoomsEvent::Begin => {
            let q = room_index_query();
            assert(q@ =~= QueryView { text: room_index_sql(), params: seq![] });
            (RoomList { phase: RoomsPhase::Listing, rooms }, Action::Execute(q))
        },
        RoomsEvent::Listed(Ok(())) => (RoomList { phase: RoomsPhase::Reading, rooms }, Action::NextRow),
        RoomsEvent::Listed(Err(msg)) => (RoomList { phase: RoomsPhase::Done, rooms }, Action::Fail(msg)),
        RoomsEvent::Row(Some(id)) => (RoomList { phase: RoomsPhase::LoadingRoom, rooms }, Action::LoadRoom(id)),
        RoomsEvent::Row(None) => (
            RoomList { phase: RoomsPhase::Encoding, rooms: Vec::new() },
            Action::EncodeRooms(rooms),
        ),
        RoomsEvent::Loaded(Ok(Some(room))) => {
            let id = room.id;
            (RoomList { phase: RoomsPhase::LoadingStrokes(room), rooms }, Action::LoadStrokes(id, 0))
        },
        RoomsEvent::Loaded(Ok(None)) => (
            RoomList { phase: RoomsPhase::Done, rooms },
            Action::Fail(String::from_str("row is none")),
        ),
        RoomsEvent::Loaded(Err(msg)) => (RoomList { phase: RoomsPhase::Done, rooms }, Action::Fail(msg)),
        RoomsEvent::Counted(Ok(strokes)) => match phase {
            RoomsPhase::LoadingStrokes(room) => {
                let mut room = room;
                room.stroke_count = strokes.len() as i64;
                let mut rooms = rooms;
                rooms.push(room);
                (RoomList { phase: RoomsPhase::Reading, rooms }, Action::NextRow)
            },
            _ => (RoomList { phase: RoomsPhase::Done, rooms }, Action::NextRow),
        },
        RoomsEvent::Counted(Err(msg)) => (RoomList { phase: RoomsPhase::Done, rooms }, Action::Fail(msg)),
        RoomsEvent::Encoded(Ok(body)) => (RoomList { phase: RoomsPhase::Done, rooms }, Action::RespondJson(body)),
        RoomsEvent::Encoded(Err(msg)) => (RoomList { phase: RoomsPhase::Done, rooms }, Action::Fail(msg)),
    }
}

// ----- Handlers that answer at once -----

/// The handler of `POST /api/rooms`: answers `ok`.
pub fn post_api_rooms() -> (o: Outcome)
    ensures
        o matches Outcome::Reply(r) && r.kind == crate::reply::ReplyKind::Sent && r.status == 200
            && !r.json && r.body@ == "ok"@ && r.log is None,
{
    ok_reply()
}

/// The handler of `GET /api/rooms/:id`: answers `ok`.
pub fn get_api_rooms_id() -> (o: Outcome)
    ensures
        o matches Outcome::Reply(r) && r.kind == crate::reply::ReplyKind::Sent && r.status == 200
            && !r.json && r.body@ == "ok"@ && r.log is None,
{
    ok_reply()
}

} // verus!
