//! Whole runs of the handlers: what they ask of the server and how they answer.

use vstd::prelude::*;
use crate::model::{Room, Stroke};
use crate::query::{ParamValue, QueryView, room_index_sql, token_insert_sql, token_select_sql};
use crate::handlers::{
    Command, RoomListView, RoomsEvent, RoomsPhase, TokenEvent, TokenPhase, counted_room,
    missing_row_message, rooms_accepts, rooms_next, rooms_start, token_accepts, token_next,
};

verus! {

/// The state the room list handler reaches through `events` from `m`, and the
/// commands it gives on the way.
pub open spec fn rooms_run(m: RoomListView, events: Seq<RoomsEvent>) -> (RoomListView, Seq<Command>)
    decreases events.len(),
{
    if events.len() == 0 {
        (m, seq![])
    } else {
        let before = rooms_run(m, events.drop_last());
        let step = rooms_next(before.0, events.last());
        (step.0, before.1.push(step.1))
    }
}

/// The room list handler takes each of `events` in turn, starting from `m`.
pub open spec fn rooms_run_accepted(m: RoomListView, events: Seq<RoomsEvent>) -> bool
    decreases events.len(),
{
    events.len() == 0 || (rooms_run_accepted(m, events.drop_last()) && rooms_accepts(
        rooms_run(m, events.drop_last()).0.phase,
        events.last(),
    ))
}

/// A row of the room index, the room it names, and the strokes of that room.
pub type Listed = (i64, Room, Vec<Stroke>);

/// The events of one row of the room index when all goes well.
pub open spec fn listed_events(e: Listed) -> Seq<RoomsEvent> {
    seq![
        RoomsEvent::Row(Some(e.0)),
        RoomsEvent::Loaded(Ok(Some(e.1))),
        RoomsEvent::Counted(Ok(e.2)),
    ]
}

/// The commands the handler gives for one row of the room index when all goes well.
pub open spec fn listed_commands(e: Listed) -> Seq<Command> {
    seq![Command::LoadRoom(e.0), Command::LoadStrokes(e.1.id, 0), Command::NextRow]
}

/// The events of the rows `es` of the room index when all goes well.
pub open spec fn listing_events(es: Seq<Listed>) -> Seq<RoomsEvent>
    decreases es.len(),
{
    if es.len() == 0 {
        seq![]
    } else {
        listing_events(es.drop_last()) + listed_events(es.last())
    }
}

/// The commands the handler gives for the rows `es` when all goes well.
pub open spec fn listing_commands(es: Seq<Listed>) -> Seq<Command>
    decreases es.len(),
{
    if es.len() == 0 {
        seq![]
    } else {
        listing_commands(es.drop_last()) + listed_commands(es.last())
    }
}

/// The rooms of `es`, each with its stroke count set to the number of its strokes.
pub open spec fn counted_rooms(es: Seq<Listed>) -> Seq<Room> {
    es.map_values(|e: Listed| counted_room(e.1, e.2@))
}

/// A request for the room list in which every call succeeds: the index has
/// the rows `es`, and the rooms are written as `body`.
pub open spec fn rooms_success_script(es: Seq<Listed>, body: String) -> Seq<RoomsEvent> {
    seq![RoomsEvent::Begin, RoomsEvent::Listed(Ok(()))] + listing_events(es) + seq![
        RoomsEvent::Row(None),
        RoomsEvent::Encoded(Ok(body)),
    ]
}

/// The message of a failure that `e` reports, if it reports one.
pub open spec fn rooms_failure(e: RoomsEvent) -> Option<Seq<char>> {
    match e {
        RoomsEvent::Listed(Err(m)) => Some(m@),
        RoomsEvent::Loaded(Ok(None)) => Some(missing_row_message()),
        RoomsEvent::Loaded(Err(m)) => Some(m@),
        RoomsEvent::Counted(Err(m)) => Some(m@),
        RoomsEvent::Encoded(Err(m)) => Some(m@),
        _ => None,
    }
}

/// The message of a failure that `e` reports, if it reports one.
pub open spec fn token_failure(e: TokenEvent) -> Option<Seq<char>> {
    match e {
        TokenEvent::Inserted(Err(m)) => Some(m@),
        TokenEvent::Read(Ok(None)) => Some(missing_row_message()),
        TokenEvent::Read(Err(m)) => Some(m@),
        _ => None,
    }
}

proof fn lemma_rooms_run_concat(m: RoomListView, a: Seq<RoomsEvent>, b: Seq<RoomsEvent>)
    ensures
        rooms_run(m, a + b) == ({
            let mid = rooms_run(m, a);
            let end = rooms_run(mid.0, b);
            (end.0, mid.1 + end.1)
        }),
        rooms_run_accepted(m, a + b) == (rooms_run_accepted(m, a) && rooms_run_accepted(
            rooms_run(m, a).0,
            b,
        )),
    decreases b.len(),
{
    if b.len() == 0 {
        assert(a + b =~= a);
        assert(rooms_run(m, a).1 + seq![] =~= rooms_run(m, a).1);
    } else {
        lemma_rooms_run_concat(m, a, b.drop_last());
        assert((a + b).drop_last() =~= a + b.drop_last());
        assert((a + b).last() == b.last());
        let mid = rooms_run(m, a);
        let end = rooms_run(mid.0, b.drop_last());
        assert(mid.1 + end.1.push(rooms_next(end.0, b.last()).1) =~= (mid.1 + end.1).push(
            rooms_next(end.0, b.last()).1,
        ));
    }
}

proof fn lemma_rooms_listed(rooms: Seq<Room>, e: Listed)
    ensures
        rooms_run(RoomListView { phase: RoomsPhase::Reading, rooms }, listed_events(e)) == (
            RoomListView { phase: RoomsPhase::Reading, rooms: rooms.push(counted_room(e.1, e.2@)) },
            listed_commands(e),
        ),
        rooms_run_accepted(RoomListView { phase: RoomsPhase::Reading, rooms }, listed_events(e)),
{
    let m = RoomListView { phase: RoomsPhase::Reading, rooms };
    let evs = listed_events(e);
    let e1 = seq![RoomsEvent::Row(Some(e.0))];
    let e2 = seq![RoomsEvent::Row(Some(e.0)), RoomsEvent::Loaded(Ok(Some(e.1)))];
    assert(evs.drop_last() =~= e2);
    assert(e2.drop_last() =~= e1);
    assert(e1.drop_last() =~= seq![]);
    assert(rooms_run(m, seq![]) == (m, Seq::<Command>::empty()));
    assert(rooms_run_accepted(m, seq![]));
    let s1 = rooms_run(m, e1);
    assert(s1.0 == RoomListView { phase: RoomsPhase::LoadingRoom, rooms });
    assert(rooms_run_accepted(m, e1));
    let s2 = rooms_run(m, e2);
    assert(s2.0 == RoomListView { phase: RoomsPhase::LoadingStrokes(e.1), rooms });
    assert(rooms_run_accepted(m, e2));
    let s3 = rooms_run(m, evs);
    assert(s3.1 =~= listed_commands(e));
    assert(rooms_run_accepted(m, evs));
}

proof fn lemma_rooms_listing(rooms: Seq<Room>, es: Seq<Listed>)
    ensures
        rooms_run(RoomListView { phase: RoomsPhase::Reading, rooms }, listing_events(es)) == (
            RoomListView { phase: RoomsPhase::Reading, rooms: rooms + counted_rooms(es) },
            listing_commands(es),
        ),
        rooms_run_accepted(RoomListView { phase: RoomsPhase::Reading, rooms }, listing_events(es)),
    decreases es.len(),
{
    let start = RoomListView { phase: RoomsPhase::Reading, rooms };
    if es.len() == 0 {
        assert(rooms + counted_rooms(es) =~= rooms);
        assert(listing_events(es) =~= seq![]);
    } else {
        let init = es.drop_last();
        let e = es.last();
        lemma_rooms_listing(rooms, init);
        lemma_rooms_run_concat(start, listing_events(init), listed_events(e));
        lemma_rooms_listed(rooms + counted_rooms(init), e);
        assert((rooms + counted_rooms(init)).push(counted_room(e.1, e.2@)) =~= rooms + counted_rooms(es));
        assert(listing_events(es) =~= listing_events(init) + listed_events(e));
        assert(listing_commands(es) =~= listing_commands(init) + listed_commands(e));
    }
}

/// When every call succeeds, the room list handler runs the room index, then
/// for each of its rows in turn loads the room the row names and that room's
/// strokes, then hands the rooms over to be written as JSON, each with its
/// stroke count set to the number of its strokes and in the order of the
/// index, and answers with the written body.
pub proof fn law_rooms_listed_in_index_order(es: Seq<Listed>, body: String)
    ensures
        rooms_run_accepted(rooms_start(), rooms_success_script(es, body)),
        rooms_run(rooms_start(), rooms_success_script(es, body)) == (
            RoomListView { phase: RoomsPhase::Done, rooms: seq![] },
            seq![
                Command::Execute(QueryView { text: room_index_sql(), params: seq![] }),
                Command::NextRow,
            ] + listing_commands(es) + seq![
                Command::EncodeRooms(counted_rooms(es)),
                Command::RespondJson(body@),
            ],
        ),
{
    let head = seq![RoomsEvent::Begin, RoomsEvent::Listed(Ok(()))];
    let tail = seq![RoomsEvent::Row(None), RoomsEvent::Encoded(Ok(body))];
    let mid = listing_events(es);
    assert(rooms_success_script(es, body) =~= (head + mid) + tail);
    lemma_rooms_run_concat(rooms_start(), head + mid, tail);
    lemma_rooms_run_concat(rooms_start(), head, mid);
    reveal_with_fuel(rooms_run, 3);
    reveal_with_fuel(rooms_run_accepted, 3);
    assert(head.drop_last().drop_last() =~= seq![]);
    assert(head.drop_last() =~= seq![RoomsEvent::Begin]);
    assert(tail.drop_last().drop_last() =~= seq![]);
    assert(tail.drop_last() =~= seq![RoomsEvent::Row(None)]);
    let reading = RoomListView { phase: RoomsPhase::Reading, rooms: seq![] };
    assert(rooms_run(rooms_start(), head).0 == reading);
    lemma_rooms_listing(seq![], es);
    assert(seq![] + counted_rooms(es) =~= counted_rooms(es));
}

/// `r` is `room` with its stroke count set to `n`: every other field is the
/// loaded room's.
pub open spec fn keeps_room_fields(r: Room, room: Room, n: nat) -> bool {
    &&& r.stroke_count == n as i64
    &&& r.id == room.id
    &&& r.name == room.name
    &&& r.canvas_width == room.canvas_width
    &&& r.canvas_height == room.canvas_height
    &&& r.created_at == room.created_at
    &&& r.strokes == room.strokes
    &&& r.watcher_count == room.watcher_count
}

/// Once the strokes of the loaded room are in, the room is added after those
/// gathered before, with its stroke count the number of strokes loaded and
/// every other field as loaded, and the next row of the index is asked for.
pub proof fn law_counted_room_keeps_loaded_fields(rooms: Seq<Room>, room: Room, strokes: Vec<Stroke>)
    ensures
        ({
            let m = RoomListView { phase: RoomsPhase::LoadingStrokes(room), rooms };
            let next = rooms_next(m, RoomsEvent::Counted(Ok(strokes)));
            &&& next.0.phase == RoomsPhase::Reading
            &&& next.0.rooms.len() == rooms.len() + 1
            &&& next.0.rooms.take(rooms.len() as int) == rooms
            &&& keeps_room_fields(next.0.rooms.last(), room, strokes@.len())
            &&& next.1 == Command::NextRow
        }),
{
    let m = RoomListView { phase: RoomsPhase::LoadingStrokes(room), rooms };
    let next = rooms_next(m, RoomsEvent::Counted(Ok(strokes)));
    assert(next.0.rooms.take(rooms.len() as int) =~= rooms);
}

/// When every call succeeds, the rooms handed over to be written are, in the
/// order of the index, the rooms loaded for its rows, each with its stroke
/// count the number of its strokes and every other field as loaded.
pub proof fn law_listed_rooms_are_loaded_rooms_counted(es: Seq<Listed>, body: String)
    ensures
        ({
            let cmds = rooms_run(rooms_start(), rooms_success_script(es, body)).1;
            &&& cmds.len() >= 2
            &&& cmds[cmds.len() - 2] matches Command::EncodeRooms(rs) && rs.len() == es.len() && forall|i: int|
                0 <= i < es.len() ==> #[trigger] keeps_room_fields(rs[i], es[i].1, es[i].2@.len())
        }),
{
    law_rooms_listed_in_index_order(es, body);
    let cmds = rooms_run(rooms_start(), rooms_success_script(es, body)).1;
    let head = seq![
        Command::Execute(QueryView { text: room_index_sql(), params: seq![] }),
        Command::NextRow,
    ];
    let tail = seq![Command::EncodeRooms(counted_rooms(es)), Command::RespondJson(body@)];
    assert(cmds == head + listing_commands(es) + tail);
    assert(cmds[cmds.len() - 2] == Command::EncodeRooms(counted_rooms(es)));
    let rs = counted_rooms(es);
    assert forall|i: int| 0 <= i < es.len() implies #[trigger] keeps_room_fields(rs[i], es[i].1, es[i].2@.len()) by {
        assert(rs[i] == counted_room(es[i].1, es[i].2@));
    }
}

/// A failure reported to the room list handler, in whatever phase, ends it:
/// the request is answered with an internal server error that logs the
/// failure's message, and the rooms gathered so far are not answered.
pub proof fn law_rooms_failure_ends_request(m: RoomListView, e: RoomsEvent)
    requires
        rooms_accepts(m.phase, e),
        rooms_failure(e) is Some,
    ensures
        rooms_next(m, e) == (
            RoomListView { phase: RoomsPhase::Done, rooms: m.rooms },
            Command::Fail(rooms_failure(e)->Some_0),
        ),
        !rooms_accepts(rooms_next(m, e).0.phase, e),
{
}

/// The CSRF token handler answers with the token stored under the id that its
/// insert produced: it stores a token, reads back the row with exactly that
/// insert id, and answers with the token of that row.
pub proof fn law_token_read_back_from_insert(id: u64, token: String)
    ensures
        token_accepts(TokenPhase::Start, TokenEvent::Begin),
        token_next(TokenPhase::Start, TokenEvent::Begin) == (
            TokenPhase::Inserting,
            Command::Execute(QueryView { text: token_insert_sql(), params: seq![] }),
        ),
        token_accepts(TokenPhase::Inserting, TokenEvent::Inserted(Ok(id))),
        token_next(TokenPhase::Inserting, TokenEvent::Inserted(Ok(id))) == (
            TokenPhase::Reading,
            Command::FetchFirst(
                QueryView { text: token_select_sql(), params: seq![("id"@, ParamValue::UInt(id))] },
            ),
        ),
        token_accepts(TokenPhase::Reading, TokenEvent::Read(Ok(Some(token)))),
        token_next(TokenPhase::Reading, TokenEvent::Read(Ok(Some(token)))) == (
            TokenPhase::Done,
            Command::RespondToken(token@),
        ),
{
}

/// A failure reported to the CSRF token handler ends it with an internal
/// server error that logs the failure's message.
pub proof fn law_token_failure_ends_request(p: TokenPhase, e: TokenEvent)
    requires
        token_accepts(p, e),
        token_failure(e) is Some,
    ensures
        token_next(p, e) == (TokenPhase::Done, Command::Fail(token_failure(e)->Some_0)),
        !token_accepts(token_next(p, e).0, e),
{
}

} // verus!
