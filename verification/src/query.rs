//! The SQL statements the handlers run, with their named parameters.

use vstd::prelude::*;

verus! {

/// The value bound to a named parameter.
#[derive(Clone, Copy, Debug, PartialEq, Eq, Structural)]
pub enum ParamValue {
    Int(i64),
    UInt(u64),
}

/// A named parameter (`:name` in the statement) and its value.
#[derive(Debug)]
pub struct Param {
    pub name: String,
    pub value: ParamValue,
}

/// A prepared statement and the values of its named parameters.
#[derive(Debug)]
pub struct Query {
    pub text: String,
    pub params: Vec<Param>,
}

/// The text of a statement and its parameters as names and values.
#[verifier::ext_equal]
pub struct QueryView {
    pub text: Seq<char>,
    pub params: Seq<(Seq<char>, ParamValue)>,
}

impl View for Query {
    type V = QueryView;

    open spec fn view(&self) -> QueryView {
        QueryView {
            text: self.text@,
            params: self.params@.map_values(|p: Param| (p.name@, p.value)),
        }
    }
}

/// The strokes of room `:room_id` whose id is above `:greather_than_id`, in id order.
pub open spec fn strokes_sql() -> Seq<char> {
    "SELECT `id`, `room_id`, `width`, `red`, `green`, `blue`, `alpha`, `created_at` FROM `strokes`"@
        + " WHERE `room_id` = :room_id AND `id` > :greather_than_id ORDER BY `id` ASC"@
}

/// The room whose id is `:id`.
pub open spec fn room_sql() -> Seq<char> {
    "SELECT `id`, `name`, `canvas_width`, `canvas_height`, `created_at` FROM `rooms` WHERE `id` = :id"@
}

/// Stores a new random CSRF token.
pub open spec fn token_insert_sql() -> Seq<char> {
    "INSERT INTO `tokens` (`csrf_token`) VALUES"@ + "(SHA2(CONCAT(RAND(), UUID_SHORT()), 256))"@
}

/// The token whose id is `:id`.
pub open spec fn token_select_sql() -> Seq<char> {
    "SELECT `id`, `csrf_token`, `created_at` FROM `tokens` WHERE id = :id"@
}

/// The ids of the hundred rooms drawn in most recently, the latest first.
pub open spec fn room_index_sql() -> Seq<char> {
    "SELECT `room_id`, MAX(`id`) AS `max_id` FROM `strokes`"@
        + " GROUP BY `room_id` ORDER BY `max_id` DESC LIMIT 100"@
}

/// A parameter named `name` bound to `value`.
fn param(name: &str, value: ParamValue) -> (p: Param)
    ensures
        p.name@ == name@,
        p.value == value,
{
    Param { name: String::from_str(name), value }
}

/// The statement that reads the strokes of room `room_id` with an id above
/// `greather_than_id`.
pub fn strokes_query(room_id: i64, greather_than_id: i64) -> (q: Query)
    ensures
        q@.text == strokes_sql(),
        q@.params == seq![
            ("room_id"@, ParamValue::Int(room_id)),
            ("greather_than_id"@, ParamValue::Int(greather_than_id)),
        ],
{
    let mut text = String::from_str(
        "SELECT `id`, `room_id`, `width`, `red`, `green`, `blue`, `alpha`, `created_at` FROM `strokes`",
    );
    text.append(" WHERE `room_id` = :room_id AND `id` > :greather_than_id ORDER BY `id` ASC");
    let mut params: Vec<Param> = Vec::new();
    params.push(param("room_id", ParamValue::Int(room_id)));
    params.push(param("greather_than_id", ParamValue::Int(greather_than_id)));
    let q = Query { text, params };
    assert(q@.params =~= seq![
        ("room_id"@, ParamValue::Int(room_id)),
        ("greather_than_id"@, ParamValue::Int(greather_than_id)),
    ]);
    q
}

/// The statement that reads room `room_id`.
pub fn room_query(room_id: i64) -> (q: Query)
    ensures
        q@.text == room_sql(),
        q@.params == seq![("id"@, ParamValue::Int(room_id))],
{
    let text = String::from_str(
        "SELECT `id`, `name`, `canvas_width`, `canvas_height`, `created_at` FROM `rooms` WHERE `id` = :id",
    );
    let mut params: Vec<Param> = Vec::new();
    params.push(param("id", ParamValue::Int(room_id)));
    let q = Query { text, params };
    assert(q@.params =~= seq![("id"@, ParamValue::Int(room_id))]);
    q
}

/// The statement that stores a new CSRF token.
pub fn token_insert_query() -> (q: Query)
    ensures
        q@.text == token_insert_sql(),
        q@.params.len() == 0,
{
    let mut text = String::from_str("INSERT INTO `tokens` (`csrf_token`) VALUES");
    text.append("(SHA2(CONCAT(RAND(), UUID_SHORT()), 256))");
    Query { text, params: Vec::new() }
}

/// The statement that reads back the token stored under `id`.
pub fn token_select_query(id: u64) -> (q: Query)
    ensures
        q@.text == token_select_sql(),
        q@.params == seq![("id"@, ParamValue::UInt(id))],
{
    let text = String::from_str("SELECT `id`, `csrf_token`, `created_at` FROM `tokens` WHERE id = :id");
    let mut params: Vec<Param> = Vec::new();
    params.push(param("id", ParamValue::UInt(id)));
    let q = Query { text, params };
    assert(q@.params =~= seq![("id"@, ParamValue::UInt(id))]);
    q
}

/// The statement that lists the rooms drawn in most recently.
pub fn room_index_query() -> (q: Query)
    ensures
        q@.text == room_index_sql(),
        q@.params.len() == 0,
{
    let mut text = String::from_str("SELECT `room_id`, MAX(`id`) AS `max_id` FROM `strokes`");
    text.append(" GROUP BY `room_id` ORDER BY `max_id` DESC LIMIT 100");
    Query { text, params: Vec::new() }
}

} // verus!
