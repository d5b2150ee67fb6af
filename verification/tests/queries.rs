use isuketch::query::{
    room_index_query, room_query, strokes_query, token_insert_query, token_select_query, Param,
    ParamValue,
};

fn pairs(params: &[Param]) -> Vec<(String, ParamValue)> {
    params.iter().map(|p| (p.name.clone(), p.value)).collect()
}

#[test]
fn strokes_statement() {
    let q = strokes_query(7, 0);
    assert_eq!(
        q.text,
        "SELECT `id`, `room_id`, `width`, `red`, `green`, `blue`, `alpha`, `created_at` FROM `strokes` WHERE `room_id` = :room_id AND `id` > :greather_than_id ORDER BY `id` ASC"
    );
    assert_eq!(
        pairs(&q.params),
        vec![
            ("room_id".to_string(), ParamValue::Int(7)),
            ("greather_than_id".to_string(), ParamValue::Int(0))
        ]
    );
}

#[test]
fn room_statement() {
    let q = room_query(-3);
    assert_eq!(
        q.text,
        "SELECT `id`, `name`, `canvas_width`, `canvas_height`, `created_at` FROM `rooms` WHERE `id` = :id"
    );
    assert_eq!(pairs(&q.params), vec![("id".to_string(), ParamValue::Int(-3))]);
}

#[test]
fn token_statements() {
    let q = token_insert_query();
    assert_eq!(q.text, "INSERT INTO `tokens` (`csrf_token`) VALUES(SHA2(CONCAT(RAND(), UUID_SHORT()), 256))");
    assert!(q.params.is_empty());
    let q = token_select_query(u64::MAX);
    assert_eq!(q.text, "SELECT `id`, `csrf_token`, `created_at` FROM `tokens` WHERE id = :id");
    assert_eq!(pairs(&q.params), vec![("id".to_string(), ParamValue::UInt(u64::MAX))]);
}

#[test]
fn room_index_statement() {
    let q = room_index_query();
    assert_eq!(
        q.text,
        "SELECT `room_id`, MAX(`id`) AS `max_id` FROM `strokes` GROUP BY `room_id` ORDER BY `max_id` DESC LIMIT 100"
    );
    assert!(q.params.is_empty());
}
