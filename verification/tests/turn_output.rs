use coclai::events::{Direction, Envelope, MsgKind};
use coclai::json::JsonValue;
use coclai::turn_output::{
    extract_text_from_params, merge_turn_completed_text, parse_thread_id, parse_turn_id,
    AssistantTextCollector,
};

fn s(x: &str) -> JsonValue {
    JsonValue::String(x.to_owned())
}

fn obj(fields: Vec<(&str, JsonValue)>) -> JsonValue {
    JsonValue::Object(fields.into_iter().map(|(k, v)| (k.to_owned(), v)).collect())
}

fn envelope(method: &str, item_id: Option<&str>, params: JsonValue) -> Envelope {
    Envelope {
        seq: 1,
        ts_millis: 0,
        direction: Direction::Inbound,
        kind: MsgKind::Notification,
        rpc_id: None,
        method: Some(method.to_owned()),
        thread_id: Some("thr".to_owned()),
        turn_id: Some("turn".to_owned()),
        item_id: item_id.map(ToOwned::to_owned),
        json: obj(vec![("method", s(method)), ("params", params)]),
    }
}

#[test]
fn collector_prefers_delta_and_ignores_completed_duplicate() {
    let mut collector = AssistantTextCollector::new();
    collector.push_envelope(&envelope(
        "item/started",
        Some("it_1"),
        obj(vec![("itemType", s("agentMessage"))]),
    ));
    collector.push_envelope(&envelope(
        "item/agentMessage/delta",
        Some("it_1"),
        obj(vec![("delta", s("hello"))]),
    ));
    collector.push_envelope(&envelope(
        "item/completed",
        Some("it_1"),
        obj(vec![("item", obj(vec![("type", s("agent_message")), ("text", s("hello"))]))]),
    ));
    assert_eq!(collector.text(), "hello");
}

#[test]
fn collector_reads_completed_text_without_delta() {
    let mut collector = AssistantTextCollector::new();
    collector.push_envelope(&envelope(
        "item/started",
        Some("it_2"),
        obj(vec![("itemType", s("agent_message"))]),
    ));
    collector.push_envelope(&envelope(
        "item/completed",
        Some("it_2"),
        obj(vec![("item", obj(vec![("type", s("agent_message")), ("text", s("world"))]))]),
    ));
    assert_eq!(collector.text(), "world");
}

#[test]
fn collector_dedups_turn_completed_text_after_item_completed() {
    let mut collector = AssistantTextCollector::new();
    collector.push_envelope(&envelope(
        "item/started",
        Some("it_3"),
        obj(vec![("itemType", s("agent_message"))]),
    ));
    collector.push_envelope(&envelope(
        "item/completed",
        Some("it_3"),
        obj(vec![(
            "item",
            obj(vec![("type", s("agent_message")), ("text", s("final answer"))]),
        )]),
    ));
    collector.push_envelope(&envelope(
        "turn/completed",
        None,
        obj(vec![("text", s("final answer"))]),
    ));
    assert_eq!(collector.text(), "final answer");
}

#[test]
fn parse_ids_from_result_shapes() {
    let v = obj(vec![
        ("thread", obj(vec![("id", s("thr_1"))])),
        ("turn", obj(vec![("id", s("turn_1"))])),
    ]);
    assert_eq!(parse_thread_id(&v).as_deref(), Some("thr_1"));
    assert_eq!(parse_turn_id(&v).as_deref(), Some("turn_1"));
}

#[test]
fn parse_ids_support_nested_structures() {
    assert_eq!(
        parse_thread_id(&obj(vec![("thread", obj(vec![("id", s("thr_nested"))]))])).as_deref(),
        Some("thr_nested")
    );
    assert_eq!(
        parse_turn_id(&obj(vec![("turn", obj(vec![("id", s("turn_nested"))]))])).as_deref(),
        Some("turn_nested")
    );
}

#[test]
fn parse_ids_fall_back_to_flat_keys_and_bare_strings() {
    assert_eq!(parse_thread_id(&obj(vec![("threadId", s("t1"))])).as_deref(), Some("t1"));
    assert_eq!(parse_thread_id(&obj(vec![("id", s("t2"))])).as_deref(), Some("t2"));
    assert_eq!(parse_thread_id(&s("t3")).as_deref(), Some("t3"));
    assert_eq!(parse_turn_id(&obj(vec![("other", s("x"))])), None);
}

#[test]
fn turn_completed_text_is_merged_once() {
    let mut out = String::new();
    merge_turn_completed_text(&mut out, "a");
    assert_eq!(out, "a");
    merge_turn_completed_text(&mut out, "a");
    assert_eq!(out, "a");
    merge_turn_completed_text(&mut out, "b");
    assert_eq!(out, "a\nb");
    merge_turn_completed_text(&mut out, "");
    assert_eq!(out, "a\nb");
}

#[test]
fn text_is_read_from_item_or_params() {
    let from_item = obj(vec![("item", obj(vec![("text", s("x"))]))]);
    assert_eq!(extract_text_from_params(&from_item).as_deref(), Some("x"));
    let flat = obj(vec![("text", s("y"))]);
    assert_eq!(extract_text_from_params(&flat).as_deref(), Some("y"));
    assert_eq!(extract_text_from_params(&obj(vec![])), None);
}

#[test]
fn collector_appends_deltas_and_merges_longer_turn_text() {
    let mut collector = AssistantTextCollector::new();
    collector.push_envelope(&envelope(
        "item/agentMessage/delta",
        Some("it_9"),
        obj(vec![("delta", s("par"))]),
    ));
    collector.push_envelope(&envelope(
        "item/agentMessage/delta",
        Some("it_9"),
        obj(vec![("delta", s("tial"))]),
    ));
    collector.push_envelope(&envelope(
        "turn/completed",
        None,
        obj(vec![("text", s("partial answer"))]),
    ));
    assert_eq!(collector.into_text(), "partial answer");
}

#[test]
fn cloned_collector_keeps_its_text() {
    let mut collector = AssistantTextCollector::new();
    collector.push_envelope(&envelope(
        "item/agentMessage/delta",
        Some("it_1"),
        obj(vec![("delta", s("kept"))]),
    ));
    let copy = collector.clone();
    assert_eq!(copy.into_text(), collector.text().to_owned());
}
