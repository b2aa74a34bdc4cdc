use meril_cat::action::{response_body, ActionManager, NapcatRequestData};
use meril_cat::adapter::{classify, route_frame, FrameRoute, Inbound, NapcatAdapter};
use meril_cat::json::Json;

#[test]
fn routes_by_echo() {
    match route_frame(r#"{"echo":"3","status":"ok"}"#) {
        FrameRoute::Response(j) => assert_eq!(j.get("status"), Some(&Json::Str("ok".to_string()))),
        other => panic!("unexpected {:?}", other),
    }
    match route_frame(r#"{"post_type":"meta_event"}"#) {
        FrameRoute::Event(j) => assert!(j.get("echo").is_none()),
        other => panic!("unexpected {:?}", other),
    }
    assert_eq!(route_frame("garbage"), FrameRoute::Malformed);
    assert_eq!(classify(None), FrameRoute::Malformed);
    assert_eq!(classify(Some(Json::Null)), FrameRoute::Event(Json::Null));
}

#[test]
fn inbound_frames_reach_the_right_bus() {
    let mut adapter = NapcatAdapter::new();
    let mut events = adapter.get_event_port();
    let mut actions = adapter.get_action_port();
    assert_eq!(adapter.on_frame(r#"{"post_type":"notice"}"#), Inbound::Event);
    assert_eq!(adapter.on_frame(r#"{"echo":"0"}"#), Inbound::Response);
    assert_eq!(adapter.on_frame("{"), Inbound::Malformed);
    assert!(events.recv(adapter.event_hub()).unwrap().get("post_type").is_some());
    assert!(events.recv(adapter.event_hub()).is_err());
    assert!(actions.recv(adapter.action_hub()).unwrap().get("echo").is_some());
    assert!(actions.recv(adapter.action_hub()).is_err());
}

#[test]
fn outbound_queues_take_turns() {
    let mut adapter = NapcatAdapter::new();
    assert_eq!(adapter.next_outbound(), None);
    adapter.submit_action(Json::Str("a1".to_string()));
    adapter.submit_action(Json::Str("a2".to_string()));
    adapter.submit_event(Json::Str("e1".to_string()));
    adapter.submit_event(Json::Str("e2".to_string()));
    let order: Vec<String> = std::iter::from_fn(|| adapter.next_outbound()).collect();
    assert_eq!(order, vec!["\"e1\"", "\"a1\"", "\"e2\"", "\"a2\""]);
}

#[test]
fn request_resolves_with_its_echoed_response() {
    let mut adapter = NapcatAdapter::new();
    let mut act = ActionManager::new(10000);
    let mut responses = adapter.get_action_port();
    let params = Json::from_text(r#"{"user_id":123,"message":"hello"}"#).unwrap();
    let data = NapcatRequestData::new().with_action("send_private_msg").with_params(params);
    let (id, frame) = act.request(data, 0).unwrap();
    adapter.submit_action(frame);
    let wire = adapter.next_outbound().unwrap();
    let sent = Json::from_text(&wire).unwrap();
    let echo = sent.get("echo").unwrap().as_str().unwrap().clone();
    assert_eq!(sent.get("action"), Some(&Json::Str("send_private_msg".to_string())));
    let reply = format!(r#"{{"echo":"{}","message":"ok"}}"#, echo);
    assert_eq!(adapter.on_frame(&reply), Inbound::Response);
    let response = responses.recv(adapter.action_hub()).unwrap();
    assert_eq!(act.resolve(response), Some(id));
    assert_eq!(response_body(response.clone()).to_text(), r#"{"message":"ok"}"#);
    assert_eq!(act.expire(9999), Vec::<u64>::new());
    assert_eq!(act.pending_count(), 0);
}

#[test]
fn fresh_adapter_starts_at_sequence_zero() {
    let adapter = NapcatAdapter::new();
    assert_eq!(adapter.event_hub().next_seq(), 0);
    assert_eq!(adapter.action_hub().next_seq(), 0);
}
