use meril_cat::action::{like_reply, response_body, ActionError, ActionManager, GroupMessage, NapcatRequestData, PrivateMessage};
use meril_cat::json::Json;
use meril_cat::message::Message;

fn response(echo: &str, message: &str) -> Json {
    Json::from_text(&format!(r#"{{"echo":"{}","message":"{}"}}"#, echo, message)).unwrap()
}

#[test]
fn request_stamps_fresh_ids() {
    let mut act = ActionManager::new(3000);
    let data = NapcatRequestData::new().with_action("get_status").with_echo("mine").with_params(Json::Null);
    let (id0, frame0) = act.request(data.clone(), 100).unwrap();
    let (id1, frame1) = act.request(data, 100).unwrap();
    assert_eq!((id0, id1), (0, 1));
    assert_eq!(frame0.get("echo"), Some(&Json::Str("0".to_string())));
    assert_eq!(frame1.get("echo"), Some(&Json::Str("1".to_string())));
    assert_eq!(frame0.get("action"), Some(&Json::Str("get_status".to_string())));
    assert_eq!(frame0.get("params"), Some(&Json::Null));
    assert_eq!(act.pending_count(), 2);
}

#[test]
fn each_response_resolves_exactly_one_request() {
    let mut act = ActionManager::new(3000);
    for _ in 0..3 {
        act.request(NapcatRequestData::new().with_action("a"), 0).unwrap();
    }
    assert_eq!(act.resolve(&response("1", "ok")), Some(1));
    assert_eq!(act.resolve(&response("1", "ok")), None);
    assert!(act.is_pending(0));
    assert!(!act.is_pending(1));
    assert!(act.is_pending(2));
    assert_eq!(act.resolve(&response("7", "spurious")), None);
    assert_eq!(act.resolve(&Json::from_text(r#"{"echo":5}"#).unwrap()), None);
    assert_eq!(act.resolve(&Json::from_text(r#"{"status":"ok"}"#).unwrap()), None);
    assert_eq!(act.resolve(&response("0", "ok")), Some(0));
    assert_eq!(act.resolve(&response("2", "ok")), Some(2));
    assert_eq!(act.pending_count(), 0);
}

#[test]
fn expired_requests_time_out_and_late_responses_are_discarded() {
    let mut act = ActionManager::new(10);
    act.request(NapcatRequestData::new().with_action("a"), 0).unwrap();
    act.request(NapcatRequestData::new().with_action("b"), 5).unwrap();
    assert_eq!(act.expire(9), Vec::<u64>::new());
    assert_eq!(act.expire(10), vec![0]);
    assert!(!act.is_pending(0));
    assert_eq!(act.resolve(&response("0", "late")), None);
    assert_eq!(act.expire(u64::MAX), vec![1]);
    assert_eq!(act.pending_count(), 0);
}

#[test]
fn deadline_saturates_at_the_counter_limit() {
    let mut act = ActionManager::new(u64::MAX);
    act.request(NapcatRequestData::new(), 10).unwrap();
    assert_eq!(act.expire(u64::MAX - 1), Vec::<u64>::new());
    assert_eq!(act.expire(u64::MAX), vec![0]);
}

#[test]
fn cancel_is_idempotent() {
    let mut act = ActionManager::new(10);
    act.request(NapcatRequestData::new(), 0).unwrap();
    assert!(act.cancel(0));
    assert!(!act.cancel(0));
    assert_eq!(act.pending_count(), 0);
    let _ = ActionError::Timeout;
}

#[test]
fn builds_message_requests() {
    let mut act = ActionManager::new(10);
    let msg = Message::new().with_text("hnm");
    let (_, frame) = act.send_private_message(123, &msg, 0).unwrap();
    assert_eq!(frame.get("action"), Some(&Json::Str("send_private_msg".to_string())));
    let params = frame.get("params").unwrap();
    assert_eq!(params.get("user_id"), Some(&Json::Num("123".to_string())));
    assert_eq!(
        params.get("message").unwrap().to_text(),
        r#"[{"data":{"text":"hnm"},"type":"text"}]"#
    );
    let (_, frame) = act.send_group_message(-5, &msg, 0).unwrap();
    assert_eq!(frame.get("params").unwrap().get("group_id"), Some(&Json::Num("-5".to_string())));
    let (_, frame) = act.send_like(9, 10, 0).unwrap();
    assert_eq!(frame.get("params").unwrap().to_text(), r#"{"times":10,"user_id":9}"#);
    let (_, frame) = act.send_private_poke(9, 0).unwrap();
    assert_eq!(frame.get("action"), Some(&Json::Str("friend_poke".to_string())));
    let (_, frame) = act.send_group_poke(4, 9, 0).unwrap();
    assert_eq!(frame.get("params").unwrap().to_text(), r#"{"group_id":4,"user_id":9}"#);
}

#[test]
fn reads_like_reply() {
    let r = Json::from_text(r#"{"echo":"1","message":{"message":"liked"}}"#).unwrap();
    assert_eq!(like_reply(&r), Some("liked".to_string()));
    assert_eq!(like_reply(&response("1", "flat")), None);
}

#[test]
fn message_param_records() {
    let p = PrivateMessage::new(123, Message::new().with_text("hnm"));
    assert_eq!(p.user_id, "123");
    let g = GroupMessage::new("77", Message::new());
    assert_eq!(g.group_id, "77");
}

#[test]
fn request_frame_has_exactly_three_members() {
    let mut act = ActionManager::new(10);
    let data = NapcatRequestData::new().with_action("a").with_echo("caller").with_params(Json::Bool(true));
    let (_, frame) = act.request(data, 0).unwrap();
    assert_eq!(frame.to_text(), r#"{"action":"a","echo":"0","params":true}"#);
    match frame {
        Json::Object(f) => assert_eq!(f.len(), 3),
        other => panic!("unexpected {:?}", other),
    }
}

#[test]
fn send_helpers_register_their_request() {
    let mut act = ActionManager::new(10);
    assert_eq!(act.timeout_ms(), 10);
    let (id, _) = act.send_private_poke(1, 0).unwrap();
    assert!(act.is_pending(id));
    let (id2, frame) = act.send_group_poke(2, 3, 0).unwrap();
    assert_eq!(id2, id + 1);
    assert_eq!(act.pending_count(), 2);
    assert_eq!(frame.get("params").unwrap().to_text(), r#"{"group_id":2,"user_id":3}"#);
}

#[test]
fn response_body_drops_the_echo() {
    let r = Json::from_text(r#"{"echo":"3","status":"ok","data":null}"#).unwrap();
    assert_eq!(response_body(r).to_text(), r#"{"data":null,"status":"ok"}"#);
    assert_eq!(response_body(Json::Null), Json::Null);
}

#[test]
fn only_the_exact_stamped_echo_resolves() {
    let mut act = ActionManager::new(10);
    for _ in 0..8 {
        act.request(NapcatRequestData::new(), 0).unwrap();
    }
    assert_eq!(act.resolve(&response("07", "x")), None);
    assert_eq!(act.resolve(&response("-0", "x")), None);
    assert_eq!(act.resolve(&response("+7", "x")), None);
    assert_eq!(act.pending_count(), 8);
    assert_eq!(act.resolve(&response("7", "x")), Some(7));
    assert_eq!(act.resolve(&response("0", "x")), Some(0));
}
