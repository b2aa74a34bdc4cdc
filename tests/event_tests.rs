use meril_cat::bus::RecvError;
use meril_cat::event::{AnyEvent, BaseMessageEvent, EventManager, EventNexus, MessageEvent, MetaEvent, PrivateMessageEvent};
use meril_cat::json::Json;
use meril_cat::message::{MessageSegment, MusicData};

const PRIVATE: &str = r#"{"post_type":"message","message_type":"private","message_id":11,
  "self_id":99,"time":1700000000,"raw_message":"/help","sender":{"user_id":123,"nickname":"amy","card":""},
  "message":[{"type":"text","data":{"text":"/help"}}]}"#;

const GROUP: &str = r#"{"post_type":"message","message_type":"group","group_id":5,"group_name":"g",
  "message_id":12,"self_id":99,"time":1,"raw_message":"hi","sender":{"user_id":7,"nickname":"bo","card":"c"},
  "message":[{"type":"face","data":{"id":14}},{"type":"music","data":{"type":"qq","id":"42"}}]}"#;

fn decode(text: &str) -> AnyEvent {
    AnyEvent::from_json(&Json::from_text(text).unwrap())
}

#[test]
fn decodes_private_message() {
    match decode(PRIVATE) {
        AnyEvent::Message(MessageEvent::Private(p)) => {
            assert_eq!(p.message_id, 11);
            assert_eq!(p.self_id, 99);
            assert_eq!(p.time, 1700000000);
            assert_eq!(p.raw_message, "/help");
            assert_eq!(p.sender.user_id, 123);
            assert_eq!(p.sender.nickname, "amy");
            assert_eq!(p.message, vec![MessageSegment::Text { text: "/help".to_string() }]);
        }
        other => panic!("unexpected {:?}", other),
    }
}

#[test]
fn decodes_group_message_with_segments() {
    match decode(GROUP) {
        AnyEvent::Message(MessageEvent::Group(g)) => {
            assert_eq!(g.group_id, 5);
            assert_eq!(g.group_name, "g");
            assert_eq!(g.sender.card, "c");
            assert_eq!(
                g.message,
                vec![
                    MessageSegment::Face { id: 14 },
                    MessageSegment::Music(MusicData::BuiltIn { kind: "qq".to_string(), id: "42".to_string() }),
                ]
            );
        }
        other => panic!("unexpected {:?}", other),
    }
}

#[test]
fn decodes_meta_and_notice_events() {
    let hb = decode(r#"{"post_type":"meta_event","meta_event_type":"heartbeat","interval":5000,"self_id":1,"status":{"good":true,"online":false},"time":3}"#);
    match hb {
        AnyEvent::Meta(MetaEvent::HeartBeat(h)) => {
            assert_eq!(h.interval, 5000);
            assert!(h.status.good);
            assert!(!h.status.online);
        }
        other => panic!("unexpected {:?}", other),
    }
    let lc = decode(r#"{"post_type":"meta_event","meta_event_type":"lifecycle","self_id":1,"sub_type":"connect","time":3}"#);
    match lc {
        AnyEvent::Meta(MetaEvent::LifeCycle(l)) => assert_eq!(l.sub_type, "connect"),
        other => panic!("unexpected {:?}", other),
    }
    let n = decode(r#"{"post_type":"notice","group_id":0,"notice_type":"poke","self_id":1,"status_text":"typing","time":2,"user_id":3}"#);
    match n {
        AnyEvent::Notice(n) => {
            assert_eq!(n.notice_type, "poke");
            assert_eq!(n.user_id, 3);
        }
        other => panic!("unexpected {:?}", other),
    }
}

#[test]
fn unknown_or_malformed_events_decode_to_other() {
    assert_eq!(decode(r#"{"post_type":"request","x":1}"#), AnyEvent::Other);
    assert_eq!(decode(r#"{"post_type":"message","message_type":"channel","raw_message":"x"}"#), AnyEvent::Other);
    assert_eq!(decode(r#"{"post_type":"message","message_type":"private","raw_message":"x"}"#), AnyEvent::Other);
    assert_eq!(decode(r#"{"post_type":"meta_event","meta_event_type":"other"}"#), AnyEvent::Other);
    assert_eq!(decode(r#"{"no_type":true}"#), AnyEvent::Other);
    assert_eq!(decode(r#"[1,2]"#), AnyEvent::Other);
    assert_eq!(decode(r#"{"post_type":"message","message_type":"private","message_id":1,"self_id":1,"time":1,"raw_message":"x","sender":{"user_id":1,"nickname":"n","card":""},"message":[{"type":"bogus","data":{}}]}"#), AnyEvent::Other);
}

#[test]
fn decoding_twice_gives_equal_events() {
    for text in [PRIVATE, GROUP, r#"{"post_type":"x"}"#] {
        assert_eq!(decode(text), decode(text));
    }
}

#[test]
fn dispatch_publishes_on_all_and_kind_buses() {
    let mut manager = EventManager::new();
    let mut all = manager.get_all_event_port();
    let mut private = manager.get_private_message_port();
    let mut group = manager.get_group_message_port();
    let mut beats = manager.get_heartbeat_port();
    assert!(manager.handle_event(&Json::from_text(PRIVATE).unwrap()));
    assert!(manager.handle_event(&Json::from_text(r#"{"post_type":"notice"}"#).unwrap()));
    let hubs = manager.get_event_nexus();
    match all.recv(hubs.all_event_hub()) {
        Ok(AnyEvent::Message(MessageEvent::Private(p))) => assert_eq!(p.raw_message, "/help"),
        other => panic!("unexpected {:?}", other),
    }
    assert_eq!(all.recv(hubs.all_event_hub()), Ok(&AnyEvent::Other));
    assert_eq!(private.recv(hubs.private_message_hub()).unwrap().sender.user_id, 123);
    assert_eq!(private.recv(hubs.private_message_hub()), Err(RecvError::Empty));
    assert_eq!(group.recv(hubs.group_message_hub()), Err(RecvError::Empty));
    assert_eq!(beats.recv(hubs.heartbeat_hub()), Err(RecvError::Empty));
}

#[test]
fn shared_fields_and_wrapping_conversions() {
    let p: PrivateMessageEvent = match decode(PRIVATE) {
        AnyEvent::Message(MessageEvent::Private(p)) => p,
        other => panic!("unexpected {:?}", other),
    };
    let base = BaseMessageEvent::from(p.clone());
    assert_eq!(base.raw_message, "/help");
    assert_eq!(base.sender.user_id, 123);
    assert_eq!(MessageEvent::from(p.clone()), MessageEvent::Private(p.copy()));
    let g = match decode(GROUP) {
        AnyEvent::Message(MessageEvent::Group(g)) => g,
        other => panic!("unexpected {:?}", other),
    };
    assert_eq!(BaseMessageEvent::from(g.clone()).message_id, 12);
    assert_eq!(MessageEvent::from(g.clone()), MessageEvent::Group(g));
    let hubs: EventNexus = EventNexus::new();
    assert!(hubs.is_ready());
}
