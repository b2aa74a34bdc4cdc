use meril_cat::json::Json;
use meril_cat::message::{Message, MessageSegment, MusicData};

#[test]
fn builders_append_segments_in_order() {
    let m = Message::new()
        .with_text("hi")
        .with_at("10001")
        .with_image("a.png")
        .with_face(3)
        .with_reply(9)
        .with_record("r.amr")
        .with_video("v.mp4")
        .with_dice()
        .with_rps()
        .with_file("f.txt");
    assert_eq!(
        m.get_segments(),
        &vec![
            MessageSegment::Text { text: "hi".to_string() },
            MessageSegment::At { qq: "10001".to_string() },
            MessageSegment::Image { file: "a.png".to_string() },
            MessageSegment::Face { id: 3 },
            MessageSegment::Reply { id: 9 },
            MessageSegment::Record { file: "r.amr".to_string() },
            MessageSegment::Video { file: "v.mp4".to_string() },
            MessageSegment::Dice {},
            MessageSegment::Rps {},
            MessageSegment::File { file: "f.txt".to_string() },
        ]
    );
}

#[test]
fn segments_round_trip_through_json() {
    let segs = vec![
        MessageSegment::Text { text: "t".to_string() },
        MessageSegment::Face { id: -2 },
        MessageSegment::Json { data: "{}".to_string() },
        MessageSegment::Dice {},
        MessageSegment::Music(MusicData::BuiltIn { kind: "163".to_string(), id: "5".to_string() }),
        MessageSegment::Music(MusicData::Custom {
            kind: "custom".to_string(),
            url: "u".to_string(),
            audio: "a".to_string(),
            title: "t".to_string(),
            image: None,
        }),
        MessageSegment::Music(MusicData::Custom {
            kind: "custom".to_string(),
            url: "u".to_string(),
            audio: "a".to_string(),
            title: "t".to_string(),
            image: Some("i".to_string()),
        }),
    ];
    for seg in segs {
        let text = seg.to_json().to_text();
        let back = MessageSegment::from_json(&Json::from_text(&text).unwrap());
        assert_eq!(back, Some(seg));
    }
}

#[test]
fn segment_json_shape() {
    assert_eq!(
        MessageSegment::At { qq: "1".to_string() }.to_json().to_text(),
        r#"{"data":{"qq":"1"},"type":"at"}"#
    );
    assert_eq!(MessageSegment::Rps {}.to_json().to_text(), r#"{"data":{},"type":"rps"}"#);
    assert_eq!(
        Message::new().with_text("a").with_face(1).to_json().to_text(),
        r#"[{"data":{"text":"a"},"type":"text"},{"data":{"id":1},"type":"face"}]"#
    );
}

#[test]
fn malformed_segments_are_rejected() {
    for text in [
        r#"{"type":"text"}"#,
        r#"{"type":"text","data":{"text":1}}"#,
        r#"{"type":"face","data":{"id":"1"}}"#,
        r#"{"type":"face","data":{"id":3000000000}}"#,
        r#"{"type":"nope","data":{}}"#,
        r#"{"type":"dice","data":[]}"#,
        r#"{"type":"music","data":{"type":"custom","url":"u"}}"#,
    ] {
        assert_eq!(MessageSegment::from_json(&Json::from_text(text).unwrap()), None, "{}", text);
    }
}
