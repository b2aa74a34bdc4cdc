//! Message segments: the structured parts of a chat message, how they are
//! built, and how they are read from and written to JSON as
//! `{"type": <kind>, "data": {...}}`.

use crate::json::{integer_in, keys_of, lemma_field_absent, lemma_field_first, member, text_of, Json};
use vstd::prelude::*;

verus! {

/// What a music segment carries: a track of a built-in provider, or a
/// custom card.
#[derive(Debug, Clone, PartialEq)]
pub enum MusicData {
    BuiltIn { kind: String, id: String },
    Custom { kind: String, url: String, audio: String, title: String, image: Option<String> },
}

/// One part of a chat message.
#[derive(Debug, Clone, PartialEq)]
pub enum MessageSegment {
    Text { text: String },
    At { qq: String },
    Image { file: String },
    Face { id: i32 },
    Json { data: String },
    Record { file: String },
    Video { file: String },
    Reply { id: i32 },
    Dice {},
    Rps {},
    File { file: String },
    Music(MusicData),
}

/// An outbound chat message: its segments, in order.
#[derive(Debug, Clone)]
pub struct Message {
    message: Vec<MessageSegment>,
}

/// The string that member `key` of `j` holds.
pub open spec fn str_member(j: Json, key: Seq<char>) -> Option<String> {
    match member(j, key) {
        Some(Json::Str(s)) => Some(s),
        _ => None,
    }
}

/// The `i32` that member `key` of `j` holds.
pub open spec fn i32_member(j: Json, key: Seq<char>) -> Option<i32> {
    match member(j, key) {
        Some(v) => match integer_in(v) {
            Some(n) => if i32::MIN <= n <= i32::MAX {
                Some(n as i32)
            } else {
                None
            },
            None => None,
        },
        None => None,
    }
}

/// The music data in the `data` object `d`: a built-in track where `type`
/// and `id` are strings, else a custom card.
pub open spec fn music_of(d: Json) -> Option<MusicData> {
    match (str_member(d, "type"@), str_member(d, "id"@)) {
        (Some(kind), Some(id)) => Some(MusicData::BuiltIn { kind, id }),
        _ => match (
            str_member(d, "type"@),
            str_member(d, "url"@),
            str_member(d, "audio"@),
            str_member(d, "title"@),
        ) {
            (Some(kind), Some(url), Some(audio), Some(title)) => {
                let image = match member(d, "image"@) {
                    None => Some(None::<String>),
                    Some(Json::Null) => Some(None::<String>),
                    Some(Json::Str(s)) => Some(Some(s)),
                    _ => None,
                };
                match image {
                    Some(image) => Some(MusicData::Custom { kind, url, audio, title, image }),
                    None => None,
                }
            },
            _ => None,
        },
    }
}

/// The segment that `j` describes, where it is well-formed: an object whose
/// `type` names a kind and whose `data` object holds that kind's fields.
pub open spec fn segment_of(j: Json) -> Option<MessageSegment> {
    match (str_member(j, "type"@), member(j, "data"@)) {
        (Some(t), Some(d)) => if !(d is Object) {
            None
        } else if t@ == "text"@ {
            match str_member(d, "text"@) {
                Some(text) => Some(MessageSegment::Text { text }),
                None => None,
            }
        } else if t@ == "at"@ {
            match str_member(d, "qq"@) {
                Some(qq) => Some(MessageSegment::At { qq }),
                None => None,
            }
        } else if t@ == "image"@ {
            match str_member(d, "file"@) {
                Some(file) => Some(MessageSegment::Image { file }),
                None => None,
            }
        } else if t@ == "face"@ {
            match i32_member(d, "id"@) {
                Some(id) => Some(MessageSegment::Face { id }),
                None => None,
            }
        } else if t@ == "json"@ {
            match str_member(d, "data"@) {
                Some(data) => Some(MessageSegment::Json { data }),
                None => None,
            }
        } else if t@ == "record"@ {
            match str_member(d, "file"@) {
                Some(file) => Some(MessageSegment::Record { file }),
                None => None,
            }
        } else if t@ == "video"@ {
            match str_member(d, "file"@) {
                Some(file) => Some(MessageSegment::Video { file }),
                None => None,
            }
        } else if t@ == "reply"@ {
            match i32_member(d, "id"@) {
                Some(id) => Some(MessageSegment::Reply { id }),
                None => None,
            }
        } else if t@ == "dice"@ {
            Some(MessageSegment::Dice {  })
        } else if t@ == "rps"@ {
            Some(MessageSegment::Rps {  })
        } else if t@ == "file"@ {
            match str_member(d, "file"@) {
                Some(file) => Some(MessageSegment::File { file }),
                None => None,
            }
        } else if t@ == "music"@ {
            match music_of(d) {
                Some(m) => Some(MessageSegment::Music(m)),
                None => None,
            }
        } else {
            None
        },
        _ => None,
    }
}

/// The segments that the items of a JSON array describe, where every one is
/// well-formed.
pub open spec fn segments_of(items: Seq<Json>) -> Option<Seq<MessageSegment>>
    decreases items.len(),
{
    if items.len() == 0 {
        Some(Seq::empty())
    } else {
        match (segments_of(items.drop_last()), segment_of(items.last())) {
            (Some(s), Some(x)) => Some(s.push(x)),
            _ => None,
        }
    }
}

/// The kind name a segment is written with.
pub open spec fn kind_name(seg: MessageSegment) -> Seq<char> {
    match seg {
        MessageSegment::Text { .. } => "text"@,
        MessageSegment::At { .. } => "at"@,
        MessageSegment::Image { .. } => "image"@,
        MessageSegment::Face { .. } => "face"@,
        MessageSegment::Json { .. } => "json"@,
        MessageSegment::Record { .. } => "record"@,
        MessageSegment::Video { .. } => "video"@,
        MessageSegment::Reply { .. } => "reply"@,
        MessageSegment::Dice {  } => "dice"@,
        MessageSegment::Rps {  } => "rps"@,
        MessageSegment::File { .. } => "file"@,
        MessageSegment::Music(_) => "music"@,
    }
}

/// The member names of the `data` object of a music segment.
pub open spec fn music_keys(m: MusicData) -> Seq<Seq<char>> {
    match m {
        MusicData::BuiltIn { .. } => seq!["type"@, "id"@],
        MusicData::Custom { .. } => seq!["type"@, "url"@, "audio"@, "title"@, "image"@],
    }
}

/// The member names of the `data` object of `seg`, in order.
pub open spec fn data_keys(seg: MessageSegment) -> Seq<Seq<char>> {
    match seg {
        MessageSegment::Text { .. } => seq!["text"@],
        MessageSegment::At { .. } => seq!["qq"@],
        MessageSegment::Image { .. } => seq!["file"@],
        MessageSegment::Face { .. } => seq!["id"@],
        MessageSegment::Json { .. } => seq!["data"@],
        MessageSegment::Record { .. } => seq!["file"@],
        MessageSegment::Video { .. } => seq!["file"@],
        MessageSegment::Reply { .. } => seq!["id"@],
        MessageSegment::Dice {  } => Seq::empty(),
        MessageSegment::Rps {  } => Seq::empty(),
        MessageSegment::File { .. } => seq!["file"@],
        MessageSegment::Music(m) => music_keys(m),
    }
}

/// `j` is the JSON form of `seg`: its `type` names the kind and its `data`
/// object holds the fields, each under its own name.
pub open spec fn encodes_segment(seg: MessageSegment, j: Json) -> bool {
    &&& j is Object
    &&& keys_of(j) == seq!["type"@, "data"@]
    &&& text_of_member(j, "type"@) == Some(kind_name(seg))
    &&& member(j, "data"@) is Some
    &&& {
        let d = member(j, "data"@).unwrap();
        &&& d is Object
        &&& keys_of(d) == data_keys(seg)
        &&& match seg {
            MessageSegment::Text { text } => str_member(d, "text"@) == Some(text),
            MessageSegment::At { qq } => str_member(d, "qq"@) == Some(qq),
            MessageSegment::Image { file } => str_member(d, "file"@) == Some(file),
            MessageSegment::Face { id } => i32_member(d, "id"@) == Some(id),
            MessageSegment::Json { data } => str_member(d, "data"@) == Some(data),
            MessageSegment::Record { file } => str_member(d, "file"@) == Some(file),
            MessageSegment::Video { file } => str_member(d, "file"@) == Some(file),
            MessageSegment::Reply { id } => i32_member(d, "id"@) == Some(id),
            MessageSegment::Dice {  } => true,
            MessageSegment::Rps {  } => true,
            MessageSegment::File { file } => str_member(d, "file"@) == Some(file),
            MessageSegment::Music(m) => music_of(d) == Some(m),
        }
    }
}

pub open spec fn text_of_member(j: Json, key: Seq<char>) -> Option<Seq<char>> {
    match member(j, key) {
        Some(v) => text_of(v),
        None => None,
    }
}

/// The string that member `key` of `j` holds, copied.
pub fn str_member_of(j: &Json, key: &str) -> (r: Option<String>)
    ensures
        r == str_member(*j, key@),
{
    match j.get(key) {
        Some(Json::Str(s)) => Some(s.clone()),
        _ => None,
    }
}

/// The integer that member `key` of `j` holds, where it fits an `i32`.
pub fn i32_member_of(j: &Json, key: &str) -> (r: Option<i32>)
    ensures
        r == i32_member(*j, key@),
{
    match j.get(key) {
        Some(Json::Num(t)) => crate::decimal::parse_i32(t.as_str()),
        _ => None,
    }
}

fn music_from(d: &Json) -> (r: Option<MusicData>)
    ensures
        r == music_of(*d),
{
    let kind = str_member_of(d, "type");
    let id = str_member_of(d, "id");
    if kind.is_some() && id.is_some() {
        return Some(MusicData::BuiltIn { kind: kind.unwrap(), id: id.unwrap() });
    }
    let url = str_member_of(d, "url");
    let audio = str_member_of(d, "audio");
    let title = str_member_of(d, "title");
    if kind.is_none() || url.is_none() || audio.is_none() || title.is_none() {
        return None;
    }
    let image: Option<String> = match d.get("image") {
        None => None,
        Some(Json::Null) => None,
        Some(Json::Str(s)) => Some(s.clone()),
        _ => {
            return None;
        },
    };
    Some(
        MusicData::Custom {
            kind: kind.unwrap(),
            url: url.unwrap(),
            audio: audio.unwrap(),
            title: title.unwrap(),
            image,
        },
    )
}

impl MessageSegment {
    /// Reads a segment from its JSON form.
    pub fn from_json(j: &Json) -> (r: Option<MessageSegment>)
        ensures
            r == segment_of(*j),
    {
        let t = match str_member_of(j, "type") {
            Some(t) => t,
            None => {
                return None;
            },
        };
        let d = match j.get("data") {
            Some(d) => d,
            None => {
                return None;
            },
        };
        match d {
            Json::Object(_) => {},
            _ => {
                return None;
            },
        }
        proof {
            reveal_strlit("text");
            reveal_strlit("at");
            reveal_strlit("image");
            reveal_strlit("face");
            reveal_strlit("json");
            reveal_strlit("record");
            reveal_strlit("video");
            reveal_strlit("reply");
            reveal_strlit("dice");
            reveal_strlit("rps");
            reveal_strlit("file");
            reveal_strlit("music");
        }
        let ts = t.as_str();
        if str_is(ts, "text") {
            match str_member_of(d, "text") {
                Some(text) => Some(MessageSegment::Text { text }),
                None => None,
            }
        } else if str_is(ts, "at") {
            match str_member_of(d, "qq") {
                Some(qq) => Some(MessageSegment::At { qq }),
                None => None,
            }
        } else if str_is(ts, "image") {
            match str_member_of(d, "file") {
                Some(file) => Some(MessageSegment::Image { file }),
                None => None,
            }
        } else if str_is(ts, "face") {
            match i32_member_of(d, "id") {
                Some(id) => Some(MessageSegment::Face { id }),
                None => None,
            }
        } else if str_is(ts, "json") {
            match str_member_of(d, "data") {
                Some(data) => Some(MessageSegment::Json { data }),
                None => None,
            }
        } else if str_is(ts, "record") {
            match str_member_of(d, "file") {
                Some(file) => Some(MessageSegment::Record { file }),
                None => None,
            }
        } else if str_is(ts, "video") {
            match str_member_of(d, "file") {
                Some(file) => Some(MessageSegment::Video { file }),
                None => None,
            }
        } else if str_is(ts, "reply") {
            match i32_member_of(d, "id") {
                Some(id) => Some(MessageSegment::Reply { id }),
                None => None,
            }
        } else if str_is(ts, "dice") {
            Some(MessageSegment::Dice {  })
        } else if str_is(ts, "rps") {
            Some(MessageSegment::Rps {  })
        } else if str_is(ts, "file") {
            match str_member_of(d, "file") {
                Some(file) => Some(MessageSegment::File { file }),
                None => None,
            }
        } else if str_is(ts, "music") {
            match music_from(d) {
                Some(m) => Some(MessageSegment::Music(m)),
                None => None,
            }
        } else {
            None
        }
    }
}

/// Whether two strings hold the same characters.
pub fn str_is(a: &str, b: &str) -> (r: bool)
    ensures
        r == (a@ == b@),
{
    let n = a.unicode_len();
    if n != b.unicode_len() {
        return false;
    }
    let mut i: usize = 0;
    while i < n
        invariant
            n == a@.len(),
            n == b@.len(),
            0 <= i <= n,
            a@.subrange(0, i as int) == b@.subrange(0, i as int),
        decreases n - i,
    {
        if a.get_char(i) != b.get_char(i) {
            proof {
                assert(a@[i as int] != b@[i as int]);
            }
            return false;
        }
        proof {
            assert(a@.subrange(0, i as int + 1) =~= a@.subrange(0, i as int).push(a@[i as int]));
            assert(b@.subrange(0, i as int + 1) =~= b@.subrange(0, i as int).push(b@[i as int]));
        }
        i = i + 1;
    }
    proof {
        assert(a@ =~= a@.subrange(0, n as int));
        assert(b@ =~= b@.subrange(0, n as int));
    }
    true
}


/// A member of an object: `key` and its value.
pub fn entry(key: &str, value: Json) -> (r: (String, Json))
    ensures
        r.0@ == key@,
        r.1 == value,
{
    (String::from_str(key), value)
}

/// A string document with the characters of `s`.
pub fn text_json(s: &str) -> (r: Json)
    ensures
        r matches Json::Str(t) && t@ == s@,
{
    Json::Str(String::from_str(s))
}

impl MusicData {
    /// The `data` object of a music segment.
    pub fn to_json(&self) -> (r: Json)
        ensures
            music_of(r) == Some(*self),
            r is Object,
            keys_of(r) == music_keys(*self),
    {
        proof {
            reveal_strlit("type");
            reveal_strlit("id");
            reveal_strlit("url");
            reveal_strlit("audio");
            reveal_strlit("title");
            reveal_strlit("image");
        }
        match self {
            MusicData::BuiltIn { kind, id } => {
                let mut f: Vec<(String, Json)> = Vec::new();
                f.push(entry("type", Json::Str(kind.clone())));
                f.push(entry("id", Json::Str(id.clone())));
                let r = Json::Object(f);
                proof {
                    assert(f@[0].0@ == "type"@ && f@[0].0@.len() == 4);
                    lemma_field_first(f@, 0, "type"@);
                    lemma_field_first(f@, 1, "id"@);
                    assert(keys_of(r) =~= seq!["type"@, "id"@]);
                }
                r
            },
            MusicData::Custom { kind, url, audio, title, image } => {
                let mut f: Vec<(String, Json)> = Vec::new();
                f.push(entry("type", Json::Str(kind.clone())));
                f.push(entry("url", Json::Str(url.clone())));
                f.push(entry("audio", Json::Str(audio.clone())));
                f.push(entry("title", Json::Str(title.clone())));
                let img = match image {
                    Some(s) => Json::Str(s.clone()),
                    None => Json::Null,
                };
                f.push(entry("image", img));
                let r = Json::Object(f);
                proof {
                    assert(f@[0].0@ == "type"@ && f@[0].0@.len() == 4);
                    assert(f@[1].0@ == "url"@ && f@[1].0@.len() == 3);
                    assert(f@[2].0@ == "audio"@ && f@[2].0@.len() == 5);
                    assert(f@[3].0@ == "title"@ && f@[3].0@.len() == 5 && f@[3].0@[0] == 't');
                    assert(f@[4].0@ == "image"@ && f@[4].0@.len() == 5 && f@[4].0@[0] == 'i');
                    lemma_field_first(f@, 0, "type"@);
                    lemma_field_first(f@, 1, "url"@);
                    lemma_field_first(f@, 2, "audio"@);
                    lemma_field_first(f@, 3, "title"@);
                    lemma_field_first(f@, 4, "image"@);
                    lemma_field_absent(f@, "id"@);
                    assert(keys_of(r) =~= seq!["type"@, "url"@, "audio"@, "title"@, "image"@]);
                }
                r
            },
        }
    }
}

impl MessageSegment {
    /// The JSON form of this segment.
    pub fn to_json(&self) -> (r: Json)
        ensures
            encodes_segment(*self, r),
    {
        proof {
            reveal_strlit("type");
            reveal_strlit("data");
            reveal_strlit("text");
            reveal_strlit("qq");
            reveal_strlit("file");
            reveal_strlit("id");
            reveal_strlit("at");
            reveal_strlit("image");
            reveal_strlit("face");
            reveal_strlit("json");
            reveal_strlit("record");
            reveal_strlit("video");
            reveal_strlit("reply");
            reveal_strlit("dice");
            reveal_strlit("rps");
            reveal_strlit("music");
        }
        let (kind, data): (&str, Json) = match self {
            MessageSegment::Text { text } => ("text", single("text", Json::Str(text.clone()))),
            MessageSegment::At { qq } => ("at", single("qq", Json::Str(qq.clone()))),
            MessageSegment::Image { file } => ("image", single("file", Json::Str(file.clone()))),
            MessageSegment::Face { id } => ("face", single("id", number_json(*id))),
            MessageSegment::Json { data } => ("json", single("data", Json::Str(data.clone()))),
            MessageSegment::Record { file } => ("record", single("file", Json::Str(file.clone()))),
            MessageSegment::Video { file } => ("video", single("file", Json::Str(file.clone()))),
            MessageSegment::Reply { id } => ("reply", single("id", number_json(*id))),
            MessageSegment::Dice {  } => ("dice", empty_object()),
            MessageSegment::Rps {  } => ("rps", empty_object()),
            MessageSegment::File { file } => ("file", single("file", Json::Str(file.clone()))),
            MessageSegment::Music(m) => ("music", m.to_json()),
        };
        let mut f: Vec<(String, Json)> = Vec::new();
        f.push(entry("type", text_json(kind)));
        f.push(entry("data", data));
        proof {
            assert(f@[0].0@ == "type"@ && f@[0].0@.len() == 4 && f@[0].0@[0] == 't');
            assert(f@[1].0@ == "data"@ && f@[1].0@[0] == 'd');
            lemma_field_first(f@, 0, "type"@);
            lemma_field_first(f@, 1, "data"@);
            assert(keys_of(Json::Object(f)) =~= seq!["type"@, "data"@]);
        }
        Json::Object(f)
    }
}

/// An object with no members.
fn empty_object() -> (r: Json)
    ensures
        r is Object,
        keys_of(r) == Seq::<Seq<char>>::empty(),
{
    let f: Vec<(String, Json)> = Vec::new();
    proof {
        assert(keys_of(Json::Object(f)) =~= Seq::<Seq<char>>::empty());
    }
    Json::Object(f)
}

/// An object with the one member `key`.
fn single(key: &str, value: Json) -> (r: Json)
    ensures
        r is Object,
        member(r, key@) == Some(value),
        keys_of(r) == seq![key@],
{
    let mut f: Vec<(String, Json)> = Vec::new();
    f.push(entry(key, value));
    proof {
        lemma_field_first(f@, 0, key@);
        assert(keys_of(Json::Object(f)) =~= seq![key@]);
    }
    Json::Object(f)
}

/// An `i32` as a JSON number.
fn number_json(v: i32) -> (r: Json)
    ensures
        integer_in(r) == Some(v as int),
{
    Json::from_i64(v as i64)
}

impl Message {
    /// A message with no segments.
    pub fn new() -> (r: Message)
        ensures
            r.segments() == Seq::<MessageSegment>::empty(),
    {
        Message { message: Vec::new() }
    }

    /// The segments of this message, in order.
    pub closed spec fn segments(&self) -> Seq<MessageSegment> {
        self.message@
    }

    /// The segments of this message, in order.
    pub fn get_segments(&self) -> (r: &Vec<MessageSegment>)
        ensures
            r@ == self.segments(),
    {
        &self.message
    }

    /// This message with `seg` appended.
    pub fn with_segment(self, seg: MessageSegment) -> (r: Message)
        ensures
            r.segments() == self.segments().push(seg),
    {
        let mut m = self;
        m.message.push(seg);
        m
    }

    /// This message with a text segment appended.
    pub fn with_text(self, text: &str) -> (r: Message)
        ensures
            r.segments().drop_last() == self.segments(),
            r.segments().last() matches MessageSegment::Text { text: t } && t@ == text@,
            r.segments().len() == self.segments().len() + 1,
    {
        let r = self.with_segment(MessageSegment::Text { text: String::from_str(text) });
        proof {
            assert(r.segments().drop_last() =~= self.segments());
        }
        r
    }

    /// This message with a segment mentioning the user `qq` appended.
    pub fn with_at(self, qq: &str) -> (r: Message)
        ensures
            r.segments().drop_last() == self.segments(),
            r.segments().last() matches MessageSegment::At { qq: t } && t@ == qq@,
            r.segments().len() == self.segments().len() + 1,
    {
        let r = self.with_segment(MessageSegment::At { qq: String::from_str(qq) });
        proof {
            assert(r.segments().drop_last() =~= self.segments());
        }
        r
    }

    /// This message with an image appended (a local path, a URL or base64).
    pub fn with_image(self, file: &str) -> (r: Message)
        ensures
            r.segments().drop_last() == self.segments(),
            r.segments().last() matches MessageSegment::Image { file: t } && t@ == file@,
            r.segments().len() == self.segments().len() + 1,
    {
        let r = self.with_segment(MessageSegment::Image { file: String::from_str(file) });
        proof {
            assert(r.segments().drop_last() =~= self.segments());
        }
        r
    }

    /// This message with the face `id` appended.
    pub fn with_face(self, id: i32) -> (r: Message)
        ensures
            r.segments() == self.segments().push(MessageSegment::Face { id }),
    {
        self.with_segment(MessageSegment::Face { id })
    }

    /// This message with a reply to the message `message_id` appended.
    pub fn with_reply(self, message_id: i32) -> (r: Message)
        ensures
            r.segments() == self.segments().push(MessageSegment::Reply { id: message_id }),
    {
        self.with_segment(MessageSegment::Reply { id: message_id })
    }

    /// This message with a voice recording appended.
    pub fn with_record(self, file: &str) -> (r: Message)
        ensures
            r.segments().drop_last() == self.segments(),
            r.segments().last() matches MessageSegment::Record { file: t } && t@ == file@,
            r.segments().len() == self.segments().len() + 1,
    {
        let r = self.with_segment(MessageSegment::Record { file: String::from_str(file) });
        proof {
            assert(r.segments().drop_last() =~= self.segments());
        }
        r
    }

    /// This message with a video appended.
    pub fn with_video(self, file: &str) -> (r: Message)
        ensures
            r.segments().drop_last() == self.segments(),
            r.segments().last() matches MessageSegment::Video { file: t } && t@ == file@,
            r.segments().len() == self.segments().len() + 1,
    {
        let r = self.with_segment(MessageSegment::Video { file: String::from_str(file) });
        proof {
            assert(r.segments().drop_last() =~= self.segments());
        }
        r
    }

    /// This message with a dice roll appended.
    pub fn with_dice(self) -> (r: Message)
        ensures
            r.segments() == self.segments().push(MessageSegment::Dice {  }),
    {
        self.with_segment(MessageSegment::Dice {  })
    }

    /// This message with a rock-paper-scissors throw appended.
    pub fn with_rps(self) -> (r: Message)
        ensures
            r.segments() == self.segments().push(MessageSegment::Rps {  }),
    {
        self.with_segment(MessageSegment::Rps {  })
    }

    /// This message with a file appended.
    pub fn with_file(self, path: &str) -> (r: Message)
        ensures
            r.segments().drop_last() == self.segments(),
            r.segments().last() matches MessageSegment::File { file: t } && t@ == path@,
            r.segments().len() == self.segments().len() + 1,
    {
        let r = self.with_segment(MessageSegment::File { file: String::from_str(path) });
        proof {
            assert(r.segments().drop_last() =~= self.segments());
        }
        r
    }

    /// The JSON form of this message: the array of its segments' forms.
    pub fn to_json(&self) -> (r: Json)
        ensures
            r matches Json::Array(items) && items@.len() == self.segments().len() && forall|i: int|
                0 <= i < items@.len() ==> encodes_segment(
                    #[trigger] self.segments()[i],
                    items@[i],
                ),
    {
        let mut items: Vec<Json> = Vec::new();
        let mut i: usize = 0;
        while i < self.message.len()
            invariant
                0 <= i <= self.message.len(),
                items@.len() == i,
                forall|k: int| 0 <= k < i ==> encodes_segment(#[trigger] self.message@[k], items@[k]),
            decreases self.message.len() - i,
        {
            let j = self.message[i].to_json();
            items.push(j);
            i = i + 1;
        }
        Json::Array(items)
    }
}
impl MusicData {
    /// A copy of this music data.
    pub fn copy(&self) -> (r: MusicData)
        ensures
            r == *self,
    {
        match self {
            MusicData::BuiltIn { kind, id } => MusicData::BuiltIn { kind: kind.clone(), id: id.clone() },
            MusicData::Custom { kind, url, audio, title, image } => {
                let image = match image {
                    Some(s) => Some(s.clone()),
                    None => None,
                };
                MusicData::Custom {
                    kind: kind.clone(),
                    url: url.clone(),
                    audio: audio.clone(),
                    title: title.clone(),
                    image,
                }
            },
        }
    }
}

impl MessageSegment {
    /// A copy of this segment.
    pub fn copy(&self) -> (r: MessageSegment)
        ensures
            r == *self,
    {
        match self {
            MessageSegment::Text { text } => MessageSegment::Text { text: text.clone() },
            MessageSegment::At { qq } => MessageSegment::At { qq: qq.clone() },
            MessageSegment::Image { file } => MessageSegment::Image { file: file.clone() },
            MessageSegment::Face { id } => MessageSegment::Face { id: *id },
            MessageSegment::Json { data } => MessageSegment::Json { data: data.clone() },
            MessageSegment::Record { file } => MessageSegment::Record { file: file.clone() },
            MessageSegment::Video { file } => MessageSegment::Video { file: file.clone() },
            MessageSegment::Reply { id } => MessageSegment::Reply { id: *id },
            MessageSegment::Dice {  } => MessageSegment::Dice {  },
            MessageSegment::Rps {  } => MessageSegment::Rps {  },
            MessageSegment::File { file } => MessageSegment::File { file: file.clone() },
            MessageSegment::Music(m) => MessageSegment::Music(m.copy()),
        }
    }
}

/// A copy of a run of segments.
pub fn copy_segments(v: &Vec<MessageSegment>) -> (r: Vec<MessageSegment>)
    ensures
        r@ == v@,
{
    let mut out: Vec<MessageSegment> = Vec::new();
    let mut i: usize = 0;
    while i < v.len()
        invariant
            0 <= i <= v.len(),
            out@ == v@.subrange(0, i as int),
        decreases v.len() - i,
    {
        out.push(v[i].copy());
        proof {
            assert(out@ =~= v@.subrange(0, i as int + 1));
        }
        i = i + 1;
    }
    proof {
        assert(out@ =~= v@);
    }
    out
}

} // verus!
