//! The event taxonomy of the gateway and its decoding from JSON: a first
//! pass reads the discriminators (`post_type`, then `message_type` or
//! `meta_event_type`), a second reads the payload of the kind they name.
//! A frame of an unknown kind, or whose payload does not fit its kind,
//! decodes to `AnyEvent::Other`, so the event stream never stops on it.

use crate::bus::{BusView, SignalHub, SignalPort};
use crate::json::{integer_in, member, Json};
use crate::message::{
    copy_segments, segments_of, str_member, str_member_of, text_of_member, MessageSegment,
};
use vstd::prelude::*;

verus! {

#[derive(Debug, Clone, PartialEq)]
pub struct SenderInfo {
    pub user_id: i64,
    pub nickname: String,
    pub card: String,
}

#[derive(Debug, Clone, PartialEq)]
pub struct PrivateMessageEvent {
    pub message_id: i64,
    pub self_id: i64,
    pub time: i64,
    pub raw_message: String,
    pub sender: SenderInfo,
    pub message: Vec<MessageSegment>,
}

#[derive(Debug, Clone, PartialEq)]
pub struct GroupMessageEvent {
    pub group_id: i64,
    pub message_id: i64,
    pub self_id: i64,
    pub time: i64,
    pub group_name: String,
    pub raw_message: String,
    pub sender: SenderInfo,
    pub message: Vec<MessageSegment>,
}

/// The fields that private and group messages share.
#[derive(Debug, Clone, PartialEq)]
pub struct BaseMessageEvent {
    pub message_id: i64,
    pub self_id: i64,
    pub time: i64,
    pub raw_message: String,
    pub sender: SenderInfo,
    pub message: Vec<MessageSegment>,
}

#[derive(Debug, Clone, PartialEq)]
pub enum MessageEvent {
    Group(GroupMessageEvent),
    Private(PrivateMessageEvent),
}

#[derive(Debug, Clone, PartialEq)]
pub struct LifeCycleEvent {
    pub self_id: i64,
    pub sub_type: String,
    pub time: i64,
}

#[derive(Debug, Clone, Copy, PartialEq, Eq)]
pub struct HeartBeatStatus {
    pub good: bool,
    pub online: bool,
}

#[derive(Debug, Clone, PartialEq)]
pub struct HeartBeatEvent {
    pub interval: i64,
    pub self_id: i64,
    pub status: HeartBeatStatus,
    pub time: i64,
}

#[derive(Debug, Clone, PartialEq)]
pub enum MetaEvent {
    LifeCycle(LifeCycleEvent),
    HeartBeat(HeartBeatEvent),
}

#[derive(Debug, Clone, PartialEq)]
pub struct NoticeEvent {
    pub group_id: u64,
    pub notice_type: String,
    pub self_id: u64,
    pub status_text: String,
    pub time: u64,
    pub user_id: u64,
}

/// Any event the gateway pushes.
#[derive(Debug, Clone, PartialEq)]
pub enum AnyEvent {
    Message(MessageEvent),
    Meta(MetaEvent),
    Notice(NoticeEvent),
    /// An event of a kind this library does not know, or malformed.
    Other,
}

// ---- what a frame decodes to ----

pub open spec fn i64_member(j: Json, key: Seq<char>) -> Option<i64> {
    match member(j, key) {
        Some(v) => match integer_in(v) {
            Some(n) => if i64::MIN <= n <= i64::MAX {
                Some(n as i64)
            } else {
                None
            },
            None => None,
        },
        None => None,
    }
}

pub open spec fn u64_member(j: Json, key: Seq<char>) -> Option<u64> {
    match member(j, key) {
        Some(v) => match integer_in(v) {
            Some(n) => if 0 <= n <= u64::MAX {
                Some(n as u64)
            } else {
                None
            },
            None => None,
        },
        None => None,
    }
}

pub open spec fn bool_member(j: Json, key: Seq<char>) -> Option<bool> {
    match member(j, key) {
        Some(Json::Bool(b)) => Some(b),
        _ => None,
    }
}

pub open spec fn sender_of(j: Json) -> Option<SenderInfo> {
    match member(j, "sender"@) {
        Some(s) => match (
            i64_member(s, "user_id"@),
            str_member(s, "nickname"@),
            str_member(s, "card"@),
        ) {
            (Some(user_id), Some(nickname), Some(card)) => Some(
                SenderInfo { user_id, nickname, card },
            ),
            _ => None,
        },
        None => None,
    }
}

/// The segments of the `message` array of `j`, where each is well-formed.
pub open spec fn message_of(j: Json) -> Option<Seq<MessageSegment>> {
    match member(j, "message"@) {
        Some(Json::Array(items)) => segments_of(items@),
        _ => None,
    }
}

/// The fields shared by both kinds of message are all present and well-formed.
pub open spec fn base_valid(j: Json) -> bool {
    &&& i64_member(j, "message_id"@) is Some
    &&& i64_member(j, "self_id"@) is Some
    &&& i64_member(j, "time"@) is Some
    &&& str_member(j, "raw_message"@) is Some
    &&& sender_of(j) is Some
    &&& message_of(j) is Some
}

pub open spec fn private_valid(j: Json) -> bool {
    base_valid(j)
}

pub open spec fn group_valid(j: Json) -> bool {
    &&& base_valid(j)
    &&& i64_member(j, "group_id"@) is Some
    &&& str_member(j, "group_name"@) is Some
}

/// `e` holds the private-message fields of `j`.
pub open spec fn private_matches(j: Json, e: PrivateMessageEvent) -> bool {
    &&& i64_member(j, "message_id"@) == Some(e.message_id)
    &&& i64_member(j, "self_id"@) == Some(e.self_id)
    &&& i64_member(j, "time"@) == Some(e.time)
    &&& str_member(j, "raw_message"@) == Some(e.raw_message)
    &&& sender_of(j) == Some(e.sender)
    &&& message_of(j) == Some(e.message@)
}

/// `e` holds the group-message fields of `j`.
pub open spec fn group_matches(j: Json, e: GroupMessageEvent) -> bool {
    &&& i64_member(j, "group_id"@) == Some(e.group_id)
    &&& i64_member(j, "message_id"@) == Some(e.message_id)
    &&& i64_member(j, "self_id"@) == Some(e.self_id)
    &&& i64_member(j, "time"@) == Some(e.time)
    &&& str_member(j, "group_name"@) == Some(e.group_name)
    &&& str_member(j, "raw_message"@) == Some(e.raw_message)
    &&& sender_of(j) == Some(e.sender)
    &&& message_of(j) == Some(e.message@)
}

pub open spec fn lifecycle_of(j: Json) -> Option<LifeCycleEvent> {
    match (i64_member(j, "self_id"@), str_member(j, "sub_type"@), i64_member(j, "time"@)) {
        (Some(self_id), Some(sub_type), Some(time)) => Some(
            LifeCycleEvent { self_id, sub_type, time },
        ),
        _ => None,
    }
}

pub open spec fn status_of(j: Json) -> Option<HeartBeatStatus> {
    match member(j, "status"@) {
        Some(s) => match (bool_member(s, "good"@), bool_member(s, "online"@)) {
            (Some(good), Some(online)) => Some(HeartBeatStatus { good, online }),
            _ => None,
        },
        None => None,
    }
}

pub open spec fn heartbeat_of(j: Json) -> Option<HeartBeatEvent> {
    match (
        i64_member(j, "interval"@),
        i64_member(j, "self_id"@),
        status_of(j),
        i64_member(j, "time"@),
    ) {
        (Some(interval), Some(self_id), Some(status), Some(time)) => Some(
            HeartBeatEvent { interval, self_id, status, time },
        ),
        _ => None,
    }
}

pub open spec fn notice_of(j: Json) -> Option<NoticeEvent> {
    match (
        u64_member(j, "group_id"@),
        str_member(j, "notice_type"@),
        u64_member(j, "self_id"@),
        str_member(j, "status_text"@),
        u64_member(j, "time"@),
        u64_member(j, "user_id"@),
    ) {
        (
            Some(group_id),
            Some(notice_type),
            Some(self_id),
            Some(status_text),
            Some(time),
            Some(user_id),
        ) => Some(NoticeEvent { group_id, notice_type, self_id, status_text, time, user_id }),
        _ => None,
    }
}

/// The kind of event a frame names, from its discriminators alone.
pub enum EventKind {
    Private,
    Group,
    LifeCycle,
    HeartBeat,
    Notice,
    Unknown,
}

pub open spec fn kind_of(j: Json) -> EventKind {
    let post = text_of_member(j, "post_type"@);
    if post == Some("message"@) {
        let sub = text_of_member(j, "message_type"@);
        if sub == Some("private"@) {
            EventKind::Private
        } else if sub == Some("group"@) {
            EventKind::Group
        } else {
            EventKind::Unknown
        }
    } else if post == Some("meta_event"@) {
        let sub = text_of_member(j, "meta_event_type"@);
        if sub == Some("lifecycle"@) {
            EventKind::LifeCycle
        } else if sub == Some("heartbeat"@) {
            EventKind::HeartBeat
        } else {
            EventKind::Unknown
        }
    } else if post == Some("notice"@) {
        EventKind::Notice
    } else {
        EventKind::Unknown
    }
}

/// `e` is what the frame `j` decodes to.
pub open spec fn decodes_to(j: Json, e: AnyEvent) -> bool {
    match kind_of(j) {
        EventKind::Private => if private_valid(j) {
            e matches AnyEvent::Message(MessageEvent::Private(p)) && private_matches(j, p)
        } else {
            e is Other
        },
        EventKind::Group => if group_valid(j) {
            e matches AnyEvent::Message(MessageEvent::Group(g)) && group_matches(j, g)
        } else {
            e is Other
        },
        EventKind::LifeCycle => match lifecycle_of(j) {
            Some(l) => e == AnyEvent::Meta(MetaEvent::LifeCycle(l)),
            None => e is Other,
        },
        EventKind::HeartBeat => match heartbeat_of(j) {
            Some(h) => e == AnyEvent::Meta(MetaEvent::HeartBeat(h)),
            None => e is Other,
        },
        EventKind::Notice => match notice_of(j) {
            Some(n) => e == AnyEvent::Notice(n),
            None => e is Other,
        },
        EventKind::Unknown => e is Other,
    }
}

// ---- structural equality ----

impl PrivateMessageEvent {
    pub open spec fn same(&self, o: &PrivateMessageEvent) -> bool {
        &&& self.message_id == o.message_id
        &&& self.self_id == o.self_id
        &&& self.time == o.time
        &&& self.raw_message == o.raw_message
        &&& self.sender == o.sender
        &&& self.message@ == o.message@
    }
}

impl GroupMessageEvent {
    pub open spec fn same(&self, o: &GroupMessageEvent) -> bool {
        &&& self.group_id == o.group_id
        &&& self.message_id == o.message_id
        &&& self.self_id == o.self_id
        &&& self.time == o.time
        &&& self.group_name == o.group_name
        &&& self.raw_message == o.raw_message
        &&& self.sender == o.sender
        &&& self.message@ == o.message@
    }
}

impl AnyEvent {
    /// The two events hold the same values, field for field.
    pub open spec fn same(&self, o: &AnyEvent) -> bool {
        match (*self, *o) {
            (
                AnyEvent::Message(MessageEvent::Private(a)),
                AnyEvent::Message(MessageEvent::Private(b)),
            ) => a.same(&b),
            (
                AnyEvent::Message(MessageEvent::Group(a)),
                AnyEvent::Message(MessageEvent::Group(b)),
            ) => a.same(&b),
            (AnyEvent::Message(_), _) => false,
            (_, AnyEvent::Message(_)) => false,
            _ => *self == *o,
        }
    }
}

/// Decoding is a function of the frame: two decodings of one frame hold the
/// same values, field for field.
pub proof fn lemma_decode_deterministic(j: Json, a: AnyEvent, b: AnyEvent)
    requires
        decodes_to(j, a),
        decodes_to(j, b),
    ensures
        a.same(&b),
{
}

/// A frame whose `post_type`, or whose `message_type` under a message, is
/// not a kind this library knows decodes to the catch-all.
pub proof fn lemma_unknown_kind_is_other(j: Json, e: AnyEvent)
    requires
        decodes_to(j, e),
        text_of_member(j, "post_type"@) != Some("message"@) && text_of_member(j, "post_type"@)
            != Some("meta_event"@) && text_of_member(j, "post_type"@) != Some("notice"@) || (
        text_of_member(j, "post_type"@) == Some("message"@) && text_of_member(
            j,
            "message_type"@,
        ) != Some("private"@) && text_of_member(j, "message_type"@) != Some("group"@)),
    ensures
        e is Other,
{
}

// ---- decoding ----

pub fn i64_member_of(j: &Json, key: &str) -> (r: Option<i64>)
    ensures
        r == i64_member(*j, key@),
{
    match j.get(key) {
        Some(Json::Num(t)) => crate::decimal::parse_i64(t.as_str()),
        _ => None,
    }
}

pub fn u64_member_of(j: &Json, key: &str) -> (r: Option<u64>)
    ensures
        r == u64_member(*j, key@),
{
    match j.get(key) {
        Some(Json::Num(t)) => crate::decimal::parse_u64(t.as_str()),
        _ => None,
    }
}

pub fn bool_member_of(j: &Json, key: &str) -> (r: Option<bool>)
    ensures
        r == bool_member(*j, key@),
{
    match j.get(key) {
        Some(Json::Bool(b)) => Some(*b),
        _ => None,
    }
}

/// Whether member `key` of `j` is the string `lit`.
pub fn member_is(j: &Json, key: &str, lit: &str) -> (r: bool)
    ensures
        r == (text_of_member(*j, key@) == Some(lit@)),
{
    match j.get(key) {
        Some(Json::Str(s)) => crate::message::str_is(s.as_str(), lit),
        _ => false,
    }
}

proof fn lemma_segments_prefix(items: Seq<Json>, k: int)
    requires
        0 <= k <= items.len(),
        segments_of(items.subrange(0, k)) is None,
    ensures
        segments_of(items) is None,
    decreases items.len() - k,
{
    if k < items.len() {
        let p = items.subrange(0, k + 1);
        assert(p.drop_last() =~= items.subrange(0, k));
        lemma_segments_prefix(items, k + 1);
    } else {
        assert(items.subrange(0, k) =~= items);
    }
}

/// Reads each item of a JSON array as a segment; fails if any is malformed.
pub fn segments_from(items: &Vec<Json>) -> (r: Option<Vec<MessageSegment>>)
    ensures
        r is Some == segments_of(items@) is Some,
        r is Some ==> r.unwrap()@ == segments_of(items@).unwrap(),
{
    let mut out: Vec<MessageSegment> = Vec::new();
    let mut i: usize = 0;
    while i < items.len()
        invariant
            0 <= i <= items.len(),
            segments_of(items@.subrange(0, i as int)) == Some(out@),
        decreases items.len() - i,
    {
        let p = Ghost(items@.subrange(0, i as int + 1));
        proof {
            assert(p@.drop_last() =~= items@.subrange(0, i as int));
            assert(p@.last() == items@[i as int]);
        }
        match MessageSegment::from_json(&items[i]) {
            Some(seg) => {
                out.push(seg);
            },
            None => {
                proof {
                    lemma_segments_prefix(items@, i as int + 1);
                }
                return None;
            },
        }
        i = i + 1;
    }
    proof {
        assert(items@.subrange(0, items.len() as int) =~= items@);
    }
    Some(out)
}

fn message_from(j: &Json) -> (r: Option<Vec<MessageSegment>>)
    ensures
        r is Some == message_of(*j) is Some,
        r is Some ==> r.unwrap()@ == message_of(*j).unwrap(),
{
    match j.get("message") {
        Some(Json::Array(items)) => segments_from(items),
        _ => None,
    }
}

impl SenderInfo {
    /// Reads the `sender` object of a message frame.
    pub fn from_json(j: &Json) -> (r: Option<SenderInfo>)
        ensures
            r == sender_of(*j),
    {
        let s = match j.get("sender") {
            Some(s) => s,
            None => {
                return None;
            },
        };
        let user_id = i64_member_of(s, "user_id");
        let nickname = str_member_of(s, "nickname");
        let card = str_member_of(s, "card");
        match (user_id, nickname, card) {
            (Some(user_id), Some(nickname), Some(card)) => Some(
                SenderInfo { user_id, nickname, card },
            ),
            _ => None,
        }
    }
}

impl PrivateMessageEvent {
    /// Reads the payload of a private-message frame.
    pub fn from_json(j: &Json) -> (r: Option<PrivateMessageEvent>)
        ensures
            r is Some == private_valid(*j),
            r matches Some(e) ==> private_matches(*j, e),
    {
        let message_id = i64_member_of(j, "message_id");
        let self_id = i64_member_of(j, "self_id");
        let time = i64_member_of(j, "time");
        let raw_message = str_member_of(j, "raw_message");
        let sender = SenderInfo::from_json(j);
        let message = message_from(j);
        match (message_id, self_id, time, raw_message, sender, message) {
            (
                Some(message_id),
                Some(self_id),
                Some(time),
                Some(raw_message),
                Some(sender),
                Some(message),
            ) => Some(
                PrivateMessageEvent { message_id, self_id, time, raw_message, sender, message },
            ),
            _ => None,
        }
    }
}

impl GroupMessageEvent {
    /// Reads the payload of a group-message frame.
    pub fn from_json(j: &Json) -> (r: Option<GroupMessageEvent>)
        ensures
            r is Some == group_valid(*j),
            r matches Some(e) ==> group_matches(*j, e),
    {
        let group_id = i64_member_of(j, "group_id");
        let group_name = str_member_of(j, "group_name");
        let base = PrivateMessageEvent::from_json(j);
        match (group_id, group_name, base) {
            (Some(group_id), Some(group_name), Some(b)) => Some(
                GroupMessageEvent {
                    group_id,
                    message_id: b.message_id,
                    self_id: b.self_id,
                    time: b.time,
                    group_name,
                    raw_message: b.raw_message,
                    sender: b.sender,
                    message: b.message,
                },
            ),
            _ => None,
        }
    }
}

impl LifeCycleEvent {
    pub fn from_json(j: &Json) -> (r: Option<LifeCycleEvent>)
        ensures
            r == lifecycle_of(*j),
    {
        match (i64_member_of(j, "self_id"), str_member_of(j, "sub_type"), i64_member_of(j, "time")) {
            (Some(self_id), Some(sub_type), Some(time)) => Some(
                LifeCycleEvent { self_id, sub_type, time },
            ),
            _ => None,
        }
    }
}

impl HeartBeatEvent {
    pub fn from_json(j: &Json) -> (r: Option<HeartBeatEvent>)
        ensures
            r == heartbeat_of(*j),
    {
        let status = match j.get("status") {
            Some(s) => match (bool_member_of(s, "good"), bool_member_of(s, "online")) {
                (Some(good), Some(online)) => Some(HeartBeatStatus { good, online }),
                _ => None,
            },
            None => None,
        };
        match (i64_member_of(j, "interval"), i64_member_of(j, "self_id"), status, i64_member_of(j, "time")) {
            (Some(interval), Some(self_id), Some(status), Some(time)) => Some(
                HeartBeatEvent { interval, self_id, status, time },
            ),
            _ => None,
        }
    }
}

impl NoticeEvent {
    pub fn from_json(j: &Json) -> (r: Option<NoticeEvent>)
        ensures
            r == notice_of(*j),
    {
        match (
            u64_member_of(j, "group_id"),
            str_member_of(j, "notice_type"),
            u64_member_of(j, "self_id"),
            str_member_of(j, "status_text"),
            u64_member_of(j, "time"),
            u64_member_of(j, "user_id"),
        ) {
            (
                Some(group_id),
                Some(notice_type),
                Some(self_id),
                Some(status_text),
                Some(time),
                Some(user_id),
            ) => Some(NoticeEvent { group_id, notice_type, self_id, status_text, time, user_id }),
            _ => None,
        }
    }
}

impl AnyEvent {
    /// Decodes an event frame; an unknown or malformed one gives `Other`.
    pub fn from_json(j: &Json) -> (r: AnyEvent)
        ensures
            decodes_to(*j, r),
    {
        if member_is(j, "post_type", "message") {
            if member_is(j, "message_type", "private") {
                match PrivateMessageEvent::from_json(j) {
                    Some(p) => AnyEvent::Message(MessageEvent::Private(p)),
                    None => AnyEvent::Other,
                }
            } else if member_is(j, "message_type", "group") {
                match GroupMessageEvent::from_json(j) {
                    Some(g) => AnyEvent::Message(MessageEvent::Group(g)),
                    None => AnyEvent::Other,
                }
            } else {
                AnyEvent::Other
            }
        } else if member_is(j, "post_type", "meta_event") {
            if member_is(j, "meta_event_type", "lifecycle") {
                match LifeCycleEvent::from_json(j) {
                    Some(l) => AnyEvent::Meta(MetaEvent::LifeCycle(l)),
                    None => AnyEvent::Other,
                }
            } else if member_is(j, "meta_event_type", "heartbeat") {
                match HeartBeatEvent::from_json(j) {
                    Some(h) => AnyEvent::Meta(MetaEvent::HeartBeat(h)),
                    None => AnyEvent::Other,
                }
            } else {
                AnyEvent::Other
            }
        } else if member_is(j, "post_type", "notice") {
            match NoticeEvent::from_json(j) {
                Some(n) => AnyEvent::Notice(n),
                None => AnyEvent::Other,
            }
        } else {
            AnyEvent::Other
        }
    }
}

// ---- copies ----

impl SenderInfo {
    pub fn copy(&self) -> (r: SenderInfo)
        ensures
            r == *self,
    {
        SenderInfo { user_id: self.user_id, nickname: self.nickname.clone(), card: self.card.clone() }
    }
}

impl PrivateMessageEvent {
    pub fn copy(&self) -> (r: PrivateMessageEvent)
        ensures
            r.same(self),
    {
        PrivateMessageEvent {
            message_id: self.message_id,
            self_id: self.self_id,
            time: self.time,
            raw_message: self.raw_message.clone(),
            sender: self.sender.copy(),
            message: copy_segments(&self.message),
        }
    }
}

impl GroupMessageEvent {
    pub fn copy(&self) -> (r: GroupMessageEvent)
        ensures
            r.same(self),
    {
        GroupMessageEvent {
            group_id: self.group_id,
            message_id: self.message_id,
            self_id: self.self_id,
            time: self.time,
            group_name: self.group_name.clone(),
            raw_message: self.raw_message.clone(),
            sender: self.sender.copy(),
            message: copy_segments(&self.message),
        }
    }
}

impl LifeCycleEvent {
    pub fn copy(&self) -> (r: LifeCycleEvent)
        ensures
            r == *self,
    {
        LifeCycleEvent { self_id: self.self_id, sub_type: self.sub_type.clone(), time: self.time }
    }
}

impl HeartBeatEvent {
    pub fn copy(&self) -> (r: HeartBeatEvent)
        ensures
            r == *self,
    {
        HeartBeatEvent {
            interval: self.interval,
            self_id: self.self_id,
            status: self.status,
            time: self.time,
        }
    }
}

impl From<PrivateMessageEvent> for BaseMessageEvent {
    fn from(value: PrivateMessageEvent) -> BaseMessageEvent {
        BaseMessageEvent {
            message_id: value.message_id,
            self_id: value.self_id,
            time: value.time,
            raw_message: value.raw_message,
            sender: value.sender,
            message: value.message,
        }
    }
}

impl vstd::std_specs::convert::FromSpecImpl<PrivateMessageEvent> for BaseMessageEvent {
    open spec fn obeys_from_spec() -> bool {
        true
    }

    open spec fn from_spec(value: PrivateMessageEvent) -> BaseMessageEvent {
        BaseMessageEvent {
            message_id: value.message_id,
            self_id: value.self_id,
            time: value.time,
            raw_message: value.raw_message,
            sender: value.sender,
            message: value.message,
        }
    }
}

impl From<GroupMessageEvent> for BaseMessageEvent {
    fn from(value: GroupMessageEvent) -> BaseMessageEvent {
        BaseMessageEvent {
            message_id: value.message_id,
            self_id: value.self_id,
            time: value.time,
            raw_message: value.raw_message,
            sender: value.sender,
            message: value.message,
        }
    }
}

impl vstd::std_specs::convert::FromSpecImpl<GroupMessageEvent> for BaseMessageEvent {
    open spec fn obeys_from_spec() -> bool {
        true
    }

    open spec fn from_spec(value: GroupMessageEvent) -> BaseMessageEvent {
        BaseMessageEvent {
            message_id: value.message_id,
            self_id: value.self_id,
            time: value.time,
            raw_message: value.raw_message,
            sender: value.sender,
            message: value.message,
        }
    }
}

impl From<PrivateMessageEvent> for MessageEvent {
    fn from(value: PrivateMessageEvent) -> MessageEvent {
        MessageEvent::Private(value)
    }
}

impl vstd::std_specs::convert::FromSpecImpl<PrivateMessageEvent> for MessageEvent {
    open spec fn obeys_from_spec() -> bool {
        true
    }

    open spec fn from_spec(value: PrivateMessageEvent) -> MessageEvent {
        MessageEvent::Private(value)
    }
}

impl From<GroupMessageEvent> for MessageEvent {
    fn from(value: GroupMessageEvent) -> MessageEvent {
        MessageEvent::Group(value)
    }
}

impl vstd::std_specs::convert::FromSpecImpl<GroupMessageEvent> for MessageEvent {
    open spec fn obeys_from_spec() -> bool {
        true
    }

    open spec fn from_spec(value: GroupMessageEvent) -> MessageEvent {
        MessageEvent::Group(value)
    }
}

// ---- fan-out ----

/// The buses decoded events are published on: one for every event, and one
/// for each kind that subscribers ask for by name.
pub struct EventHubs {
    all_event_hub: SignalHub<AnyEvent>,
    private_message_hub: SignalHub<PrivateMessageEvent>,
    group_message_hub: SignalHub<GroupMessageEvent>,
    heartbeat_hub: SignalHub<HeartBeatEvent>,
    lifecycle_hub: SignalHub<LifeCycleEvent>,
}

/// Each bus is well-formed, open, and has room for one more broadcast.
pub open spec fn hub_ready<T>(v: BusView<T>) -> bool {
    v.wf() && !v.closed && v.next() < u64::MAX
}

/// `after` is `before` with one more message broadcast, which holds the
/// same values as `e`.
pub open spec fn published_private(before: BusView<PrivateMessageEvent>, after: BusView<PrivateMessageEvent>, e: PrivateMessageEvent) -> bool {
    if before.ports > 0 && !before.closed {
        after.window.len() > 0 && after == before.publish(after.window.last()) && after.window.last().same(&e)
    } else {
        after == before
    }
}

pub open spec fn published_group(before: BusView<GroupMessageEvent>, after: BusView<GroupMessageEvent>, e: GroupMessageEvent) -> bool {
    if before.ports > 0 && !before.closed {
        after.window.len() > 0 && after == before.publish(after.window.last()) && after.window.last().same(&e)
    } else {
        after == before
    }
}

/// `after` is `before` with `e` broadcast on the all-events bus and, for a
/// message, heartbeat or lifecycle event, its payload on the bus of its kind;
/// every other bus is unchanged. A bus with no live port keeps nothing.
pub open spec fn dispatched(before: EventHubs, after: EventHubs, e: AnyEvent) -> bool {
    &&& after.all_events() == before.all_events().broadcast(e)
    &&& match e {
        AnyEvent::Message(MessageEvent::Private(p)) => published_private(
            before.private_messages(),
            after.private_messages(),
            p,
        ),
        _ => after.private_messages() == before.private_messages(),
    }
    &&& match e {
        AnyEvent::Message(MessageEvent::Group(g)) => published_group(
            before.group_messages(),
            after.group_messages(),
            g,
        ),
        _ => after.group_messages() == before.group_messages(),
    }
    &&& match e {
        AnyEvent::Meta(MetaEvent::HeartBeat(h)) => after.heartbeats() == before.heartbeats().broadcast(h),
        _ => after.heartbeats() == before.heartbeats(),
    }
    &&& match e {
        AnyEvent::Meta(MetaEvent::LifeCycle(l)) => after.lifecycles() == before.lifecycles().broadcast(l),
        _ => after.lifecycles() == before.lifecycles(),
    }
}

impl EventHubs {
    pub closed spec fn all_events(&self) -> BusView<AnyEvent> {
        self.all_event_hub@
    }

    pub closed spec fn private_messages(&self) -> BusView<PrivateMessageEvent> {
        self.private_message_hub@
    }

    pub closed spec fn group_messages(&self) -> BusView<GroupMessageEvent> {
        self.group_message_hub@
    }

    pub closed spec fn heartbeats(&self) -> BusView<HeartBeatEvent> {
        self.heartbeat_hub@
    }

    pub closed spec fn lifecycles(&self) -> BusView<LifeCycleEvent> {
        self.lifecycle_hub@
    }

    pub open spec fn wf(&self) -> bool {
        &&& self.all_events().wf() && !self.all_events().closed
        &&& self.private_messages().wf() && !self.private_messages().closed
        &&& self.group_messages().wf() && !self.group_messages().closed
        &&& self.heartbeats().wf() && !self.heartbeats().closed
        &&& self.lifecycles().wf() && !self.lifecycles().closed
    }

    /// Every bus has room for one more broadcast.
    pub open spec fn ready(&self) -> bool {
        &&& hub_ready(self.all_events())
        &&& hub_ready(self.private_messages())
        &&& hub_ready(self.group_messages())
        &&& hub_ready(self.heartbeats())
        &&& hub_ready(self.lifecycles())
    }

    pub fn new() -> (r: EventHubs)
        ensures
            r.wf(),
            r.ready(),
            r.all_events().next() == 0 && r.all_events().ports == 0,
            r.private_messages().next() == 0 && r.private_messages().ports == 0,
            r.group_messages().next() == 0 && r.group_messages().ports == 0,
            r.heartbeats().next() == 0 && r.heartbeats().ports == 0,
            r.lifecycles().next() == 0 && r.lifecycles().ports == 0,
    {
        EventHubs {
            all_event_hub: SignalHub::new(),
            private_message_hub: SignalHub::new(),
            group_message_hub: SignalHub::new(),
            heartbeat_hub: SignalHub::new(),
            lifecycle_hub: SignalHub::new(),
        }
    }

    /// Whether every bus has room for one more broadcast.
    pub fn is_ready(&self) -> (r: bool)
        requires
            self.wf(),
        ensures
            r == self.ready(),
    {
        self.all_event_hub.next_seq() < u64::MAX && self.private_message_hub.next_seq() < u64::MAX
            && self.group_message_hub.next_seq() < u64::MAX && self.heartbeat_hub.next_seq()
            < u64::MAX && self.lifecycle_hub.next_seq() < u64::MAX
    }

    /// Publishes `e` on the all-events bus and, for a message, heartbeat or
    /// lifecycle event, a copy of its payload on the bus of its kind.
    pub fn dispatch(&mut self, e: AnyEvent)
        requires
            old(self).wf(),
            old(self).ready(),
        ensures
            final(self).wf(),
            dispatched(*old(self), *final(self), e),
    {
        match &e {
            AnyEvent::Message(MessageEvent::Private(p)) => {
                let c = p.copy();
                let _ = self.private_message_hub.send(c);
            },
            AnyEvent::Message(MessageEvent::Group(g)) => {
                let c = g.copy();
                let _ = self.group_message_hub.send(c);
            },
            AnyEvent::Meta(MetaEvent::HeartBeat(h)) => {
                let c = h.copy();
                let _ = self.heartbeat_hub.send(c);
            },
            AnyEvent::Meta(MetaEvent::LifeCycle(l)) => {
                let c = l.copy();
                let _ = self.lifecycle_hub.send(c);
            },
            _ => {},
        }
        let _ = self.all_event_hub.send(e);
    }

    /// A new port onto the bus of this kind; it counts as a live receiver.
    pub fn get_all_event_port(&mut self) -> (r: SignalPort)
        requires
            old(self).wf(),
            old(self).all_events().ports < u64::MAX,
        ensures
            final(self).wf(),
            r.position() == old(self).all_events().next(),
            final(self).all_events() == (BusView { ports: old(self).all_events().ports + 1, ..old(self).all_events() }),
            final(self).private_messages() == old(self).private_messages(),
            final(self).group_messages() == old(self).group_messages(),
            final(self).heartbeats() == old(self).heartbeats(),
            final(self).lifecycles() == old(self).lifecycles(),
    {
        self.all_event_hub.get_port()
    }

    /// A new port onto the bus of this kind; it counts as a live receiver.
    pub fn get_private_message_port(&mut self) -> (r: SignalPort)
        requires
            old(self).wf(),
            old(self).private_messages().ports < u64::MAX,
        ensures
            final(self).wf(),
            r.position() == old(self).private_messages().next(),
            final(self).private_messages() == (BusView { ports: old(self).private_messages().ports + 1, ..old(self).private_messages() }),
            final(self).all_events() == old(self).all_events(),
            final(self).group_messages() == old(self).group_messages(),
            final(self).heartbeats() == old(self).heartbeats(),
            final(self).lifecycles() == old(self).lifecycles(),
    {
        self.private_message_hub.get_port()
    }

    /// A new port onto the bus of this kind; it counts as a live receiver.
    pub fn get_group_message_port(&mut self) -> (r: SignalPort)
        requires
            old(self).wf(),
            old(self).group_messages().ports < u64::MAX,
        ensures
            final(self).wf(),
            r.position() == old(self).group_messages().next(),
            final(self).group_messages() == (BusView { ports: old(self).group_messages().ports + 1, ..old(self).group_messages() }),
            final(self).all_events() == old(self).all_events(),
            final(self).private_messages() == old(self).private_messages(),
            final(self).heartbeats() == old(self).heartbeats(),
            final(self).lifecycles() == old(self).lifecycles(),
    {
        self.group_message_hub.get_port()
    }

    /// A new port onto the bus of this kind; it counts as a live receiver.
    pub fn get_heartbeat_port(&mut self) -> (r: SignalPort)
        requires
            old(self).wf(),
            old(self).heartbeats().ports < u64::MAX,
        ensures
            final(self).wf(),
            r.position() == old(self).heartbeats().next(),
            final(self).heartbeats() == (BusView { ports: old(self).heartbeats().ports + 1, ..old(self).heartbeats() }),
            final(self).all_events() == old(self).all_events(),
            final(self).private_messages() == old(self).private_messages(),
            final(self).group_messages() == old(self).group_messages(),
            final(self).lifecycles() == old(self).lifecycles(),
    {
        self.heartbeat_hub.get_port()
    }

    /// A new port onto the bus of this kind; it counts as a live receiver.
    pub fn get_lifecycle_port(&mut self) -> (r: SignalPort)
        requires
            old(self).wf(),
            old(self).lifecycles().ports < u64::MAX,
        ensures
            final(self).wf(),
            r.position() == old(self).lifecycles().next(),
            final(self).lifecycles() == (BusView { ports: old(self).lifecycles().ports + 1, ..old(self).lifecycles() }),
            final(self).all_events() == old(self).all_events(),
            final(self).private_messages() == old(self).private_messages(),
            final(self).group_messages() == old(self).group_messages(),
            final(self).heartbeats() == old(self).heartbeats(),
    {
        self.lifecycle_hub.get_port()
    }

    pub fn all_event_hub(&self) -> (r: &SignalHub<AnyEvent>)
        ensures
            r@ == self.all_events(),
    {
        &self.all_event_hub
    }

    pub fn private_message_hub(&self) -> (r: &SignalHub<PrivateMessageEvent>)
        ensures
            r@ == self.private_messages(),
    {
        &self.private_message_hub
    }

    pub fn group_message_hub(&self) -> (r: &SignalHub<GroupMessageEvent>)
        ensures
            r@ == self.group_messages(),
    {
        &self.group_message_hub
    }

    pub fn heartbeat_hub(&self) -> (r: &SignalHub<HeartBeatEvent>)
        ensures
            r@ == self.heartbeats(),
    {
        &self.heartbeat_hub
    }

    pub fn lifecycle_hub(&self) -> (r: &SignalHub<LifeCycleEvent>)
        ensures
            r@ == self.lifecycles(),
    {
        &self.lifecycle_hub
    }
}

/// The handle plugins subscribe through: the event buses.
pub type EventNexus = EventHubs;

/// Decodes raw event frames and fans them out over the event buses.
pub struct EventManager {
    hubs: EventHubs,
}

impl EventManager {
    pub closed spec fn hubs(&self) -> EventHubs {
        self.hubs
    }

    pub fn new() -> (r: EventManager)
        ensures
            r.hubs().wf(),
            r.hubs().ready(),
            r.hubs().all_events().next() == 0,
            r.hubs().private_messages().next() == 0,
            r.hubs().group_messages().next() == 0,
            r.hubs().heartbeats().next() == 0,
            r.hubs().lifecycles().next() == 0,
            r.hubs().all_events().ports == 0,
            r.hubs().private_messages().ports == 0,
            r.hubs().group_messages().ports == 0,
            r.hubs().heartbeats().ports == 0,
            r.hubs().lifecycles().ports == 0,
    {
        EventManager { hubs: EventHubs::new() }
    }

    /// A new port onto this manager's bus of that kind.
    pub fn get_all_event_port(&mut self) -> (r: SignalPort)
        requires
            old(self).hubs().wf(),
            old(self).hubs().all_events().ports < u64::MAX,
        ensures
            final(self).hubs().wf(),
            r.position() == old(self).hubs().all_events().next(),
            final(self).hubs().all_events() == (BusView { ports: old(self).hubs().all_events().ports + 1, ..old(self).hubs().all_events() }),
            final(self).hubs().private_messages() == old(self).hubs().private_messages(),
            final(self).hubs().group_messages() == old(self).hubs().group_messages(),
            final(self).hubs().heartbeats() == old(self).hubs().heartbeats(),
            final(self).hubs().lifecycles() == old(self).hubs().lifecycles(),
    {
        self.hubs.get_all_event_port()
    }

    /// A new port onto this manager's bus of that kind.
    pub fn get_private_message_port(&mut self) -> (r: SignalPort)
        requires
            old(self).hubs().wf(),
            old(self).hubs().private_messages().ports < u64::MAX,
        ensures
            final(self).hubs().wf(),
            r.position() == old(self).hubs().private_messages().next(),
            final(self).hubs().private_messages() == (BusView { ports: old(self).hubs().private_messages().ports + 1, ..old(self).hubs().private_messages() }),
            final(self).hubs().all_events() == old(self).hubs().all_events(),
            final(self).hubs().group_messages() == old(self).hubs().group_messages(),
            final(self).hubs().heartbeats() == old(self).hubs().heartbeats(),
            final(self).hubs().lifecycles() == old(self).hubs().lifecycles(),
    {
        self.hubs.get_private_message_port()
    }

    /// A new port onto this manager's bus of that kind.
    pub fn get_group_message_port(&mut self) -> (r: SignalPort)
        requires
            old(self).hubs().wf(),
            old(self).hubs().group_messages().ports < u64::MAX,
        ensures
            final(self).hubs().wf(),
            r.position() == old(self).hubs().group_messages().next(),
            final(self).hubs().group_messages() == (BusView { ports: old(self).hubs().group_messages().ports + 1, ..old(self).hubs().group_messages() }),
            final(self).hubs().all_events() == old(self).hubs().all_events(),
            final(self).hubs().private_messages() == old(self).hubs().private_messages(),
            final(self).hubs().heartbeats() == old(self).hubs().heartbeats(),
            final(self).hubs().lifecycles() == old(self).hubs().lifecycles(),
    {
        self.hubs.get_group_message_port()
    }

    /// A new port onto this manager's bus of that kind.
    pub fn get_heartbeat_port(&mut self) -> (r: SignalPort)
        requires
            old(self).hubs().wf(),
            old(self).hubs().heartbeats().ports < u64::MAX,
        ensures
            final(self).hubs().wf(),
            r.position() == old(self).hubs().heartbeats().next(),
            final(self).hubs().heartbeats() == (BusView { ports: old(self).hubs().heartbeats().ports + 1, ..old(self).hubs().heartbeats() }),
            final(self).hubs().all_events() == old(self).hubs().all_events(),
            final(self).hubs().private_messages() == old(self).hubs().private_messages(),
            final(self).hubs().group_messages() == old(self).hubs().group_messages(),
            final(self).hubs().lifecycles() == old(self).hubs().lifecycles(),
    {
        self.hubs.get_heartbeat_port()
    }

    /// A new port onto this manager's bus of that kind.
    pub fn get_lifecycle_port(&mut self) -> (r: SignalPort)
        requires
            old(self).hubs().wf(),
            old(self).hubs().lifecycles().ports < u64::MAX,
        ensures
            final(self).hubs().wf(),
            r.position() == old(self).hubs().lifecycles().next(),
            final(self).hubs().lifecycles() == (BusView { ports: old(self).hubs().lifecycles().ports + 1, ..old(self).hubs().lifecycles() }),
            final(self).hubs().all_events() == old(self).hubs().all_events(),
            final(self).hubs().private_messages() == old(self).hubs().private_messages(),
            final(self).hubs().group_messages() == old(self).hubs().group_messages(),
            final(self).hubs().heartbeats() == old(self).hubs().heartbeats(),
    {
        self.hubs.get_lifecycle_port()
    }

    /// The buses this manager publishes on.
    pub fn get_event_nexus(&self) -> (r: &EventHubs)
        ensures
            *r == self.hubs(),
    {
        &self.hubs
    }

    /// Decodes one raw event frame and publishes what it decodes to; returns
    /// `false`, publishing nothing, where a bus has no room left.
    pub fn handle_event(&mut self, frame: &Json) -> (r: bool)
        requires
            old(self).hubs().wf(),
        ensures
            final(self).hubs().wf(),
            r == old(self).hubs().ready(),
            !r ==> final(self).hubs() == old(self).hubs(),
            r ==> exists|e: AnyEvent| decodes_to(*frame, e) && dispatched(old(self).hubs(), final(self).hubs(), e),
    {
        if !self.hubs.is_ready() {
            return false;
        }
        let e = AnyEvent::from_json(frame);
        let ghost g = e;
        self.hubs.dispatch(e);
        proof {
            assert(decodes_to(*frame, g));
        }
        true
    }
}

} // verus!
