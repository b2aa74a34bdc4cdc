//! The action correlator: turns fire-and-forget frames into request/response
//! calls. Each request is stamped with a fresh id from a 64-bit counter,
//! written as decimal text into the frame's `echo` member, and parked until a
//! response carrying the same `echo` arrives or its deadline passes.
//!
//! Time is a number of milliseconds handed in by the caller; waiting for the
//! response is the caller's part.

use crate::decimal::{decimal_text, integer_of, lemma_signed_text_round_trip, signed_text, u64_to_text};
use crate::json::{keys_of, lemma_field_first, member, Json};
use crate::message::{encodes_segment, entry, text_of_member, Message};
use vstd::prelude::*;

verus! {

/// How a request ended other than by its response.
#[derive(Debug, Clone, Copy, PartialEq, Eq, Structural)]
pub enum ActionError {
    /// No response arrived before the deadline.
    Timeout,
    /// Every id of the 64-bit counter has been used.
    IdsExhausted,
}

/// A request awaiting its response.
#[derive(Debug, Clone, Copy, PartialEq, Eq, Structural)]
pub struct PendingRequest {
    pub id: u64,
    /// The time, in milliseconds, from which the request counts as timed out.
    pub deadline: u64,
}

/// The default time a request waits for its response, in milliseconds.
pub const DEFAULT_TIMEOUT_MS: u64 = 10000;

pub struct ActionManager {
    next_id: u64,
    timeout_ms: u64,
    pending: Vec<PendingRequest>,
}

pub open spec fn has_id(s: Seq<PendingRequest>, id: u64) -> bool {
    exists|i: int| 0 <= i < s.len() && (#[trigger] s[i]).id == id
}

pub open spec fn ids_distinct(s: Seq<PendingRequest>) -> bool {
    forall|i: int, j: int| 0 <= i < s.len() && 0 <= j < s.len() && i != j ==> (#[trigger] s[i]).id != (#[trigger] s[j]).id
}

/// `s` without the request `id`.
pub open spec fn without(s: Seq<PendingRequest>, id: u64) -> Seq<PendingRequest>
    decreases s.len(),
{
    if s.len() == 0 {
        s
    } else if s.last().id == id {
        without(s.drop_last(), id)
    } else {
        without(s.drop_last(), id).push(s.last())
    }
}

/// The requests of `s` whose deadline is after `now`.
pub open spec fn live(s: Seq<PendingRequest>, now: u64) -> Seq<PendingRequest>
    decreases s.len(),
{
    if s.len() == 0 {
        s
    } else if s.last().deadline <= now {
        live(s.drop_last(), now)
    } else {
        live(s.drop_last(), now).push(s.last())
    }
}

/// The ids of the requests of `s` whose deadline is `now` or before.
pub open spec fn expired_ids(s: Seq<PendingRequest>, now: u64) -> Seq<u64>
    decreases s.len(),
{
    if s.len() == 0 {
        Seq::empty()
    } else if s.last().deadline <= now {
        expired_ids(s.drop_last(), now).push(s.last().id)
    } else {
        expired_ids(s.drop_last(), now)
    }
}

/// The request id a response carries in its `echo` member: the id whose
/// stamped tag, its shortest decimal text, the echo is exactly. Any other
/// echo (`07`, `-0`, a number, ...) names no request.
pub open spec fn echo_id(response: Json) -> Option<u64> {
    match text_of_member(response, "echo"@) {
        Some(t) => match integer_of(t) {
            Some(n) => if 0 <= n <= u64::MAX && t == decimal_text(n as nat) {
                Some(n as u64)
            } else {
                None
            },
            None => None,
        },
        None => None,
    }
}

/// The request that `response` resolves among `pending`, if any.
pub open spec fn resolution(pending: Seq<PendingRequest>, response: Json) -> Option<u64> {
    match echo_id(response) {
        Some(id) => if has_id(pending, id) {
            Some(id)
        } else {
            None
        },
        None => None,
    }
}

/// What is left pending once `response` has been handled.
pub open spec fn after_response(pending: Seq<PendingRequest>, response: Json) -> Seq<PendingRequest> {
    match resolution(pending, response) {
        Some(id) => without(pending, id),
        None => pending,
    }
}

/// `frame` is the outbound request for `action` with `params`, tagged `id`.
pub open spec fn request_frame(frame: Json, action: Seq<char>, id: u64, params: Json) -> bool {
    &&& frame is Object
    &&& text_of_member(frame, "action"@) == Some(action)
    &&& text_of_member(frame, "echo"@) == Some(decimal_text(id as nat))
    &&& member(frame, "params"@) == Some(params)
    &&& keys_of(frame) == seq!["action"@, "echo"@, "params"@]
}

/// The deadline of a request made at `now` that waits `timeout` milliseconds.
pub open spec fn deadline_after(now: u64, timeout: u64) -> u64 {
    if now + timeout <= u64::MAX {
        (now + timeout) as u64
    } else {
        u64::MAX
    }
}

proof fn lemma_without(s: Seq<PendingRequest>, id: u64)
    ensures
        !has_id(without(s, id), id),
        forall|x: u64| x != id ==> (has_id(without(s, id), x) <==> has_id(s, x)),
        ids_distinct(s) ==> ids_distinct(without(s, id)),
        forall|i: int| 0 <= i < without(s, id).len() ==> exists|j: int| 0 <= j < s.len() && #[trigger] without(s, id)[i] == s[j],
    decreases s.len(),
{
    if s.len() > 0 {
        let p = s.drop_last();
        lemma_without(p, id);
        assert forall|x: u64| has_id(p, x) implies has_id(s, x) by {
            let i = choose|i: int| 0 <= i < p.len() && (#[trigger] p[i]).id == x;
            assert(s[i] == p[i]);
        }
        assert forall|x: u64| has_id(s, x) && s.last().id != x implies has_id(p, x) by {
            let i = choose|i: int| 0 <= i < s.len() && (#[trigger] s[i]).id == x;
            assert(p[i] == s[i]);
        }
        let w = without(p, id);
        if s.last().id != id {
            let w2 = w.push(s.last());
            assert forall|x: u64| has_id(w, x) implies has_id(w2, x) by {
                let i = choose|i: int| 0 <= i < w.len() && (#[trigger] w[i]).id == x;
                assert(w2[i] == w[i]);
            }
            assert forall|x: u64| has_id(w2, x) && x != s.last().id implies has_id(w, x) by {
                let i = choose|i: int| 0 <= i < w2.len() && (#[trigger] w2[i]).id == x;
                assert(w[i] == w2[i]);
            }
            assert(w2[w.len() as int] == s.last());
            assert forall|i: int| 0 <= i < w2.len() implies exists|j: int| 0 <= j < s.len() && #[trigger] w2[i] == s[j] by {
                if i < w.len() {
                    assert(w2[i] == w[i]);
                    let j = choose|j: int| 0 <= j < p.len() && w[i] == p[j];
                    assert(s[j] == p[j]);
                } else {
                    assert(w2[i] == s[s.len() - 1]);
                }
            }
            if ids_distinct(s) {
                assert(ids_distinct(p)) by {
                    assert forall|i: int, j: int| 0 <= i < p.len() && 0 <= j < p.len() && i != j implies (#[trigger] p[i]).id != (#[trigger] p[j]).id by {
                        assert(p[i] == s[i] && p[j] == s[j]);
                    }
                }
                assert(!has_id(w, s.last().id)) by {
                    if has_id(w, s.last().id) {
                        let i = choose|i: int| 0 <= i < w.len() && (#[trigger] w[i]).id == s.last().id;
                        let j = choose|j: int| 0 <= j < s.len() && w[i] == s[j];
                        assert(j != s.len() - 1) by {
                            if j == s.len() - 1 {
                                assert(has_id(p, s.last().id)) by {
                                    let k = choose|k: int| 0 <= k < p.len() && w[i] == p[k];
                                    assert(p[k].id == s.last().id);
                                }
                                let k = choose|k: int| 0 <= k < p.len() && (#[trigger] p[k]).id == s.last().id;
                                assert(s[k] == p[k]);
                            }
                        }
                    }
                }
                assert forall|i: int, j: int| 0 <= i < w2.len() && 0 <= j < w2.len() && i != j implies (#[trigger] w2[i]).id != (#[trigger] w2[j]).id by {
                    if i < w.len() && j < w.len() {
                        assert(w2[i] == w[i] && w2[j] == w[j]);
                    } else if i < w.len() {
                        assert(w2[i] == w[i]);
                        assert(has_id(w, w[i].id));
                    } else if j < w.len() {
                        assert(w2[j] == w[j]);
                        assert(has_id(w, w[j].id));
                    }
                }
            }
        } else {
            assert forall|i: int| 0 <= i < w.len() implies exists|j: int| 0 <= j < s.len() && #[trigger] w[i] == s[j] by {
                let j = choose|j: int| 0 <= j < p.len() && w[i] == p[j];
                assert(s[j] == p[j]);
            }
            if ids_distinct(s) {
                assert(ids_distinct(p)) by {
                    assert forall|i: int, j: int| 0 <= i < p.len() && 0 <= j < p.len() && i != j implies (#[trigger] p[i]).id != (#[trigger] p[j]).id by {
                        assert(p[i] == s[i] && p[j] == s[j]);
                    }
                }
            }
        }
    }
}

impl ActionManager {
    pub closed spec fn next_id(&self) -> u64 {
        self.next_id
    }

    pub closed spec fn timeout(&self) -> u64 {
        self.timeout_ms
    }

    /// The requests awaiting their response, oldest first.
    pub closed spec fn pending(&self) -> Seq<PendingRequest> {
        self.pending@
    }

    /// At most one pending request per id, and every pending id was issued.
    pub open spec fn wf(&self) -> bool {
        &&& ids_distinct(self.pending())
        &&& forall|i: int| 0 <= i < self.pending().len() ==> (#[trigger] self.pending()[i]).id < self.next_id()
    }

    /// A correlator whose requests wait `timeout_ms` milliseconds.
    pub fn new(timeout_ms: u64) -> (r: ActionManager)
        ensures
            r.wf(),
            r.next_id() == 0,
            r.timeout() == timeout_ms,
            r.pending() == Seq::<PendingRequest>::empty(),
    {
        ActionManager { next_id: 0, timeout_ms, pending: Vec::new() }
    }

    /// Whether the request `id` is awaiting its response.
    pub fn is_pending(&self, id: u64) -> (r: bool)
        ensures
            r == has_id(self.pending(), id),
    {
        let mut i: usize = 0;
        while i < self.pending.len()
            invariant
                0 <= i <= self.pending.len(),
                forall|k: int| 0 <= k < i ==> (#[trigger] self.pending@[k]).id != id,
            decreases self.pending.len() - i,
        {
            if self.pending[i].id == id {
                return true;
            }
            i = i + 1;
        }
        false
    }

    /// How long a request waits for its response, in milliseconds.
    pub fn timeout_ms(&self) -> (r: u64)
        ensures
            r == self.timeout(),
    {
        self.timeout_ms
    }

    /// The number of requests awaiting their response.
    pub fn pending_count(&self) -> (r: usize)
        ensures
            r == self.pending().len(),
    {
        self.pending.len()
    }

    /// Issues a request: takes the next id, parks it until `now` plus the
    /// timeout, and returns it with the frame to send, whose `echo` is the id.
    pub fn request(&mut self, data: NapcatRequestData, now: u64) -> (r: Result<(u64, Json), ActionError>)
        requires
            old(self).wf(),
        ensures
            final(self).wf(),
            old(self).next_id() == u64::MAX ==> r == Err::<(u64, Json), ActionError>(ActionError::IdsExhausted) && final(self).pending() == old(self).pending() && final(self).next_id() == old(self).next_id(),
            old(self).next_id() < u64::MAX ==> (r matches Ok((id, frame)) && id == old(self).next_id() && final(self).next_id() == id + 1
                && !has_id(old(self).pending(), id)
                && final(self).pending() == old(self).pending().push(PendingRequest {
                    id,
                    deadline: deadline_after(now, old(self).timeout()),
                })
                && request_frame(frame, data.action@, id, data.params)),
            final(self).timeout() == old(self).timeout(),
    {
        if self.next_id == u64::MAX {
            return Err(ActionError::IdsExhausted);
        }
        let id = self.next_id;
        self.next_id = id + 1;
        let deadline = now.saturating_add(self.timeout_ms);
        proof {
            if has_id(old(self).pending(), id) {
                let i = choose|i: int| 0 <= i < old(self).pending().len() && (#[trigger] old(self).pending()[i]).id == id;
            }
        }
        self.pending.push(PendingRequest { id, deadline });
        let mut f: Vec<(String, Json)> = Vec::new();
        f.push(entry("action", Json::Str(data.action)));
        f.push(entry("echo", Json::Str(u64_to_text(id))));
        f.push(entry("params", data.params));
        proof {
            reveal_strlit("action");
            reveal_strlit("echo");
            reveal_strlit("params");
            assert(f@[0].0@ == "action"@ && f@[0].0@.len() == 6);
            assert(f@[1].0@ == "echo"@ && f@[1].0@.len() == 4);
            assert(f@[2].0@ == "params"@ && f@[2].0@.len() == 6 && f@[2].0@[0] == 'p');
            assert(f@[0].0@[0] == 'a');
            lemma_field_first(f@, 0, "action"@);
            lemma_field_first(f@, 1, "echo"@);
            lemma_field_first(f@, 2, "params"@);
            assert(keys_of(Json::Object(f)) =~= seq!["action"@, "echo"@, "params"@]);
            assert forall|i: int, j: int| 0 <= i < self.pending@.len() && 0 <= j < self.pending@.len() && i != j implies (#[trigger] self.pending@[i]).id != (#[trigger] self.pending@[j]).id by {
                if i < old(self).pending().len() && j < old(self).pending().len() {
                    assert(self.pending@[i] == old(self).pending()[i]);
                    assert(self.pending@[j] == old(self).pending()[j]);
                } else if i < old(self).pending().len() {
                    assert(self.pending@[i] == old(self).pending()[i]);
                } else if j < old(self).pending().len() {
                    assert(self.pending@[j] == old(self).pending()[j]);
                }
            }
            assert forall|i: int| 0 <= i < self.pending@.len() implies (#[trigger] self.pending@[i]).id < self.next_id by {
                if i < old(self).pending().len() {
                    assert(self.pending@[i] == old(self).pending()[i]);
                }
            }
        }
        Ok((id, Json::Object(f)))
    }

    /// Removes the request `id`, if it is pending; removing one that is not
    /// is a no-op. Returns whether it was pending.
    pub fn cancel(&mut self, id: u64) -> (r: bool)
        requires
            old(self).wf(),
        ensures
            final(self).wf(),
            r == has_id(old(self).pending(), id),
            final(self).pending() == without(old(self).pending(), id),
            final(self).next_id() == old(self).next_id(),
            final(self).timeout() == old(self).timeout(),
    {
        let mut kept: Vec<PendingRequest> = Vec::new();
        let mut found = false;
        let mut i: usize = 0;
        while i < self.pending.len()
            invariant
                0 <= i <= self.pending.len(),
                kept@ == without(self.pending@.subrange(0, i as int), id),
                found == has_id(self.pending@.subrange(0, i as int), id),
            decreases self.pending.len() - i,
        {
            let ghost pre = self.pending@.subrange(0, i as int);
            let ghost cur = self.pending@.subrange(0, i as int + 1);
            proof {
                assert(cur.drop_last() =~= pre);
                assert(cur.last() == self.pending@[i as int]);
                if has_id(pre, id) {
                    let k = choose|k: int| 0 <= k < pre.len() && (#[trigger] pre[k]).id == id;
                    assert(cur[k] == pre[k]);
                }
                if has_id(cur, id) && self.pending@[i as int].id != id {
                    let k = choose|k: int| 0 <= k < cur.len() && (#[trigger] cur[k]).id == id;
                    assert(pre[k] == cur[k]);
                }
                if self.pending@[i as int].id == id {
                    assert(cur[i as int].id == id);
                }
            }
            let p = self.pending[i];
            if p.id == id {
                found = true;
            } else {
                kept.push(p);
            }
            i = i + 1;
        }
        proof {
            assert(self.pending@.subrange(0, self.pending@.len() as int) =~= self.pending@);
            lemma_without(old(self).pending(), id);
        }
        self.pending = kept;
        proof {
            assert forall|i: int| 0 <= i < self.pending@.len() implies (#[trigger] self.pending@[i]).id < self.next_id by {
                let j = choose|j: int| 0 <= j < old(self).pending().len() && without(old(self).pending(), id)[i] == old(self).pending()[j];
            }
        }
        found
    }

    /// Hands a response to the request it answers: where its `echo` names a
    /// pending request, that request is removed and its id returned; any
    /// other response is discarded.
    pub fn resolve(&mut self, response: &Json) -> (r: Option<u64>)
        requires
            old(self).wf(),
        ensures
            final(self).wf(),
            r == resolution(old(self).pending(), *response),
            final(self).pending() == after_response(old(self).pending(), *response),
            final(self).next_id() == old(self).next_id(),
            final(self).timeout() == old(self).timeout(),
    {
        let echo = match response.get("echo") {
            Some(Json::Str(t)) => t,
            _ => {
                return None;
            },
        };
        let id = match crate::decimal::parse_u64(echo.as_str()) {
            Some(id) => id,
            None => {
                return None;
            },
        };
        let tag = u64_to_text(id);
        if tag != *echo {
            return None;
        }
        if self.cancel(id) {
            Some(id)
        } else {
            proof {
                lemma_without_absent(old(self).pending(), id);
            }
            None
        }
    }

    /// Removes every request whose deadline is `now` or before, and returns
    /// their ids, oldest first: each of those calls has timed out.
    pub fn expire(&mut self, now: u64) -> (r: Vec<u64>)
        requires
            old(self).wf(),
        ensures
            final(self).wf(),
            r@ == expired_ids(old(self).pending(), now),
            final(self).pending() == live(old(self).pending(), now),
            final(self).next_id() == old(self).next_id(),
            final(self).timeout() == old(self).timeout(),
    {
        let mut kept: Vec<PendingRequest> = Vec::new();
        let mut gone: Vec<u64> = Vec::new();
        let mut i: usize = 0;
        while i < self.pending.len()
            invariant
                0 <= i <= self.pending.len(),
                kept@ == live(self.pending@.subrange(0, i as int), now),
                gone@ == expired_ids(self.pending@.subrange(0, i as int), now),
            decreases self.pending.len() - i,
        {
            proof {
                assert(self.pending@.subrange(0, i as int + 1).drop_last() =~= self.pending@.subrange(0, i as int));
            }
            let p = self.pending[i];
            if p.deadline <= now {
                gone.push(p.id);
            } else {
                kept.push(p);
            }
            i = i + 1;
        }
        proof {
            assert(self.pending@.subrange(0, self.pending@.len() as int) =~= self.pending@);
            lemma_live(old(self).pending(), now);
        }
        self.pending = kept;
        proof {
            assert forall|i: int| 0 <= i < self.pending@.len() implies (#[trigger] self.pending@[i]).id < self.next_id by {
                let j = choose|j: int| 0 <= j < old(self).pending().len() && live(old(self).pending(), now)[i] == old(self).pending()[j];
            }
        }
        gone
    }

    /// The request to send `message` to the user `user_id`.
    pub fn send_private_message(&mut self, user_id: i64, message: &Message, now: u64) -> (r: Result<(u64, Json), ActionError>)
        requires
            old(self).wf(),
        ensures
            final(self).wf(),
            old(self).next_id() == u64::MAX ==> r is Err && final(self).pending() == old(self).pending() && final(self).next_id() == old(self).next_id(),
            old(self).next_id() < u64::MAX ==> (r matches Ok((id, frame)) && id == old(self).next_id()
                && final(self).next_id() == id + 1
                && final(self).pending() == old(self).pending().push(PendingRequest { id, deadline: deadline_after(now, old(self).timeout()) })
                && text_of_member(frame, "action"@) == Some("send_private_msg"@)
                && text_of_member(frame, "echo"@) == Some(decimal_text(id as nat))
                && keys_of(frame) == seq!["action"@, "echo"@, "params"@]
                && (member(frame, "params"@) matches Some(p) && integer_member(p, "user_id"@) == Some(user_id as int)
                && message_member(p, message) && keys_of(p) == seq!["user_id"@, "message"@])),
    {
        proof {
            reveal_strlit("user_id");
            reveal_strlit("group_id");
            reveal_strlit("message");
            reveal_strlit("times");
            assert("user_id"@[0] != "message"@[0]);
        }
        let params = message_params("user_id", user_id, message);
        self.request(NapcatRequestData::new().with_action("send_private_msg").with_params(params), now)
    }

    /// The request to send `message` to the group `group_id`.
    pub fn send_group_message(&mut self, group_id: i64, message: &Message, now: u64) -> (r: Result<(u64, Json), ActionError>)
        requires
            old(self).wf(),
        ensures
            final(self).wf(),
            old(self).next_id() == u64::MAX ==> r is Err && final(self).pending() == old(self).pending() && final(self).next_id() == old(self).next_id(),
            old(self).next_id() < u64::MAX ==> (r matches Ok((id, frame)) && id == old(self).next_id()
                && final(self).next_id() == id + 1
                && final(self).pending() == old(self).pending().push(PendingRequest { id, deadline: deadline_after(now, old(self).timeout()) })
                && text_of_member(frame, "action"@) == Some("send_group_msg"@)
                && text_of_member(frame, "echo"@) == Some(decimal_text(id as nat))
                && keys_of(frame) == seq!["action"@, "echo"@, "params"@]
                && (member(frame, "params"@) matches Some(p) && integer_member(p, "group_id"@) == Some(group_id as int)
                && message_member(p, message) && keys_of(p) == seq!["group_id"@, "message"@])),
    {
        proof {
            reveal_strlit("user_id");
            reveal_strlit("group_id");
            reveal_strlit("message");
            reveal_strlit("times");
            assert("group_id"@.len() != "message"@.len());
        }
        let params = message_params("group_id", group_id, message);
        self.request(NapcatRequestData::new().with_action("send_group_msg").with_params(params), now)
    }

    /// The request to like the profile of `user_id`, `times` times.
    pub fn send_like(&mut self, user_id: i64, times: i32, now: u64) -> (r: Result<(u64, Json), ActionError>)
        requires
            old(self).wf(),
        ensures
            final(self).wf(),
            old(self).next_id() == u64::MAX ==> r is Err && final(self).pending() == old(self).pending() && final(self).next_id() == old(self).next_id(),
            old(self).next_id() < u64::MAX ==> (r matches Ok((id, frame)) && id == old(self).next_id()
                && final(self).next_id() == id + 1
                && final(self).pending() == old(self).pending().push(PendingRequest { id, deadline: deadline_after(now, old(self).timeout()) })
                && text_of_member(frame, "action"@) == Some("send_like"@)
                && text_of_member(frame, "echo"@) == Some(decimal_text(id as nat))
                && keys_of(frame) == seq!["action"@, "echo"@, "params"@]
                && (member(frame, "params"@) matches Some(p) && integer_member(p, "user_id"@) == Some(user_id as int)
                && integer_member(p, "times"@) == Some(times as int) && keys_of(p) == seq!["user_id"@, "times"@])),
    {
        proof {
            reveal_strlit("user_id");
            reveal_strlit("group_id");
            reveal_strlit("message");
            reveal_strlit("times");
            assert("user_id"@.len() != "times"@.len());
        }
        let params = two_numbers("user_id", user_id, "times", times as i64);
        self.request(NapcatRequestData::new().with_action("send_like").with_params(params), now)
    }

    /// The request to poke the friend `user_id`.
    pub fn send_private_poke(&mut self, user_id: i64, now: u64) -> (r: Result<(u64, Json), ActionError>)
        requires
            old(self).wf(),
        ensures
            final(self).wf(),
            old(self).next_id() == u64::MAX ==> r is Err && final(self).pending() == old(self).pending() && final(self).next_id() == old(self).next_id(),
            old(self).next_id() < u64::MAX ==> (r matches Ok((id, frame)) && id == old(self).next_id()
                && final(self).next_id() == id + 1
                && final(self).pending() == old(self).pending().push(PendingRequest { id, deadline: deadline_after(now, old(self).timeout()) })
                && text_of_member(frame, "action"@) == Some("friend_poke"@)
                && text_of_member(frame, "echo"@) == Some(decimal_text(id as nat))
                && keys_of(frame) == seq!["action"@, "echo"@, "params"@]
                && (member(frame, "params"@) matches Some(p) && integer_member(p, "user_id"@) == Some(user_id as int)
                && keys_of(p) == seq!["user_id"@])),
    {
        let mut f: Vec<(String, Json)> = Vec::new();
        f.push(entry("user_id", Json::from_i64(user_id)));
        proof {
            lemma_field_first(f@, 0, "user_id"@);
            assert(keys_of(Json::Object(f)) =~= seq!["user_id"@]);
        }
        self.request(NapcatRequestData::new().with_action("friend_poke").with_params(Json::Object(f)), now)
    }

    /// The request to poke the member `user_id` of the group `group_id`.
    pub fn send_group_poke(&mut self, group_id: i64, user_id: i64, now: u64) -> (r: Result<(u64, Json), ActionError>)
        requires
            old(self).wf(),
        ensures
            final(self).wf(),
            old(self).next_id() == u64::MAX ==> r is Err && final(self).pending() == old(self).pending() && final(self).next_id() == old(self).next_id(),
            old(self).next_id() < u64::MAX ==> (r matches Ok((id, frame)) && id == old(self).next_id()
                && final(self).next_id() == id + 1
                && final(self).pending() == old(self).pending().push(PendingRequest { id, deadline: deadline_after(now, old(self).timeout()) })
                && text_of_member(frame, "action"@) == Some("group_poke"@)
                && text_of_member(frame, "echo"@) == Some(decimal_text(id as nat))
                && keys_of(frame) == seq!["action"@, "echo"@, "params"@]
                && (member(frame, "params"@) matches Some(p) && integer_member(p, "user_id"@) == Some(user_id as int)
                && integer_member(p, "group_id"@) == Some(group_id as int) && keys_of(p) == seq!["user_id"@, "group_id"@])),
    {
        proof {
            reveal_strlit("user_id");
            reveal_strlit("group_id");
            reveal_strlit("message");
            reveal_strlit("times");
            assert("user_id"@.len() != "group_id"@.len());
        }
        let params = two_numbers("user_id", user_id, "group_id", group_id);
        self.request(NapcatRequestData::new().with_action("group_poke").with_params(params), now)
    }
}

/// An action request as callers build it. Its `echo` is overwritten by
/// `ActionManager::request` with a fresh id.
#[derive(Debug, Clone)]
pub struct NapcatRequestData {
    pub action: String,
    pub echo: String,
    pub params: Json,
}

impl NapcatRequestData {
    /// An empty request: no action, no echo, `null` params.
    pub fn new() -> (r: NapcatRequestData)
        ensures
            r.action@ == Seq::<char>::empty(),
            r.echo@ == Seq::<char>::empty(),
            r.params == Json::Null,
    {
        NapcatRequestData { action: String::new(), echo: String::new(), params: Json::Null }
    }

    pub fn with_action(self, action: &str) -> (r: NapcatRequestData)
        ensures
            r.action@ == action@,
            r.echo == self.echo,
            r.params == self.params,
    {
        NapcatRequestData { action: String::from_str(action), ..self }
    }

    pub fn with_echo(self, text: &str) -> (r: NapcatRequestData)
        ensures
            r.action == self.action,
            r.echo@ == text@,
            r.params == self.params,
    {
        NapcatRequestData { echo: String::from_str(text), ..self }
    }

    pub fn with_params(self, data: Json) -> (r: NapcatRequestData)
        ensures
            r.action == self.action,
            r.echo == self.echo,
            r.params == data,
    {
        NapcatRequestData { params: data, ..self }
    }
}

/// The params of a private message as the plain send call takes them: the
/// user id as text, and the message.
#[derive(Debug, Clone)]
pub struct PrivateMessage {
    pub user_id: String,
    pub message: Message,
}

/// The params of a group message: the group id as text, and the message.
#[derive(Debug, Clone)]
pub struct GroupMessage {
    pub group_id: String,
    pub message: Message,
}

impl PrivateMessage {
    pub fn new(user_id: i64, message: Message) -> (r: PrivateMessage)
        ensures
            r.user_id@ == signed_text(user_id as int),
            r.message == message,
    {
        PrivateMessage { user_id: crate::decimal::i64_to_text(user_id), message }
    }
}

impl GroupMessage {
    pub fn new(group_id: &str, message: Message) -> (r: GroupMessage)
        ensures
            r.group_id@ == group_id@,
            r.message == message,
    {
        GroupMessage { group_id: String::from_str(group_id), message }
    }
}

/// `fields` without the members named `key`, in order.
pub open spec fn drop_key(fields: Seq<(String, Json)>, key: Seq<char>) -> Seq<(String, Json)>
    decreases fields.len(),
{
    if fields.len() == 0 {
        fields
    } else if fields.last().0@ == key {
        drop_key(fields.drop_last(), key)
    } else {
        drop_key(fields.drop_last(), key).push(fields.last())
    }
}

/// What a response hands back to its caller: the response without its
/// `echo` member, which only served to find the request.
pub fn response_body(response: Json) -> (r: Json)
    ensures
        match response {
            Json::Object(f) => r matches Json::Object(g) && g@ == drop_key(f@, "echo"@),
            _ => r == response,
        },
{
    match response {
        Json::Object(f) => {
            let ghost orig = f@;
            assert(orig.len() <= usize::MAX) by {
                assert(f@.len() == f.len());
            }
            let echo = String::from_str("echo");
            let mut rest = f;
            let mut kept: Vec<(String, Json)> = Vec::new();
            let mut k: usize = 0;
            while rest.len() > 0
                invariant
                    k <= orig.len(),
                    k + rest@.len() == orig.len(),
                    orig.len() <= usize::MAX,
                    rest@ == orig.subrange(k as int, orig.len() as int),
                    kept@ == drop_key(orig.subrange(0, k as int), "echo"@),
                    echo@ == "echo"@,
                decreases rest.len(),
            {
                let e = rest.remove(0);
                proof {
                    assert(orig.subrange(0, k as int + 1).drop_last() =~= orig.subrange(0, k as int));
                    assert(orig.subrange(0, k as int + 1).last() == e);
                    assert(rest@ =~= orig.subrange(k as int + 1, orig.len() as int));
                }
                if e.0 != echo {
                    kept.push(e);
                }
                k = k + 1;
            }
            proof {
                assert(orig.subrange(0, k as int) =~= orig);
            }
            Json::Object(kept)
        },
        other => other,
    }
}

/// The integer that member `key` of `j` holds.
pub open spec fn integer_member(j: Json, key: Seq<char>) -> Option<int> {
    match member(j, key) {
        Some(v) => crate::json::integer_in(v),
        None => None,
    }
}

/// Member `message` of `p` is the JSON form of `message`.
pub open spec fn message_member(p: Json, message: &Message) -> bool {
    member(p, "message"@) matches Some(Json::Array(items)) && items@.len() == message.segments().len()
        && forall|i: int| 0 <= i < items@.len() ==> encodes_segment(#[trigger] message.segments()[i], items@[i])
}

fn message_params(key: &str, target: i64, message: &Message) -> (r: Json)
    requires
        key@ != "message"@,
    ensures
        integer_member(r, key@) == Some(target as int),
        message_member(r, message),
        keys_of(r) == seq![key@, "message"@],
{
    let mut f: Vec<(String, Json)> = Vec::new();
    f.push(entry(key, Json::from_i64(target)));
    f.push(entry("message", message.to_json()));
    proof {
        lemma_field_first(f@, 0, key@);
        lemma_field_first(f@, 1, "message"@);
        assert(keys_of(Json::Object(f)) =~= seq![key@, "message"@]);
    }
    Json::Object(f)
}

fn two_numbers(k1: &str, v1: i64, k2: &str, v2: i64) -> (r: Json)
    requires
        k1@ != k2@,
    ensures
        integer_member(r, k1@) == Some(v1 as int),
        integer_member(r, k2@) == Some(v2 as int),
        keys_of(r) == seq![k1@, k2@],
{
    let mut f: Vec<(String, Json)> = Vec::new();
    f.push(entry(k1, Json::from_i64(v1)));
    f.push(entry(k2, Json::from_i64(v2)));
    proof {
        lemma_field_first(f@, 0, k1@);
        lemma_field_first(f@, 1, k2@);
        assert(keys_of(Json::Object(f)) =~= seq![k1@, k2@]);
    }
    Json::Object(f)
}

/// The text a like request's response reports, at `message.message`.
pub open spec fn like_reply_of(response: Json) -> Option<Seq<char>> {
    match member(response, "message"@) {
        Some(m) => text_of_member(m, "message"@),
        None => None,
    }
}

/// Reads the text a like request's response reports.
pub fn like_reply(response: &Json) -> (r: Option<String>)
    ensures
        r is Some == like_reply_of(*response) is Some,
        r is Some ==> r.unwrap()@ == like_reply_of(*response).unwrap(),
{
    match response.get("message") {
        Some(m) => match m.get("message") {
            Some(Json::Str(s)) => Some(s.clone()),
            _ => None,
        },
        None => None,
    }
}

proof fn lemma_without_absent(s: Seq<PendingRequest>, id: u64)
    requires
        !has_id(s, id),
    ensures
        without(s, id) == s,
    decreases s.len(),
{
    if s.len() > 0 {
        let p = s.drop_last();
        assert(!has_id(p, id)) by {
            if has_id(p, id) {
                let i = choose|i: int| 0 <= i < p.len() && (#[trigger] p[i]).id == id;
                assert(s[i] == p[i]);
            }
        }
        lemma_without_absent(p, id);
        assert(s.last().id != id) by {
            assert(s[s.len() - 1] == s.last());
        }
        assert(p.push(s.last()) =~= s);
    }
}

proof fn lemma_live(s: Seq<PendingRequest>, now: u64)
    ensures
        forall|i: int| 0 <= i < live(s, now).len() ==> exists|j: int| 0 <= j < s.len() && #[trigger] live(s, now)[i] == s[j],
        forall|i: int| 0 <= i < live(s, now).len() ==> (#[trigger] live(s, now)[i]).deadline > now,
        ids_distinct(s) ==> ids_distinct(live(s, now)),
        forall|x: u64| has_id(live(s, now), x) ==> has_id(s, x),
    decreases s.len(),
{
    if s.len() > 0 {
        let p = s.drop_last();
        lemma_live(p, now);
        let w = live(p, now);
        assert forall|i: int| 0 <= i < w.len() implies exists|j: int| 0 <= j < s.len() && #[trigger] w[i] == s[j] by {
            let j = choose|j: int| 0 <= j < p.len() && w[i] == p[j];
            assert(s[j] == p[j]);
        }
        if ids_distinct(s) {
            assert(ids_distinct(p)) by {
                assert forall|i: int, j: int| 0 <= i < p.len() && 0 <= j < p.len() && i != j implies (#[trigger] p[i]).id != (#[trigger] p[j]).id by {
                    assert(p[i] == s[i] && p[j] == s[j]);
                }
            }
        }
        if s.last().deadline > now {
            let w2 = w.push(s.last());
            assert forall|i: int| 0 <= i < w2.len() implies exists|j: int| 0 <= j < s.len() && #[trigger] w2[i] == s[j] by {
                if i < w.len() {
                    assert(w2[i] == w[i]);
                } else {
                    assert(w2[i] == s[s.len() - 1]);
                }
            }
            assert forall|i: int| 0 <= i < w2.len() implies (#[trigger] w2[i]).deadline > now by {
                if i < w.len() {
                    assert(w2[i] == w[i]);
                }
            }
            assert forall|x: u64| has_id(w2, x) implies has_id(s, x) by {
                let i = choose|i: int| 0 <= i < w2.len() && (#[trigger] w2[i]).id == x;
                let j = choose|j: int| 0 <= j < s.len() && w2[i] == s[j];
            }
            if ids_distinct(s) {
                assert forall|i: int, j: int| 0 <= i < w2.len() && 0 <= j < w2.len() && i != j implies (#[trigger] w2[i]).id != (#[trigger] w2[j]).id by {
                    if i < w.len() && j < w.len() {
                        assert(w2[i] == w[i] && w2[j] == w[j]);
                    } else if i < w.len() {
                        assert(w2[i] == w[i]);
                        let k = choose|k: int| 0 <= k < p.len() && w[i] == p[k];
                        assert(s[k] == p[k]);
                    } else if j < w.len() {
                        assert(w2[j] == w[j]);
                        let k = choose|k: int| 0 <= k < p.len() && w[j] == p[k];
                        assert(s[k] == p[k]);
                    }
                }
            }
        } else {
            assert forall|x: u64| has_id(w, x) implies has_id(s, x) by {
                let i = choose|i: int| 0 <= i < w.len() && (#[trigger] w[i]).id == x;
                let j = choose|j: int| 0 <= j < s.len() && w[i] == s[j];
            }
        }
    }
}

/// Correlation: a response resolves at most one request, and once it has,
/// the same response resolves nothing more; every other request stays
/// pending.
pub proof fn lemma_resolved_once(pending: Seq<PendingRequest>, response: Json)
    ensures
        resolution(after_response(pending, response), response) is None,
        forall|id: u64| resolution(pending, response) == Some(id) ==> !has_id(after_response(pending, response), id),
        forall|x: u64| resolution(pending, response) != Some(x) ==> (has_id(after_response(pending, response), x) <==> has_id(pending, x)),
{
    if let Some(id) = echo_id(response) {
        lemma_without(pending, id);
    }
}

/// Uniqueness over a run of requests: where the requests of a run take
/// consecutive ids from the manager's next id on, as `request` ensures of
/// each, the ids are pairwise distinct and none of them was already pending.
pub proof fn lemma_run_ids_fresh(pending: Seq<PendingRequest>, next_id: u64, ids: Seq<u64>)
    requires
        forall|i: int| 0 <= i < pending.len() ==> (#[trigger] pending[i]).id < next_id,
        forall|i: int| 0 <= i < ids.len() ==> #[trigger] ids[i] == next_id + i,
    ensures
        forall|i: int, j: int| 0 <= i < ids.len() && 0 <= j < ids.len() && i != j ==> ids[i] != ids[j],
        forall|i: int| 0 <= i < ids.len() ==> !has_id(pending, #[trigger] ids[i]),
{
    assert forall|i: int, j: int| 0 <= i < ids.len() && 0 <= j < ids.len() && i != j implies ids[i] != ids[j] by {
        assert(ids[i] == next_id + i);
        assert(ids[j] == next_id + j);
    }
    assert forall|i: int| 0 <= i < ids.len() implies !has_id(pending, #[trigger] ids[i]) by {
        assert(ids[i] == next_id + i);
        if has_id(pending, ids[i]) {
            let k = choose|k: int| 0 <= k < pending.len() && (#[trigger] pending[k]).id == ids[i];
        }
    }
}

/// A response resolves exactly the pending request whose stamped tag its
/// `echo` is, letter for letter.
pub proof fn lemma_resolution_exact(pending: Seq<PendingRequest>, response: Json, id: u64)
    ensures
        resolution(pending, response) == Some(id) <==> (text_of_member(response, "echo"@) == Some(
            decimal_text(id as nat),
        ) && has_id(pending, id)),
{
    lemma_signed_text_round_trip(id as int);
    assert(signed_text(id as int) == decimal_text(id as nat));
}

/// Timeout: once `now` has reached a request's deadline and expiry has run,
/// a response that arrives late for it is discarded.
pub proof fn lemma_late_response_discarded(pending: Seq<PendingRequest>, now: u64, response: Json)
    requires
        echo_id(response) is Some,
        exists|i: int| 0 <= i < pending.len() && (#[trigger] pending[i]).id == echo_id(response).unwrap() && pending[i].deadline <= now,
        ids_distinct(pending),
    ensures
        resolution(live(pending, now), response) is None,
{
    lemma_live(pending, now);
    let id = echo_id(response).unwrap();
    let i = choose|i: int| 0 <= i < pending.len() && (#[trigger] pending[i]).id == id && pending[i].deadline <= now;
    if has_id(live(pending, now), id) {
        let k = choose|k: int| 0 <= k < live(pending, now).len() && (#[trigger] live(pending, now)[k]).id == id;
        let j = choose|j: int| 0 <= j < pending.len() && live(pending, now)[k] == pending[j];
        assert(pending[j].deadline > now);
    }
}

/// A response whose `echo` is the one stamped on a pending request resolves
/// that request.
pub proof fn lemma_echo_resolves(pending: Seq<PendingRequest>, frame: Json, action: Seq<char>, id: u64, params: Json, response: Json)
    requires
        request_frame(frame, action, id, params),
        text_of_member(response, "echo"@) == text_of_member(frame, "echo"@),
        has_id(pending, id),
    ensures
        resolution(pending, response) == Some(id),
{
    lemma_signed_text_round_trip(id as int);
    assert(signed_text(id as int) == decimal_text(id as nat));
}

} // verus!
