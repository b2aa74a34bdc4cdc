//! The protocol adapter: the one owner of the gateway connection. Inbound
//! text frames are parsed and routed, by the presence of an `echo` member,
//! to the action-response bus or the event bus; outbound frames written into
//! either bus's fan-in queue are taken in turn, so neither side starves the
//! other, and written out as JSON text.

use crate::bus::{BusView, SignalHub, SignalPort};
use crate::json::{member, parse_json, parsed_json, print_json, printed_json, Json};
use vstd::prelude::*;

verus! {

/// Where an inbound frame goes.
#[derive(Debug, Clone, PartialEq)]
pub enum FrameRoute {
    /// It carries an `echo`: the answer to an action request.
    Response(Json),
    /// Any other JSON document: an event.
    Event(Json),
    /// Not JSON: dropped.
    Malformed,
}

pub open spec fn route_of(parsed: Option<Json>) -> FrameRoute {
    match parsed {
        None => FrameRoute::Malformed,
        Some(j) => if member(j, "echo"@) is Some {
            FrameRoute::Response(j)
        } else {
            FrameRoute::Event(j)
        },
    }
}

/// Routes a parsed frame (`None` where it did not parse).
pub fn classify(parsed: Option<Json>) -> (r: FrameRoute)
    ensures
        r == route_of(parsed),
{
    match parsed {
        None => FrameRoute::Malformed,
        Some(j) => if j.get("echo").is_some() {
            FrameRoute::Response(j)
        } else {
            FrameRoute::Event(j)
        },
    }
}

/// Parses an inbound text frame and routes it.
pub fn route_frame(text: &str) -> (r: FrameRoute)
    ensures
        r == route_of(parsed_json(text@)),
{
    classify(parse_json(text))
}

/// Which fan-in queue the next outbound frame comes from: the preferred
/// one where it has a frame, else the other.
pub open spec fn takes_action(prefer_action: bool, actions: int, events: int) -> bool {
    (prefer_action && actions > 0) || events == 0
}

/// What an inbound frame did.
#[derive(Debug, Clone, Copy, PartialEq, Eq, Structural)]
pub enum Inbound {
    Response,
    Event,
    Malformed,
    /// The bus it was routed to had no room left; it was dropped.
    Dropped,
}

pub struct NapcatAdapter {
    ws_event_hub: SignalHub<Json>,
    ws_action_hub: SignalHub<Json>,
    prefer_action: bool,
}

impl NapcatAdapter {
    pub closed spec fn events(&self) -> BusView<Json> {
        self.ws_event_hub@
    }

    pub closed spec fn actions(&self) -> BusView<Json> {
        self.ws_action_hub@
    }

    /// Whether the next outbound frame is taken from the action queue first.
    pub closed spec fn prefers_action(&self) -> bool {
        self.prefer_action
    }

    pub open spec fn wf(&self) -> bool {
        &&& self.events().wf() && !self.events().closed
        &&& self.actions().wf() && !self.actions().closed
    }

    pub fn new() -> (r: NapcatAdapter)
        ensures
            r.wf(),
            r.events().window.len() == 0 && r.events().inbox.len() == 0 && r.events().next() == 0,
            r.actions().window.len() == 0 && r.actions().inbox.len() == 0 && r.actions().next() == 0,
            r.events().ports == 0 && r.actions().ports == 0,
            !r.prefers_action(),
    {
        NapcatAdapter { ws_event_hub: SignalHub::new(), ws_action_hub: SignalHub::new(), prefer_action: false }
    }

    /// A port onto the event bus: reads inbound events, writes outbound frames.
    pub fn get_event_port(&mut self) -> (r: SignalPort)
        requires
            old(self).wf(),
            old(self).events().ports < u64::MAX,
        ensures
            final(self).wf(),
            r.position() == old(self).events().next(),
            final(self).events() == (BusView { ports: old(self).events().ports + 1, ..old(self).events() }),
            final(self).actions() == old(self).actions(),
            final(self).prefers_action() == old(self).prefers_action(),
    {
        self.ws_event_hub.get_port()
    }

    /// A port onto the action bus: reads responses, writes requests.
    pub fn get_action_port(&mut self) -> (r: SignalPort)
        requires
            old(self).wf(),
            old(self).actions().ports < u64::MAX,
        ensures
            final(self).wf(),
            r.position() == old(self).actions().next(),
            final(self).actions() == (BusView { ports: old(self).actions().ports + 1, ..old(self).actions() }),
            final(self).events() == old(self).events(),
            final(self).prefers_action() == old(self).prefers_action(),
    {
        self.ws_action_hub.get_port()
    }

    pub fn event_hub(&self) -> (r: &SignalHub<Json>)
        ensures
            r@ == self.events(),
    {
        &self.ws_event_hub
    }

    pub fn action_hub(&self) -> (r: &SignalHub<Json>)
        ensures
            r@ == self.actions(),
    {
        &self.ws_action_hub
    }

    /// Takes in one text frame from the connection and publishes it on the
    /// bus its route names; a frame that is not JSON is dropped, and so is
    /// one whose bus has no live port or no room left.
    pub fn on_frame(&mut self, text: &str) -> (r: Inbound)
        requires
            old(self).wf(),
        ensures
            final(self).wf(),
            final(self).prefers_action() == old(self).prefers_action(),
            match route_of(parsed_json(text@)) {
                FrameRoute::Malformed => r == Inbound::Malformed && final(self).events() == old(self).events()
                    && final(self).actions() == old(self).actions(),
                FrameRoute::Response(j) => final(self).events() == old(self).events() && if old(self).actions().next() < u64::MAX && old(self).actions().ports > 0 {
                    r == Inbound::Response && final(self).actions() == old(self).actions().publish(j)
                } else {
                    r == Inbound::Dropped && final(self).actions() == old(self).actions()
                },
                FrameRoute::Event(j) => final(self).actions() == old(self).actions() && if old(self).events().next() < u64::MAX && old(self).events().ports > 0 {
                    r == Inbound::Event && final(self).events() == old(self).events().publish(j)
                } else {
                    r == Inbound::Dropped && final(self).events() == old(self).events()
                },
            },
    {
        match route_frame(text) {
            FrameRoute::Malformed => Inbound::Malformed,
            FrameRoute::Response(j) => {
                if self.ws_action_hub.next_seq() == u64::MAX {
                    return Inbound::Dropped;
                }
                match self.ws_action_hub.send(j) {
                    Ok(_) => Inbound::Response,
                    Err(_) => Inbound::Dropped,
                }
            },
            FrameRoute::Event(j) => {
                if self.ws_event_hub.next_seq() == u64::MAX {
                    return Inbound::Dropped;
                }
                match self.ws_event_hub.send(j) {
                    Ok(_) => Inbound::Event,
                    Err(_) => Inbound::Dropped,
                }
            },
        }
    }

    /// Writes `frame` into the action bus's fan-in queue, to go out in turn.
    pub fn submit_action(&mut self, frame: Json)
        requires
            old(self).wf(),
        ensures
            final(self).wf(),
            final(self).actions() == (BusView { inbox: old(self).actions().inbox.push(frame), ..old(self).actions() }),
            final(self).events() == old(self).events(),
            final(self).prefers_action() == old(self).prefers_action(),
    {
        let _ = self.ws_action_hub.submit(frame);
    }

    /// Writes `frame` into the event bus's fan-in queue, to go out in turn.
    pub fn submit_event(&mut self, frame: Json)
        requires
            old(self).wf(),
        ensures
            final(self).wf(),
            final(self).events() == (BusView { inbox: old(self).events().inbox.push(frame), ..old(self).events() }),
            final(self).actions() == old(self).actions(),
            final(self).prefers_action() == old(self).prefers_action(),
    {
        let _ = self.ws_event_hub.submit(frame);
    }

    /// The next frame to write to the connection, as JSON text: taken from
    /// the preferred queue where it has one, else from the other; the
    /// preference then turns to the queue not taken from.
    pub fn next_outbound(&mut self) -> (r: Option<String>)
        requires
            old(self).wf(),
        ensures
            final(self).wf(),
            ({
                let a = old(self).actions().inbox;
                let e = old(self).events().inbox;
                if a.len() == 0 && e.len() == 0 {
                    r is None && final(self).actions() == old(self).actions() && final(self).events() == old(self).events()
                        && final(self).prefers_action() == old(self).prefers_action()
                } else if takes_action(old(self).prefers_action(), a.len() as int, e.len() as int) {
                    r matches Some(t) && t@ == printed_json(a[0])
                        && final(self).actions() == (BusView { inbox: a.drop_first(), ..old(self).actions() })
                        && final(self).events() == old(self).events()
                        && final(self).prefers_action() == false
                } else {
                    r matches Some(t) && t@ == printed_json(e[0])
                        && final(self).events() == (BusView { inbox: e.drop_first(), ..old(self).events() })
                        && final(self).actions() == old(self).actions()
                        && final(self).prefers_action() == true
                }
            }),
    {
        let a = self.ws_action_hub.inbox_len();
        let e = self.ws_event_hub.inbox_len();
        if a == 0 && e == 0 {
            return None;
        }
        if (self.prefer_action && a > 0) || e == 0 {
            let frame = self.ws_action_hub.recv();
            self.prefer_action = false;
            match frame {
                Some(j) => Some(print_json(&j)),
                None => None,
            }
        } else {
            let frame = self.ws_event_hub.recv();
            self.prefer_action = true;
            match frame {
                Some(j) => Some(print_json(&j)),
                None => None,
            }
        }
    }
}

/// Fairness: while both queues hold frames, consecutive outbound frames
/// come from alternate queues.
pub proof fn lemma_outbound_alternates(prefer_action: bool, actions: int, events: int)
    requires
        actions > 0,
        events > 0,
    ensures
        takes_action(prefer_action, actions, events) == prefer_action,
        takes_action(!takes_action(prefer_action, actions, events), actions, events) != takes_action(prefer_action, actions, events),
{
}

} // verus!
