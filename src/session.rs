use vstd::prelude::*;
use crate::hub::{receive_step, BroadcastHub, Delivery, Observation, Subscription};

verus! {

/// A message received from a client, with its payload as bytes (a text
/// message as its UTF-8 encoding).
#[derive(Debug, Clone, PartialEq, Eq)]
pub enum ClientMessage {
    Binary(Vec<u8>),
    Text(Vec<u8>),
    Ping(Vec<u8>),
    Pong(Vec<u8>),
    Close,
    Frame,
}

/// The message carries data for the device; the others are protocol control.
pub open spec fn is_payload(m: ClientMessage) -> bool {
    m matches ClientMessage::Binary(_) || m matches ClientMessage::Text(_)
}

/// What the session's relay does next.
#[derive(Debug, Clone, PartialEq, Eq)]
pub enum SessionAction {
    /// Write these bytes to the device in one write call, holding the
    /// device's write lock for that call only.
    WriteDevice(Vec<u8>),
    /// Send these bytes to the client as one binary message.
    SendToClient(Vec<u8>),
    /// Nothing to do for this step; go on.
    Continue,
    /// Nothing published yet; wait for the next publish.
    WaitForData,
    /// The session is over: stop both directions.
    End,
}

/// What happens to a session, by direction.
pub ghost enum SessionEvent {
    /// Inbound: a message arrives; whether it carries a payload.
    Message(bool),
    /// Inbound: the client's stream ended or failed.
    ClientGone,
    /// Inbound: a device write finished; whether it succeeded.
    DeviceWrite(bool),
    /// Outbound: the relay asks the hub for the next chunk.
    Poll,
    /// Outbound: a send to the client finished; whether it succeeded.
    ClientSend(bool),
}

/// The event terminates one of the two directions.
pub open spec fn ends_session(e: SessionEvent) -> bool {
    match e {
        SessionEvent::ClientGone => true,
        SessionEvent::DeviceWrite(ok) => !ok,
        SessionEvent::ClientSend(ok) => !ok,
        _ => false,
    }
}

/// Whether a session that was `open` is still open after `e`.
pub open spec fn open_after(open: bool, e: SessionEvent) -> bool {
    open && !ends_session(e)
}

/// Whether a session that was `open` is still open after all of `events`.
pub open spec fn open_after_all(open: bool, events: Seq<SessionEvent>) -> bool
    decreases events.len(),
{
    if events.len() == 0 {
        open
    } else {
        open_after(open_after_all(open, events.drop_last()), events.last())
    }
}

/// One client's session: its subscription to the hub and whether both
/// directions still run. Once either direction ends, the whole session is
/// over and every later step of either direction answers `End`.
#[derive(Debug, Clone, Copy, PartialEq, Eq)]
pub struct ClientSession {
    subscription: Subscription,
    open: bool,
}

impl ClientSession {
    /// Both directions still run.
    pub closed spec fn is_open_spec(&self) -> bool {
        self.open
    }

    /// Sequence number of the next chunk the outbound direction reads.
    pub closed spec fn cursor(&self) -> nat {
        self.subscription.cursor()
    }

    /// A new session, subscribed to what `hub` publishes from now on.
    pub fn new(hub: &BroadcastHub) -> (r: Self)
        requires
            hub.wf(),
        ensures
            r.is_open_spec(),
            r.cursor() == hub@.history.len(),
    {
        ClientSession { subscription: hub.subscribe(), open: true }
    }

    /// Executable form of `is_open_spec`.
    pub fn is_open(&self) -> (r: bool)
        ensures
            r == self.is_open_spec(),
    {
        self.open
    }

    /// Inbound: a message from the client. Its payload goes to the device
    /// whole, in one write; control messages are ignored.
    pub fn on_client_message(&mut self, msg: ClientMessage) -> (act: SessionAction)
        ensures
            final(self).is_open_spec() == open_after(
                old(self).is_open_spec(),
                SessionEvent::Message(is_payload(msg)),
            ),
            final(self).cursor() == old(self).cursor(),
            !old(self).is_open_spec() ==> act == SessionAction::End,
            old(self).is_open_spec() ==> match msg {
                ClientMessage::Binary(p) => act matches SessionAction::WriteDevice(w) && w@ == p@,
                ClientMessage::Text(p) => act matches SessionAction::WriteDevice(w) && w@ == p@,
                _ => act == SessionAction::Continue,
            },
    {
        if !self.open {
            return SessionAction::End;
        }
        match msg {
            ClientMessage::Binary(p) => SessionAction::WriteDevice(p),
            ClientMessage::Text(p) => SessionAction::WriteDevice(p),
            _ => SessionAction::Continue,
        }
    }

    /// Inbound: the client's stream ended or failed. The session is over.
    pub fn on_client_gone(&mut self) -> (act: SessionAction)
        ensures
            final(self).is_open_spec() == open_after(
                old(self).is_open_spec(),
                SessionEvent::ClientGone,
            ),
            final(self).cursor() == old(self).cursor(),
            act == SessionAction::End,
    {
        self.open = false;
        SessionAction::End
    }

    /// Inbound: a device write finished. A failed write ends the session.
    pub fn on_device_write(&mut self, ok: bool) -> (act: SessionAction)
        ensures
            final(self).is_open_spec() == open_after(
                old(self).is_open_spec(),
                SessionEvent::DeviceWrite(ok),
            ),
            final(self).cursor() == old(self).cursor(),
            act == (if final(self).is_open_spec() {
                SessionAction::Continue
            } else {
                SessionAction::End
            }),
    {
        if !ok {
            self.open = false;
        }
        if self.open {
            SessionAction::Continue
        } else {
            SessionAction::End
        }
    }

    /// Outbound: takes the next chunk from the hub. A chunk is sent to the
    /// client; after a gap the relay skips ahead and goes on; with nothing new
    /// it waits.
    pub fn next_outbound(&mut self, hub: &BroadcastHub) -> (act: SessionAction)
        requires
            hub.wf(),
        ensures
            final(self).is_open_spec() == open_after(old(self).is_open_spec(), SessionEvent::Poll),
            !old(self).is_open_spec() ==> act == SessionAction::End && final(self).cursor()
                == old(self).cursor(),
            old(self).is_open_spec() ==> ({
                let (o, next) = receive_step(hub@, old(self).cursor());
                &&& final(self).cursor() == next
                &&& match o {
                    Observation::Item(k) => act matches SessionAction::SendToClient(c) && c@
                        == hub@.history[k as int],
                    Observation::Gap(_) => act == SessionAction::Continue,
                    Observation::Nothing => act == SessionAction::WaitForData,
                }
            }),
    {
        if !self.open {
            return SessionAction::End;
        }
        match hub.try_recv(&mut self.subscription) {
            Delivery::Chunk(c) => SessionAction::SendToClient(c),
            Delivery::Lagged(_) => SessionAction::Continue,
            Delivery::Empty => SessionAction::WaitForData,
        }
    }

    /// Outbound: a send to the client finished. A failed send ends the
    /// session.
    pub fn on_client_send(&mut self, ok: bool) -> (act: SessionAction)
        ensures
            final(self).is_open_spec() == open_after(
                old(self).is_open_spec(),
                SessionEvent::ClientSend(ok),
            ),
            final(self).cursor() == old(self).cursor(),
            act == (if final(self).is_open_spec() {
                SessionAction::Continue
            } else {
                SessionAction::End
            }),
    {
        if !ok {
            self.open = false;
        }
        if self.open {
            SessionAction::Continue
        } else {
            SessionAction::End
        }
    }
}

/// Ending either direction ends the session: after an event that terminates
/// one direction, the session is closed before every later event, of either
/// direction, so each later step answers `End` at once.
pub proof fn lemma_one_direction_ending_ends_both(events: Seq<SessionEvent>, i: int, j: int)
    requires
        0 <= i < j <= events.len(),
        ends_session(events[i]),
    ensures
        !open_after_all(true, events.take(j)),
    decreases j,
{
    let pre = events.take(j);
    assert(pre.drop_last() =~= events.take(j - 1));
    assert(pre.last() == events[j - 1]);
    if i < j - 1 {
        lemma_one_direction_ending_ends_both(events, i, j - 1);
    }
}

} // verus!
