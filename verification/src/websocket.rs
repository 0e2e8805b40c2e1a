//! Dashboard sessions: one subscriber, fed from the hub over a transport
//! that also carries its commands.
//!
//! A session has an outbound flow, which forwards records, and an inbound
//! flow, which takes commands. When either ends the session is closed, and
//! the other flow stops with it.

use crate::hub::{BroadcastHub, Cursor, Delivery, HubState};
use crate::record::LogRecord;
use vstd::prelude::*;

verus! {

/// What the transport handed in from the subscriber.
#[derive(Debug)]
pub enum Inbound {
    /// A text message: a filter update in the making.
    Text(String),
    /// The subscriber closes the connection.
    Close,
    /// A message of another kind.
    Other,
    /// Reading failed.
    Failed,
    /// The transport has nothing more to read.
    Ended,
}

/// What the session does with an inbound message.
#[derive(Clone, Copy, Debug, PartialEq, Eq, Structural)]
pub enum InboundStep {
    /// The text was taken as a command. No command has an effect yet.
    Accepted,
    /// Nothing to do; read on.
    Ignored,
    /// The inbound flow, and the session with it, has ended.
    Stop,
}

/// What the outbound flow does next.
#[derive(Debug)]
pub enum OutboundStep {
    /// Write this record to the subscriber.
    Send(LogRecord),
    /// So many records were dropped before the subscriber could read them;
    /// go on with the oldest that is left.
    Skipped(u64),
    /// Nothing to send until the hub publishes again.
    Wait,
    /// The session is closed.
    Stop,
}

/// A session seen from outside: where its cursor stands and whether it is
/// still open.
pub struct SessionState {
    pub position: nat,
    pub open: bool,
}

impl SessionState {
    /// The step for an inbound message: a closed session stops; a close, a
    /// failure and the end of the transport stop it; a text is accepted; any
    /// other message is ignored.
    pub open spec fn inbound_step(self, message: Inbound) -> InboundStep {
        if !self.open {
            InboundStep::Stop
        } else {
            match message {
                Inbound::Text(_) => InboundStep::Accepted,
                Inbound::Other => InboundStep::Ignored,
                Inbound::Close => InboundStep::Stop,
                Inbound::Failed => InboundStep::Stop,
                Inbound::Ended => InboundStep::Stop,
            }
        }
    }

    /// The session after an inbound message: closed after a step that stops.
    pub open spec fn after_inbound(self, message: Inbound) -> SessionState {
        SessionState { open: self.inbound_step(message) != InboundStep::Stop, ..self }
    }

    /// The session after a look for the next record on `hub`: an open
    /// session moves its cursor as a read does, a closed one stays.
    pub open spec fn after_outbound(self, hub: HubState) -> SessionState {
        if self.open {
            SessionState { position: hub.position_after(self.position), ..self }
        } else {
            self
        }
    }

    /// The session after a write: closed where the write failed.
    pub open spec fn after_write(self, written: bool) -> SessionState {
        SessionState { open: self.open && written, ..self }
    }
}

/// The state of one dashboard session.
#[derive(Debug)]
pub struct DashboardSession {
    cursor: Cursor,
    open: bool,
}

impl View for DashboardSession {
    type V = SessionState;

    closed spec fn view(&self) -> SessionState {
        SessionState { position: self.cursor@, open: self.open }
    }
}

impl DashboardSession {
    /// Opens a session on `hub`. It is sent what is published from now on,
    /// and nothing of what was published before.
    pub fn start(hub: &BroadcastHub) -> (session: DashboardSession)
        ensures
            session@ == (SessionState { position: hub@.history.len(), open: true }),
    {
        DashboardSession { cursor: hub.subscribe(), open: true }
    }

    /// Whether both flows are still running.
    pub fn is_open(&self) -> (open: bool)
        ensures
            open == self@.open,
    {
        self.open
    }

    /// Takes one message from the subscriber. A text is accepted as a
    /// command, without any effect so far; a close, a failed read and the end
    /// of the transport close the session.
    pub fn on_inbound(&mut self, message: &Inbound) -> (step: InboundStep)
        ensures
            step == old(self)@.inbound_step(*message),
            final(self)@ == old(self)@.after_inbound(*message),
    {
        if !self.open {
            return InboundStep::Stop;
        }
        match message {
            Inbound::Text(_) => InboundStep::Accepted,
            Inbound::Other => InboundStep::Ignored,
            _ => {
                self.open = false;
                InboundStep::Stop
            },
        }
    }

    /// Says what the outbound flow does next: send the record that the
    /// cursor is handed, go on after a gap, wait for the hub, or stop because
    /// the session is closed.
    pub fn next_outbound(&mut self, hub: &BroadcastHub) -> (step: OutboundStep)
        ensures
            final(self)@ == old(self)@.after_outbound(hub@),
            match step {
                OutboundStep::Stop => !old(self)@.open,
                OutboundStep::Send(record) => old(self)@.open && hub@.hands_over(
                    old(self)@.position,
                ) == Some(record@),
                OutboundStep::Skipped(missed) => old(self)@.open && old(self)@.position
                    < hub@.oldest() && missed == hub@.missed(old(self)@.position),
                OutboundStep::Wait => old(self)@.open && old(self)@.position
                    >= hub@.history.len(),
            },
    {
        if !self.open {
            return OutboundStep::Stop;
        }
        match hub.poll(&mut self.cursor) {
            Delivery::Record(record) => OutboundStep::Send(record),
            Delivery::Missed(missed) => OutboundStep::Skipped(missed),
            Delivery::Pending => OutboundStep::Wait,
        }
    }

    /// Takes note of how a write to the subscriber went: a failed write
    /// closes the session.
    pub fn on_write(&mut self, written: bool)
        ensures
            final(self)@ == old(self)@.after_write(written),
    {
        if !written {
            self.open = false;
        }
    }
}

/// Once either flow has ended the session, both have stopped: whatever comes
/// in, the inbound flow stops, the outbound flow stops and sends nothing, and
/// the session stays closed.
pub proof fn law_closed_session_stays_closed(
    session: SessionState,
    message: Inbound,
    hub: HubState,
    written: bool,
)
    requires
        !session.open,
    ensures
        session.inbound_step(message) == InboundStep::Stop,
        session.after_inbound(message) == session,
        session.after_outbound(hub) == session,
        session.after_write(written) == session,
{
}

} // verus!
