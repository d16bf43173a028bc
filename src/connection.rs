use crate::event::WhiteboardEvent;
use vstd::prelude::*;

verus! {

/// What a connection's outbound path got from its relay subscription.
pub enum Delivery {
    /// The next frame published on the relay.
    Frame(String),
    /// The subscription fell behind its buffer by this many frames.
    Lagged(u64),
    /// The relay is gone.
    Closed,
}

/// What a connection's inbound path read from its peer.
pub enum Inbound {
    /// A text frame.
    Text(String),
    /// A frame of another kind (binary, ping, pong, close).
    Other,
    /// The read failed or the stream ended.
    Ended,
}

/// What the runner of a connection is to do next.
pub enum Action {
    /// Write this frame to the peer.
    Send(String),
    /// Publish this frame on the relay.
    Publish(String),
    /// Stop both forwarding paths and drop the connection.
    TearDown,
}

/// One client's connection to the relay: two forwarding paths that live and
/// end together.
pub struct Connection {
    pub open: bool,
}

impl Connection {
    /// A connection whose two paths are running.
    pub fn new() -> (c: Connection)
        ensures
            c.open,
    {
        Connection { open: true }
    }

    /// The outbound path got `d`. A frame is written to the peer as it is;
    /// a lag or a closed relay tears the connection down. Nothing is written
    /// once the connection is down.
    pub fn outbound(&mut self, d: Delivery) -> (a: Action)
        ensures
            match d {
                Delivery::Frame(f) if old(self).open => {
                    &&& a matches Action::Send(g) && g@ == f@
                    &&& final(self).open
                },
                _ => a is TearDown && !final(self).open,
            },
    {
        if !self.open {
            return Action::TearDown;
        }
        match d {
            Delivery::Frame(f) => Action::Send(f),
            _ => {
                self.open = false;
                Action::TearDown
            },
        }
    }

    /// Writing a frame to the peer failed: the connection goes down.
    pub fn write_failed(&mut self) -> (a: Action)
        ensures
            a is TearDown,
            !final(self).open,
    {
        self.open = false;
        Action::TearDown
    }

    /// The inbound path read `m`. A text frame is published on the relay
    /// verbatim, without being decoded; anything else ends the connection.
    /// Nothing is published once the connection is down.
    pub fn inbound(&mut self, m: Inbound) -> (a: Action)
        ensures
            match m {
                Inbound::Text(f) if old(self).open => {
                    &&& a matches Action::Publish(g) && g@ == f@
                    &&& final(self).open
                },
                _ => a is TearDown && !final(self).open,
            },
    {
        if !self.open {
            return Action::TearDown;
        }
        match m {
            Inbound::Text(f) => Action::Publish(f),
            _ => {
                self.open = false;
                Action::TearDown
            },
        }
    }
}

/// State of a client's link to the relay, as shown to the user.
#[derive(Clone, Copy, Debug, PartialEq, Eq, Structural)]
pub enum LinkStatus {
    Connecting,
    Connected,
    Disconnected,
    Failed,
}

/// What a client's read loop got from its link.
pub enum Received {
    /// A text frame, with the event it decodes to, if it decodes.
    Text(Option<WhiteboardEvent>),
    /// A binary frame.
    Binary,
    /// The link failed.
    Error,
}

/// What a client's read loop is to do next.
pub enum ClientAction {
    /// Apply this event to the session and draw it.
    Apply(WhiteboardEvent),
    /// Drop the frame and read the next one.
    Ignore,
    /// Stop reading.
    Stop,
}

/// A client's link to the relay.
pub struct ClientLink {
    pub status: LinkStatus,
}

impl ClientLink {
    pub fn new() -> (l: ClientLink)
        ensures
            l.status == LinkStatus::Connecting,
    {
        ClientLink { status: LinkStatus::Connecting }
    }

    /// The link was opened (`true`) or could not be (`false`).
    pub fn opened(&mut self, ok: bool)
        ensures
            final(self).status == (if ok {
                LinkStatus::Connected
            } else {
                LinkStatus::Failed
            }),
    {
        self.status = if ok {
            LinkStatus::Connected
        } else {
            LinkStatus::Failed
        };
    }

    /// The read loop got `r`. A frame that decodes is applied; one that does
    /// not, and a binary frame, are dropped and reading goes on; an error
    /// marks the link disconnected and stops the loop.
    pub fn receive(&mut self, r: Received) -> (a: ClientAction)
        ensures
            match r {
                Received::Text(Some(e)) => a == ClientAction::Apply(e) && final(self).status
                    == old(self).status,
                Received::Text(None) | Received::Binary => a is Ignore && final(self).status
                    == old(self).status,
                Received::Error => a is Stop && final(self).status == LinkStatus::Disconnected,
            },
    {
        match r {
            Received::Text(Some(e)) => ClientAction::Apply(e),
            Received::Text(None) | Received::Binary => ClientAction::Ignore,
            Received::Error => {
                self.status = LinkStatus::Disconnected;
                ClientAction::Stop
            },
        }
    }
}

} // verus!
