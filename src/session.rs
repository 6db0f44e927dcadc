//! The session controller: the phases of the node, and what it does with
//! each network event, in the order the events arrive.
use vstd::prelude::*;
use vstd::string::StringExecFns;

verus! {

/// Where the node stands in its life.
#[derive(Debug, Clone, Copy, PartialEq, Eq, Structural)]
pub enum Phase {
    /// Not yet listening.
    Idle,
    /// Bound to a local address, no dial issued.
    Listening,
    /// The circuit dial is issued and not yet resolved.
    Dialing,
    /// A connection is established.
    Connected,
    /// The connection closed; events are still taken in.
    Closed,
}

/// A network event, with its parts already rendered as text.
#[derive(Debug, Clone, PartialEq, Eq)]
pub enum NodeEvent {
    /// A ping round trip with `peer` completed.
    Ping { peer: String },
    /// The node listens on a new local address.
    NewListenAddr { address: String },
    /// A connection with `peer` was established; `description` renders the whole event.
    ConnectionEstablished { peer: String, description: String },
    /// The connection with `peer` closed, with an error or gracefully.
    ConnectionClosed { peer: String, cause: Option<String> },
    /// Any other event, rendered whole.
    Other { description: String },
}

/// The line logged for an event.
pub open spec fn log_line(e: NodeEvent) -> Seq<char> {
    match e {
        NodeEvent::Ping { peer } => "Ping with "@ + peer@,
        NodeEvent::NewListenAddr { address } => "Listening on "@ + address@,
        NodeEvent::ConnectionClosed { peer, cause } => match cause {
            Some(c) => "Connection with "@ + peer@ + " closed due to error: "@ + c@,
            None => "Connection with "@ + peer@ + " closed gracefully"@,
        },
        NodeEvent::ConnectionEstablished { description, .. } => "Unhandled swarm event: "@
            + description@,
        NodeEvent::Other { description } => "Unhandled swarm event: "@ + description@,
    }
}

/// The lines logged for a run of events, one per event, in the same order.
pub open spec fn log_lines(events: Seq<NodeEvent>) -> Seq<Seq<char>> {
    events.map_values(|e: NodeEvent| log_line(e))
}

/// The phase after one event: an established connection connects, a closed
/// one closes for good, anything else leaves the phase as it was.
pub open spec fn next_phase(p: Phase, e: NodeEvent) -> Phase {
    if p == Phase::Closed {
        Phase::Closed
    } else {
        match e {
            NodeEvent::ConnectionEstablished { .. } => Phase::Connected,
            NodeEvent::ConnectionClosed { .. } => Phase::Closed,
            _ => p,
        }
    }
}

/// The phase after a run of events, taken in order.
pub open spec fn phase_after(p: Phase, events: Seq<NodeEvent>) -> Phase
    decreases events.len(),
{
    if events.len() == 0 {
        p
    } else {
        next_phase(phase_after(p, events.drop_last()), events.last())
    }
}

/// The line logged once the local identity is known.
pub open spec fn identity_line(peer: Seq<char>) -> Seq<char> {
    "Node 1 - Peer ID: "@ + peer
}

/// The line logged once the local identity is known.
pub fn identity_report(peer: &String) -> (r: String)
    ensures
        r@ == identity_line(peer@),
{
    let mut line = String::from_str("Node 1 - Peer ID: ");
    line.append(peer.as_str());
    line
}

/// The controller of one node's session.
pub struct Session {
    phase: Phase,
}

impl Session {
    pub closed spec fn phase(&self) -> Phase {
        self.phase
    }

    pub fn new() -> (r: Session)
        ensures
            r.phase() == Phase::Idle,
    {
        Session { phase: Phase::Idle }
    }

    pub fn current_phase(&self) -> (r: Phase)
        ensures
            r == self.phase(),
    {
        self.phase
    }

    /// The local listen address is bound.
    pub fn listening(&mut self)
        requires
            old(self).phase() == Phase::Idle,
        ensures
            final(self).phase() == Phase::Listening,
    {
        self.phase = Phase::Listening;
    }

    /// The one circuit dial is issued.
    pub fn dialing(&mut self)
        requires
            old(self).phase() == Phase::Listening,
        ensures
            final(self).phase() == Phase::Dialing,
    {
        self.phase = Phase::Dialing;
    }

    /// Takes one event: moves to the next phase and gives the line to log.
    pub fn handle(&mut self, e: &NodeEvent) -> (line: String)
        ensures
            line@ == log_line(*e),
            final(self).phase() == next_phase(old(self).phase(), *e),
    {
        if self.phase != Phase::Closed {
            match e {
                NodeEvent::ConnectionEstablished { .. } => {
                    self.phase = Phase::Connected;
                },
                NodeEvent::ConnectionClosed { .. } => {
                    self.phase = Phase::Closed;
                },
                _ => {},
            }
        }
        match e {
            NodeEvent::Ping { peer } => {
                let mut line = String::from_str("Ping with ");
                line.append(peer.as_str());
                line
            },
            NodeEvent::NewListenAddr { address } => {
                let mut line = String::from_str("Listening on ");
                line.append(address.as_str());
                line
            },
            NodeEvent::ConnectionClosed { peer, cause } => {
                let mut line = String::from_str("Connection with ");
                line.append(peer.as_str());
                match cause {
                    Some(c) => {
                        line.append(" closed due to error: ");
                        line.append(c.as_str());
                    },
                    None => {
                        line.append(" closed gracefully");
                    },
                }
                line
            },
            NodeEvent::ConnectionEstablished { description, .. } => {
                let mut line = String::from_str("Unhandled swarm event: ");
                line.append(description.as_str());
                line
            },
            NodeEvent::Other { description } => {
                let mut line = String::from_str("Unhandled swarm event: ");
                line.append(description.as_str());
                line
            },
        }
    }

    /// Takes a run of events in the order they arrived: one line per event,
    /// in the same order.
    pub fn handle_all(&mut self, events: &Vec<NodeEvent>) -> (lines: Vec<String>)
        ensures
            lines@.len() == events@.len(),
            forall|i: int| 0 <= i < lines@.len() ==> #[trigger] lines@[i]@ == log_lines(events@)[i],
            final(self).phase() == phase_after(old(self).phase(), events@),
    {
        let ghost start = self.phase();
        let mut lines: Vec<String> = Vec::new();
        let mut i: usize = 0;
        while i < events.len()
            invariant
                i <= events@.len(),
                lines@.len() == i,
                forall|j: int| 0 <= j < i ==> #[trigger] lines@[j]@ == log_line(events@[j]),
                self.phase() == phase_after(start, events@.subrange(0, i as int)),
            decreases events@.len() - i,
        {
            let line = self.handle(&events[i]);
            lines.push(line);
            proof {
                assert(events@.subrange(0, i as int + 1).drop_last() =~= events@.subrange(0, i as int));
            }
            i = i + 1;
        }
        assert(events@.subrange(0, events@.len() as int) =~= events@);
        lines
    }
}

/// Events are handled in the order they arrive: handling a run in two parts
/// logs the lines of the first part, then those of the second, and ends in
/// the same phase as handling it at once.
pub proof fn lemma_dispatch_order(p: Phase, first: Seq<NodeEvent>, second: Seq<NodeEvent>)
    ensures
        log_lines(first + second) == log_lines(first) + log_lines(second),
        phase_after(p, first + second) == phase_after(phase_after(p, first), second),
    decreases second.len(),
{
    assert(log_lines(first + second) =~= log_lines(first) + log_lines(second));
    if second.len() > 0 {
        lemma_dispatch_order(p, first, second.drop_last());
        assert((first + second).drop_last() =~= first + second.drop_last());
    } else {
        assert(first + second =~= first);
    }
}

} // verus!
