//! The session engine: what the client owes the switcher for each packet it
//! receives, and what it tells its consumer.
//!
//! The engine holds no socket. It is a state machine from the session and an
//! event to the next session and a list of actions, which the caller
//! performs in order.

use crate::buffer::bytes_seq;
use crate::command::{decode_payload, record_decodes, split_records, RecordView};
use crate::packet::{packet_complete, split_packets, wire_size, Packet, PacketFlag, PacketView};
use crate::{Error, Message};
use bytes::Bytes;
use vstd::prelude::*;

verus! {

/// Where a session stands.
#[derive(Debug, Clone, Copy, PartialEq, Eq, Structural)]
pub enum State {
    /// Nothing was sent yet.
    Init,
    /// The hello went out; packets are answered and decoded.
    Open,
    /// The socket failed; nothing more happens.
    Closed,
}

/// The transport state between the client and one switcher.
#[derive(Debug)]
pub struct Session {
    state: State,
    next_client_id: u16,
    hello_sent: bool,
    uid: Option<u16>,
}

/// What a session holds.
pub struct SessionView {
    pub state: State,
    /// The number given to the latest numbered acknowledgement; 0 before
    /// the first.
    pub next_client_id: u16,
    pub hello_sent: bool,
    /// The session identifier of the switcher, once a packet came from it.
    pub uid: Option<u16>,
}

impl View for Session {
    type V = SessionView;

    closed spec fn view(&self) -> SessionView {
        SessionView {
            state: self.state,
            next_client_id: self.next_client_id,
            hello_sent: self.hello_sent,
            uid: self.uid,
        }
    }
}

impl SessionView {
    /// A session before anything happened.
    pub open spec fn initial() -> SessionView {
        SessionView { state: State::Init, next_client_id: 0, hello_sent: false, uid: None }
    }

    /// Whether the acknowledgement of `p` takes a number of its own: `p`
    /// asks for an acknowledgement and is no hello.
    pub open spec fn numbers_ack(p: PacketView) -> bool {
        !p.is_hello() && p.ack_request()
    }

    /// The acknowledgement that a session owes for `p`, if any.
    ///
    /// A hello is answered as packet 0; a request for acknowledgement is
    /// answered under the next number of the session. Either answer echoes
    /// the uid and the id of `p`.
    pub open spec fn ack_for(self, p: PacketView) -> Option<PacketView> {
        if p.is_hello() {
            Some(PacketView::ack(p.uid, p.id, 0))
        } else if p.ack_request() {
            Some(PacketView::ack(p.uid, p.id, (self.next_client_id + 1) as u16))
        } else {
            None
        }
    }

    /// The session after it received `p`.
    pub open spec fn after(self, p: PacketView) -> SessionView {
        SessionView {
            next_client_id: if SessionView::numbers_ack(p) {
                (self.next_client_id + 1) as u16
            } else {
                self.next_client_id
            },
            uid: if self.uid is None {
                Some(p.uid)
            } else {
                self.uid
            },
            ..self
        }
    }

    /// The records that a session decodes from `p`: those of its payload,
    /// unless `p` is a hello.
    pub open spec fn records_of(p: PacketView) -> Seq<Option<RecordView>> {
        if p.is_hello() {
            Seq::empty()
        } else {
            split_records(p.body())
        }
    }

    /// Whether the session cannot take the packet at a place of a datagram:
    /// its acknowledgement would take a number, and the numbers have run out.
    pub open spec fn blocked(self, place: Option<PacketView>) -> bool {
        place matches Some(p) && SessionView::numbers_ack(p) && self.next_client_id == u16::MAX
    }

    /// The session after the place `place` of a datagram. A packet cut off
    /// by the end of the datagram changes nothing.
    pub open spec fn after_place(self, place: Option<PacketView>) -> SessionView {
        match place {
            Some(p) => self.after(p),
            None => self,
        }
    }

    /// What the session does for the place `place` of a datagram, in order:
    /// the acknowledgement first, then one message for each record. A
    /// packet cut off by the end of the datagram is reported and nothing
    /// else.
    pub open spec fn steps_for(self, place: Option<PacketView>) -> Seq<Step> {
        match place {
            Some(p) => {
                let records = SessionView::records_of(p).map_values(
                    |r: Option<RecordView>| Step::Record(r),
                );
                match self.ack_for(p) {
                    Some(ack) => seq![Step::Ack(ack)] + records,
                    None => records,
                }
            },
            None => seq![Step::CutPacket],
        }
    }

    /// The session after a run of places.
    pub open spec fn after_all(self, places: Seq<Option<PacketView>>) -> SessionView
        decreases places.len(),
    {
        if places.len() == 0 {
            self
        } else {
            self.after_all(places.drop_last()).after_place(places.last())
        }
    }

    /// What the session does for a run of places, in order.
    pub open spec fn steps(self, places: Seq<Option<PacketView>>) -> Seq<Step>
        decreases places.len(),
    {
        if places.len() == 0 {
            Seq::empty()
        } else {
            self.steps(places.drop_last()) + self.after_all(places.drop_last()).steps_for(
                places.last(),
            )
        }
    }
}

/// One thing that the session does, as plain values.
pub enum Step {
    /// It sends this acknowledgement.
    Ack(PacketView),
    /// It publishes what this place of a payload decodes to.
    Record(Option<RecordView>),
    /// It publishes that a packet was cut off.
    CutPacket,
}

/// Whether `action` carries out `step`.
pub open spec fn performs(step: Step, action: Action) -> bool {
    match step {
        Step::Ack(ack) => action matches Action::Send(p) && p@ == ack,
        Step::Record(record) => action matches Action::Publish(m) && publishes(record, m),
        Step::CutPacket => action matches Action::Publish(
            Message::ParsingFailed(Error::TruncatedPacket),
        ),
    }
}

/// Whether the actions carry out the steps, one for one and in order.
pub open spec fn performs_all(steps: Seq<Step>, actions: Seq<Action>) -> bool {
    &&& actions.len() == steps.len()
    &&& forall|i: int| 0 <= i < steps.len() ==> performs(steps[i], #[trigger] actions[i])
}

/// What a session decides on a packet.
#[derive(Debug)]
pub struct Reply {
    /// The acknowledgement to send, before anything else is done.
    pub ack: Option<Packet>,
    /// Whether the payload of the packet is then to be decoded.
    pub decode: bool,
}

/// One thing for the caller to do.
#[derive(Debug)]
pub enum Action {
    /// Send this packet to the switcher.
    Send(Packet),
    /// Hand this message to the consumer.
    Publish(Message),
}

/// Whether `m` is the message for the place `record` of a payload: the
/// command that the record decodes to, or the failure to decode it.
pub open spec fn publishes(record: Option<RecordView>, m: Message) -> bool {
    match m {
        Message::Command(c) => record_decodes(record, Ok(c)),
        Message::ParsingFailed(Error::CommandError(e)) => record_decodes(record, Err(e)),
        _ => false,
    }
}

impl Session {
    /// A session before anything happened.
    pub fn new() -> (s: Session)
        ensures
            s@ == SessionView::initial(),
    {
        Session { state: State::Init, next_client_id: 0, hello_sent: false, uid: None }
    }

    pub fn state(&self) -> (state: State)
        ensures
            state == self@.state,
    {
        self.state
    }

    pub fn next_client_id(&self) -> (id: u16)
        ensures
            id == self@.next_client_id,
    {
        self.next_client_id
    }

    pub fn hello_sent(&self) -> (sent: bool)
        ensures
            sent == self@.hello_sent,
    {
        self.hello_sent
    }

    pub fn uid(&self) -> (uid: Option<u16>)
        ensures
            uid == self@.uid,
    {
        self.uid
    }

    /// Opens the session: the hello is to be sent, and the consumer is told
    /// that the session is open.
    pub fn open(&mut self) -> (actions: Vec<Action>)
        requires
            old(self)@.state == State::Init,
        ensures
            final(self)@ == (SessionView { state: State::Open, hello_sent: true, ..old(self)@ }),
            actions@.len() == 2,
            actions@[0] matches Action::Send(hello) && hello@ == (PacketView {
                flags: Some(PacketFlag::HELLO),
                uid: 0x1337,
                ack_id: 0,
                id: 0,
                payload: Some(seq![0x01u8, 0, 0, 0, 0, 0, 0, 0]),
            }),
            actions@[1] matches Action::Publish(Message::Connected),
    {
        self.state = State::Open;
        self.hello_sent = true;
        let mut actions: Vec<Action> = Vec::new();
        actions.push(Action::Send(Packet::new_hello_packet()));
        actions.push(Action::Publish(Message::Connected));
        actions
    }

    /// Whether the session can number one more acknowledgement.
    pub fn can_number_ack(&self) -> (can: bool)
        ensures
            can == (self@.next_client_id < u16::MAX),
    {
        self.next_client_id < u16::MAX
    }

    /// Decides what a received packet calls for.
    ///
    /// A hello is acknowledged as packet 0 and not decoded. A packet that
    /// asks for an acknowledgement gets one under the next number of the
    /// session, and is decoded after it. Any other packet is decoded.
    pub fn on_packet(&mut self, packet: &Packet) -> (reply: Reply)
        requires
            old(self)@.state == State::Open,
            !old(self)@.blocked(Some(packet@)),
        ensures
            final(self)@ == old(self)@.after(packet@),
            match reply.ack {
                Some(ack) => old(self)@.ack_for(packet@) == Some(ack@),
                None => old(self)@.ack_for(packet@) is None,
            },
            reply.decode == !packet@.is_hello(),
    {
        if self.uid.is_none() {
            self.uid = Some(packet.uid());
        }
        if packet.is_hello() {
            Reply { ack: Some(Packet::new_ack(packet.uid(), packet.id(), 0x0)), decode: false }
        } else if packet.ack_request() {
            self.next_client_id = self.next_client_id + 1;
            Reply {
                ack: Some(Packet::new_ack(packet.uid(), packet.id(), self.next_client_id)),
                decode: true,
            }
        } else {
            Reply { ack: None, decode: true }
        }
    }

    /// Does for one received packet what the session owes: the
    /// acknowledgement, if one is due, and after it one message for each
    /// record of the payload.
    pub fn handle_packet(&mut self, packet: &Packet) -> (actions: Vec<Action>)
        requires
            old(self)@.state == State::Open,
            !old(self)@.blocked(Some(packet@)),
        ensures
            final(self)@ == old(self)@.after(packet@),
            performs_all(old(self)@.steps_for(Some(packet@)), actions@),
    {
        let ghost before = self@;
        let ghost records = SessionView::records_of(packet@);
        let ghost acks: int = if before.ack_for(packet@) is Some {
            1
        } else {
            0
        };
        let mut actions: Vec<Action> = Vec::new();
        let reply = self.on_packet(packet);
        if let Some(ack) = reply.ack {
            actions.push(Action::Send(ack));
        }
        if reply.decode {
            if let Some(mut payload) = packet.payload() {
                let results = decode_payload(&mut payload);
                let ghost decoded = results@;
                for r in it: results
                    invariant
                        it.seq() == decoded,
                        decoded.len() == records.len(),
                        forall|i: int|
                            0 <= i < decoded.len() ==> record_decodes(
                                records[i],
                                #[trigger] decoded[i],
                            ),
                        0 <= acks <= 1,
                        actions@.len() == acks + it.index(),
                        acks == 1 ==> performs(
                            Step::Ack(before.ack_for(packet@)->0),
                            actions@[0],
                        ),
                        forall|i: int|
                            0 <= i < it.index() ==> performs(
                                Step::Record(records[i]),
                                #[trigger] actions@[acks + i],
                            ),
                {
                    let m = match r {
                        Ok(command) => Message::Command(command),
                        Err(e) => Message::ParsingFailed(Error::CommandError(e)),
                    };
                    actions.push(Action::Publish(m));
                }
            }
        }
        proof {
            let steps = before.steps_for(Some(packet@));
            assert forall|i: int| 0 <= i < steps.len() implies performs(
                steps[i],
                #[trigger] actions@[i],
            ) by {
                if acks == 1 {
                    if i > 0 {
                        assert(actions@[i] == actions@[acks + (i - 1)]);
                    }
                } else {
                    assert(actions@[i] == actions@[acks + i]);
                }
            }
        }
        actions
    }

    /// Does for one received datagram what the session owes, packet by
    /// packet in the order in which they stand in it.
    ///
    /// The actions of one packet come before those of the next, and within
    /// a packet the acknowledgement comes before the messages. The session
    /// stops in front of a packet whose acknowledgement it can no longer
    /// number, and leaves the datagram there; otherwise it leaves the
    /// datagram empty.
    pub fn on_datagram(&mut self, datagram: &mut Bytes) -> (actions: Vec<Action>)
        requires
            old(self)@.state == State::Open,
        ensures
            ({
                let places = split_packets(bytes_seq(*old(datagram)));
                let rest = split_packets(bytes_seq(*final(datagram)));
                let taken = places.len() - rest.len();
                &&& rest.len() <= places.len()
                &&& rest == places.skip(taken)
                &&& final(self)@ == old(self)@.after_all(places.take(taken))
                &&& performs_all(old(self)@.steps(places.take(taken)), actions@)
                &&& forall|j: int|
                    0 <= j < taken ==> !(#[trigger] old(self)@.after_all(places.take(j))).blocked(
                        places[j],
                    )
                &&& rest.len() > 0 ==> final(self)@.blocked(rest[0])
            }),
    {
        let ghost start = self@;
        let ghost places = split_packets(bytes_seq(*datagram));
        let ghost taken: int = 0;
        let mut actions: Vec<Action> = Vec::new();
        let mut stop = false;
        while !stop && !datagram.is_empty()
            invariant
                self@.state == State::Open,
                0 <= taken <= places.len(),
                split_packets(bytes_seq(*datagram)) == places.skip(taken),
                self@ == start.after_all(places.take(taken)),
                performs_all(start.steps(places.take(taken)), actions@),
                forall|j: int|
                    0 <= j < taken ==> !(#[trigger] start.after_all(places.take(j))).blocked(
                        places[j],
                    ),
                stop ==> taken < places.len() && self@.blocked(places[taken]),
            decreases
                    if stop {
                        0
                    } else {
                        bytes_seq(*datagram).len() + 1
                    },
        {
            let ghost wire = bytes_seq(*datagram);
            proof {
                assert(places.skip(taken).len() == places.len() - taken);
                assert(places[taken] == places.skip(taken)[0]);
                assert(places.take(taken + 1).drop_last() == places.take(taken));
                if packet_complete(wire) {
                    assert(split_packets(wire).skip(1) == split_packets(
                        wire.skip(wire_size(wire)),
                    ));
                }
            }
            let saved = datagram.clone();
            match Packet::try_deserialize(datagram) {
                Ok(packet) => {
                    if self.next_client_id == u16::MAX && packet.ack_request()
                        && !packet.is_hello() {
                        *datagram = saved;
                        stop = true;
                    } else {
                        let mut more = self.handle_packet(&packet);
                        actions.append(&mut more);
                        proof {
                            taken = taken + 1;
                        }
                    }
                },
                Err(e) => {
                    actions.push(Action::Publish(Message::ParsingFailed(e)));
                    proof {
                        taken = taken + 1;
                    }
                },
            }
        }
        actions
    }

    /// Ends the session on a failure of the socket.
    pub fn on_io_error(&mut self, error: std::io::Error) -> (m: Message)
        ensures
            final(self)@ == (SessionView { state: State::Closed, ..old(self)@ }),
            m matches Message::Disconnected(Error::SocketError(e)) && e == error,
    {
        self.state = State::Closed;
        Message::Disconnected(Error::SocketError(error))
    }
}

/// How many places of a run hold a packet whose acknowledgement takes a
/// number.
pub open spec fn numbered(places: Seq<Option<PacketView>>) -> nat
    decreases places.len(),
{
    if places.len() == 0 {
        0
    } else if places.last() matches Some(p) && SessionView::numbers_ack(p) {
        numbered(places.drop_last()) + 1
    } else {
        numbered(places.drop_last())
    }
}

/// An acknowledgement is owed exactly for a hello and for a request for
/// acknowledgement. It echoes the uid of the packet it answers, names the id
/// of that packet, carries the flag `ACK` alone and has no payload.
pub proof fn lemma_ack_echoes(s: SessionView, p: PacketView)
    ensures
        s.ack_for(p) is Some <==> p.is_hello() || p.ack_request(),
        s.ack_for(p) matches Some(ack) ==> {
            &&& ack.uid == p.uid
            &&& ack.ack_id == p.id
            &&& ack.flags == Some(PacketFlag::ACK)
            &&& ack.payload is None
        },
{
}

/// The answer to a hello is sent as packet 0 and takes no number: the
/// counter stays where it was, and nothing is decoded.
pub proof fn lemma_hello_reply(s: SessionView, p: PacketView)
    requires
        p.is_hello(),
    ensures
        s.ack_for(p) == Some(PacketView::ack(p.uid, p.id, 0)),
        s.after(p).next_client_id == s.next_client_id,
        SessionView::records_of(p).len() == 0,
{
}

/// The acknowledgement of a request takes the next number: the counter goes
/// up by exactly one, and the acknowledgement is sent under the new value.
pub proof fn lemma_numbered_ack(s: SessionView, p: PacketView)
    requires
        SessionView::numbers_ack(p),
        s.next_client_id < u16::MAX,
    ensures
        s.after(p).next_client_id == s.next_client_id + 1,
        s.ack_for(p) == Some(PacketView::ack(p.uid, p.id, s.after(p).next_client_id)),
{
}

/// A packet that neither is a hello nor asks for an acknowledgement gets
/// none and leaves the counter where it was.
pub proof fn lemma_plain_packet(s: SessionView, p: PacketView)
    requires
        !p.is_hello(),
        !p.ack_request(),
    ensures
        s.ack_for(p) is None,
        s.after(p).next_client_id == s.next_client_id,
{
}

/// Over a run of places, the counter goes up by one for each numbered
/// acknowledgement and by nothing else; while the numbers last, the session
/// is never blocked.
pub proof fn lemma_counter_counts(s: SessionView, places: Seq<Option<PacketView>>)
    requires
        s.next_client_id + numbered(places) <= u16::MAX,
    ensures
        s.after_all(places).next_client_id == s.next_client_id + numbered(places),
        s.after_all(places).state == s.state,
        forall|j: int|
            0 <= j < places.len() ==> !(#[trigger] s.after_all(places.take(j))).blocked(places[j]),
    decreases places.len(),
{
    if places.len() > 0 {
        let front = places.drop_last();
        lemma_counter_counts(s, front);
        assert forall|j: int| 0 <= j < places.len() implies !(#[trigger] s.after_all(
            places.take(j),
        )).blocked(places[j]) by {
            if j < front.len() {
                assert(places.take(j) == front.take(j));
            }
        }
    }
}

/// In a session that starts from nothing, the acknowledgements of requests
/// are numbered 1, 2, 3 and so on: after a run of places, the next one takes
/// the number of those before it, plus one.
pub proof fn lemma_ack_numbers_count_up(places: Seq<Option<PacketView>>, p: PacketView)
    requires
        numbered(places) < u16::MAX,
        SessionView::numbers_ack(p),
    ensures
        SessionView::initial().after_all(places).ack_for(p) == Some(
            PacketView::ack(p.uid, p.id, (numbered(places) + 1) as u16),
        ),
{
    lemma_counter_counts(SessionView::initial(), places);
}

} // verus!
