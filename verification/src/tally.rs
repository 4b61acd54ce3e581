//! Tally records: which inputs and sources are in program or preview.

use crate::buffer::{be_u16, bytes_seq, get_u16, get_u8};
use bytes::Bytes;
use std::ops::Deref;
use vstd::prelude::*;

verus! {

/// Whether something is in program, in preview, both or neither.
#[derive(Debug, Clone, Copy, PartialEq, Eq, Structural)]
pub struct TallyState {
    pub program: bool,
    pub preview: bool,
}

impl Default for TallyState {
    fn default() -> (t: TallyState)
        ensures
            t == (TallyState { program: false, preview: false }),
    {
        TallyState { program: false, preview: false }
    }
}

impl TallyState {
    pub fn new(program: bool, preview: bool) -> (t: TallyState)
        ensures
            t == (TallyState { program, preview }),
    {
        TallyState { program, preview }
    }

    /// The state that a tally byte states: bit 0 is program, bit 1 preview.
    pub open spec fn from_byte(byte: u8) -> TallyState {
        TallyState { program: byte & 0x01 != 0, preview: byte & 0x02 != 0 }
    }
}

/// The tally state of every input, in input order.
#[derive(Debug, PartialEq, Eq)]
pub struct TallyInputs {
    pub tally_states: Vec<TallyState>,
}

impl View for TallyInputs {
    type V = Seq<TallyState>;

    open spec fn view(&self) -> Seq<TallyState> {
        self.tally_states@
    }
}

impl TallyInputs {
    /// The number of inputs that a record body announces.
    pub open spec fn count(body: Seq<u8>) -> int {
        be_u16(body[0], body[1]) as int
    }

    /// Whether a record body holds its count and one byte for each input.
    pub open spec fn complete(body: Seq<u8>) -> bool {
        body.len() >= 2 && body.len() >= 2 + TallyInputs::count(body)
    }

    /// The tally states that a record body states.
    pub open spec fn decode(body: Seq<u8>) -> Seq<TallyState> {
        Seq::new(TallyInputs::count(body) as nat, |i: int| TallyState::from_byte(body[2 + i]))
    }

    /// Whether the body holds as many entries as it announces.
    pub fn is_complete(data: &Bytes) -> (c: bool)
        ensures
            c == TallyInputs::complete(bytes_seq(*data)),
    {
        let body: &[u8] = data.deref();
        if body.len() < 2 {
            false
        } else {
            let count: usize = (body[0] as usize) * 256 + (body[1] as usize);
            body.len() - 2 >= count
        }
    }

    pub fn parse(data: &mut Bytes) -> (r: TallyInputs)
        requires
            TallyInputs::complete(bytes_seq(*old(data))),
        ensures
            r@ == TallyInputs::decode(bytes_seq(*old(data))),
            bytes_seq(*final(data)) == bytes_seq(*old(data)).skip(
                2 + TallyInputs::count(bytes_seq(*old(data))),
            ),
    {
        let ghost body = bytes_seq(*data);
        let count = get_u16(data);
        let mut tally_states: Vec<TallyState> = Vec::new();

        for i in 0..count
            invariant
                TallyInputs::complete(body),
                count == TallyInputs::count(body),
                bytes_seq(*data) == body.skip(2 + i),
                tally_states@.len() == i,
                forall|j: int| 0 <= j < i ==> tally_states@[j] == TallyState::from_byte(body[2 + j]),
        {
            let byte = get_u8(data);
            tally_states.push(TallyState::new((byte & 0x01) != 0, (byte & 0x02) != 0));
        }

        TallyInputs { tally_states }
    }
}

/// The tally state of one source.
#[derive(Debug, Clone, Copy, PartialEq, Eq, Structural)]
pub struct SourceTally {
    pub source_id: u16,
    pub state: TallyState,
}

impl SourceTally {
    pub fn new(source_id: u16, state: TallyState) -> (t: SourceTally)
        ensures
            t == (SourceTally { source_id, state }),
    {
        SourceTally { source_id, state }
    }
}

/// The tally state of the sources that the switcher lists, in its order.
#[derive(Debug, PartialEq, Eq)]
pub struct TallySources {
    pub tally_states: Vec<SourceTally>,
}

impl View for TallySources {
    type V = Seq<SourceTally>;

    open spec fn view(&self) -> Seq<SourceTally> {
        self.tally_states@
    }
}

impl TallySources {
    /// The number of sources that a record body announces.
    pub open spec fn count(body: Seq<u8>) -> int {
        be_u16(body[0], body[1]) as int
    }

    /// Whether a record body holds its count and three bytes for each source.
    pub open spec fn complete(body: Seq<u8>) -> bool {
        body.len() >= 2 && body.len() >= 2 + 3 * TallySources::count(body)
    }

    /// The entry at place `i` of a record body: a source id, then a tally byte.
    pub open spec fn entry(body: Seq<u8>, i: int) -> SourceTally {
        SourceTally {
            source_id: be_u16(body[2 + 3 * i], body[3 + 3 * i]),
            state: TallyState::from_byte(body[4 + 3 * i]),
        }
    }

    /// The entries that a record body states.
    pub open spec fn decode(body: Seq<u8>) -> Seq<SourceTally> {
        Seq::new(TallySources::count(body) as nat, |i: int| TallySources::entry(body, i))
    }

    /// Whether the body holds as many entries as it announces.
    pub fn is_complete(data: &Bytes) -> (c: bool)
        ensures
            c == TallySources::complete(bytes_seq(*data)),
    {
        let body: &[u8] = data.deref();
        if body.len() < 2 {
            false
        } else {
            let count: usize = (body[0] as usize) * 256 + (body[1] as usize);
            body.len() - 2 >= 3 * count
        }
    }

    pub fn parse(data: &mut Bytes) -> (r: TallySources)
        requires
            TallySources::complete(bytes_seq(*old(data))),
        ensures
            r@ == TallySources::decode(bytes_seq(*old(data))),
            bytes_seq(*final(data)) == bytes_seq(*old(data)).skip(
                2 + 3 * TallySources::count(bytes_seq(*old(data))),
            ),
    {
        let ghost body = bytes_seq(*data);
        let count = get_u16(data);
        let mut tally_states: Vec<SourceTally> = Vec::new();

        for i in 0..count
            invariant
                TallySources::complete(body),
                count == TallySources::count(body),
                bytes_seq(*data) == body.skip(2 + 3 * i),
                tally_states@.len() == i,
                forall|j: int| 0 <= j < i ==> tally_states@[j] == TallySources::entry(body, j),
        {
            let source_id = get_u16(data);
            let byte = get_u8(data);
            tally_states.push(
                SourceTally::new(
                    source_id,
                    TallyState::new((byte & 0x01) != 0, (byte & 0x02) != 0),
                ),
            );
        }

        TallySources { tally_states }
    }
}

} // verus!
