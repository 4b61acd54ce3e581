//! Records about the transition between preview and program.

use crate::buffer::{be_u16, bytes_seq, get_u16, get_u8};
use bytes::Bytes;
use vstd::prelude::*;

verus! {

/// What takes part in a transition: the background and any of the keys.
#[derive(Debug, Clone, Copy, PartialEq, Eq, Hash, Structural)]
pub struct TransitionSelection {
    pub bits: u8,
}

impl TransitionSelection {
    pub const BACKGROUND: u8 = 0x01;

    pub const KEY1: u8 = 0x02;

    pub const KEY2: u8 = 0x04;

    pub const KEY3: u8 = 0x08;

    pub const KEY4: u8 = 0x10;

    pub const KEY5: u8 = 0x20;

    pub const KEY6: u8 = 0x40;

    pub const KEY7: u8 = 0x80;

    /// The set with exactly the given bits.
    pub fn from_bits_retain(bits: u8) -> (s: TransitionSelection)
        ensures
            s.bits == bits,
    {
        TransitionSelection { bits }
    }

    pub fn bits(&self) -> (b: u8)
        ensures
            b == self.bits,
    {
        self.bits
    }

    /// Whether every bit of `mask` is in the set.
    pub fn contains(&self, mask: u8) -> (c: bool)
        ensures
            c == (self.bits & mask == mask),
    {
        self.bits & mask == mask
    }
}

/// The effect that carries preview to program.
#[derive(Debug, Clone, Copy, PartialEq, Eq, Structural)]
pub enum TransitionStyle {
    Mix,
    Dip,
    Wipe,
    Dve,
    Stinger,
    Unknown(u8),
}

impl TransitionStyle {
    /// The style that a raw value stands for.
    pub open spec fn from_raw(value: u8) -> TransitionStyle {
        if value == 0 {
            TransitionStyle::Mix
        } else if value == 1 {
            TransitionStyle::Dip
        } else if value == 2 {
            TransitionStyle::Wipe
        } else if value == 3 {
            TransitionStyle::Dve
        } else if value == 4 {
            TransitionStyle::Stinger
        } else {
            TransitionStyle::Unknown(value)
        }
    }

    /// The raw value that stands for the style.
    pub open spec fn raw(self) -> u8 {
        match self {
            TransitionStyle::Mix => 0,
            TransitionStyle::Dip => 1,
            TransitionStyle::Wipe => 2,
            TransitionStyle::Dve => 3,
            TransitionStyle::Stinger => 4,
            TransitionStyle::Unknown(u) => u,
        }
    }
}

impl From<u8> for TransitionStyle {
    fn from(value: u8) -> (s: TransitionStyle) {
        match value {
            0 => TransitionStyle::Mix,
            1 => TransitionStyle::Dip,
            2 => TransitionStyle::Wipe,
            3 => TransitionStyle::Dve,
            4 => TransitionStyle::Stinger,
            u => TransitionStyle::Unknown(u),
        }
    }
}

impl vstd::std_specs::convert::FromSpecImpl<u8> for TransitionStyle {
    open spec fn obeys_from_spec() -> bool {
        true
    }

    open spec fn from_spec(value: u8) -> TransitionStyle {
        TransitionStyle::from_raw(value)
    }
}

impl From<TransitionStyle> for u8 {
    fn from(value: TransitionStyle) -> (raw: u8) {
        match value {
            TransitionStyle::Mix => 0,
            TransitionStyle::Dip => 1,
            TransitionStyle::Wipe => 2,
            TransitionStyle::Dve => 3,
            TransitionStyle::Stinger => 4,
            TransitionStyle::Unknown(u) => u,
        }
    }
}

impl vstd::std_specs::convert::FromSpecImpl<TransitionStyle> for u8 {
    open spec fn obeys_from_spec() -> bool {
        true
    }

    open spec fn from_spec(value: TransitionStyle) -> u8 {
        value.raw()
    }
}

/// The raw value of a transition style survives the conversion to the style
/// and back, known or not.
pub proof fn lemma_transition_style_keeps_raw(raw: u8)
    ensures
        TransitionStyle::from_raw(raw).raw() == raw,
{
}

/// The style and selection of the current and of the next transition.
#[derive(Debug, Clone, Copy, PartialEq, Eq, Structural)]
pub struct TransitionStyleSelection {
    pub me: u8,
    pub current_style: TransitionStyle,
    pub current_selection: TransitionSelection,
    pub next_style: TransitionStyle,
    pub next_selection: TransitionSelection,
}

impl TransitionStyleSelection {
    /// Bytes that the record body holds.
    pub const LEN: usize = 5;

    /// The styles and selections that a record body states.
    pub open spec fn decode(body: Seq<u8>) -> TransitionStyleSelection {
        TransitionStyleSelection {
            me: body[0],
            current_style: TransitionStyle::from_raw(body[1]),
            current_selection: TransitionSelection { bits: body[2] },
            next_style: TransitionStyle::from_raw(body[3]),
            next_selection: TransitionSelection { bits: body[4] },
        }
    }

    pub fn parse(data: &mut Bytes) -> (r: TransitionStyleSelection)
        requires
            bytes_seq(*old(data)).len() >= TransitionStyleSelection::LEN,
        ensures
            r == TransitionStyleSelection::decode(bytes_seq(*old(data))),
            bytes_seq(*final(data)) == bytes_seq(*old(data)).skip(
                TransitionStyleSelection::LEN as int,
            ),
    {
        let me = get_u8(data);
        let current_style = get_u8(data);
        let current_selection = TransitionSelection::from_bits_retain(get_u8(data));
        let next_style = get_u8(data);
        let next_selection = TransitionSelection::from_bits_retain(get_u8(data));

        TransitionStyleSelection {
            me,
            current_style: TransitionStyle::from(current_style),
            current_selection,
            next_style: TransitionStyle::from(next_style),
            next_selection,
        }
    }
}

/// How far a running transition has come.
#[derive(Debug, Clone, Copy, PartialEq, Eq, Structural)]
pub struct TransitionPosition {
    pub me: u8,
    pub frame_count: u8,
    pub position: u16,
}

impl TransitionPosition {
    /// Bytes that the record body holds.
    pub const LEN: usize = 6;

    /// The position that a record body states. Bytes 1 and 3 are reserved.
    pub open spec fn decode(body: Seq<u8>) -> TransitionPosition {
        TransitionPosition {
            me: body[0],
            frame_count: body[2],
            position: be_u16(body[4], body[5]),
        }
    }

    pub fn parse(data: &mut Bytes) -> (r: TransitionPosition)
        requires
            bytes_seq(*old(data)).len() >= TransitionPosition::LEN,
        ensures
            r == TransitionPosition::decode(bytes_seq(*old(data))),
            bytes_seq(*final(data)) == bytes_seq(*old(data)).skip(TransitionPosition::LEN as int),
    {
        let me = get_u8(data);
        let _ = get_u8(data);
        let frame_count = get_u8(data);
        let _ = get_u8(data);
        let position = get_u16(data);

        TransitionPosition { me, frame_count, position }
    }
}

/// Whether the transition is shown in preview.
#[derive(Debug, Clone, Copy, PartialEq, Eq, Structural)]
pub struct TransitionPreview {
    pub me: u8,
    pub enabled: bool,
}

impl TransitionPreview {
    /// Bytes that the record body holds.
    pub const LEN: usize = 2;

    /// The preview setting that a record body states.
    pub open spec fn decode(body: Seq<u8>) -> TransitionPreview {
        TransitionPreview { me: body[0], enabled: body[1] != 0 }
    }

    pub fn parse(data: &mut Bytes) -> (r: TransitionPreview)
        requires
            bytes_seq(*old(data)).len() >= TransitionPreview::LEN,
        ensures
            r == TransitionPreview::decode(bytes_seq(*old(data))),
            bytes_seq(*final(data)) == bytes_seq(*old(data)).skip(TransitionPreview::LEN as int),
    {
        let me = get_u8(data);
        let enabled = get_u8(data) != 0;

        TransitionPreview { me, enabled }
    }
}

/// The settings of the mix transition.
#[derive(Debug, Clone, Copy, PartialEq, Eq, Structural)]
pub struct TransitionMix {
    pub me: u8,
    pub rate: u8,
}

impl TransitionMix {
    /// Bytes that the record body holds.
    pub const LEN: usize = 2;

    /// The settings that a record body states.
    pub open spec fn decode(body: Seq<u8>) -> TransitionMix {
        TransitionMix { me: body[0], rate: body[1] }
    }

    pub fn parse(data: &mut Bytes) -> (r: TransitionMix)
        requires
            bytes_seq(*old(data)).len() >= TransitionMix::LEN,
        ensures
            r == TransitionMix::decode(bytes_seq(*old(data))),
            bytes_seq(*final(data)) == bytes_seq(*old(data)).skip(TransitionMix::LEN as int),
    {
        let me = get_u8(data);
        let rate = get_u8(data);

        TransitionMix { me, rate }
    }
}

/// The settings of the dip transition.
#[derive(Debug, Clone, Copy, PartialEq, Eq, Structural)]
pub struct TransitionDip {
    pub me: u8,
    pub rate: u8,
    pub source: u16,
}

impl TransitionDip {
    /// Bytes that the record body holds.
    pub const LEN: usize = 4;

    /// The settings that a record body states.
    pub open spec fn decode(body: Seq<u8>) -> TransitionDip {
        TransitionDip { me: body[0], rate: body[1], source: be_u16(body[2], body[3]) }
    }

    pub fn parse(data: &mut Bytes) -> (r: TransitionDip)
        requires
            bytes_seq(*old(data)).len() >= TransitionDip::LEN,
        ensures
            r == TransitionDip::decode(bytes_seq(*old(data))),
            bytes_seq(*final(data)) == bytes_seq(*old(data)).skip(TransitionDip::LEN as int),
    {
        let me = get_u8(data);
        let rate = get_u8(data);
        let source = get_u16(data);

        TransitionDip { me, rate, source }
    }
}

/// The settings of the wipe transition.
#[derive(Debug, Clone, Copy, PartialEq, Eq, Structural)]
pub struct TransitionWipe {
    pub me: u8,
    pub rate: u8,
    pub pattern: u8,
    pub border_width: u16,
    pub border_fill_source: u16,
    pub symmetry: u16,
    pub softness: u16,
    pub origin_x: u16,
    pub origin_y: u16,
    pub reverse: bool,
    pub flip: bool,
}

impl TransitionWipe {
    /// Bytes that the record body holds.
    pub const LEN: usize = 18;

    /// The settings that a record body states. Byte 3 is reserved.
    pub open spec fn decode(body: Seq<u8>) -> TransitionWipe {
        TransitionWipe {
            me: body[0],
            rate: body[1],
            pattern: body[2],
            border_width: be_u16(body[4], body[5]),
            border_fill_source: be_u16(body[6], body[7]),
            symmetry: be_u16(body[8], body[9]),
            softness: be_u16(body[10], body[11]),
            origin_x: be_u16(body[12], body[13]),
            origin_y: be_u16(body[14], body[15]),
            reverse: body[16] != 0,
            flip: body[17] != 0,
        }
    }

    pub fn parse(data: &mut Bytes) -> (r: TransitionWipe)
        requires
            bytes_seq(*old(data)).len() >= TransitionWipe::LEN,
        ensures
            r == TransitionWipe::decode(bytes_seq(*old(data))),
            bytes_seq(*final(data)) == bytes_seq(*old(data)).skip(TransitionWipe::LEN as int),
    {
        let me = get_u8(data);
        let rate = get_u8(data);
        let pattern = get_u8(data);
        let _ = get_u8(data);
        let border_width = get_u16(data);
        let border_fill_source = get_u16(data);
        let symmetry = get_u16(data);
        let softness = get_u16(data);
        let origin_x = get_u16(data);
        let origin_y = get_u16(data);
        let reverse = get_u8(data) != 0;
        let flip = get_u8(data) != 0;

        TransitionWipe {
            me,
            rate,
            pattern,
            border_width,
            border_fill_source,
            symmetry,
            softness,
            origin_x,
            origin_y,
            reverse,
            flip,
        }
    }
}

/// The settings of the DVE transition.
#[derive(Debug, Clone, Copy, PartialEq, Eq, Structural)]
pub struct TransitionDVE {
    pub me: u8,
    pub rate: u8,
    pub style: u8,
    pub fill_source: u16,
    pub key_source: u16,
    pub key_enabled: bool,
    pub key_premultiplied: bool,
    pub key_clip: u16,
    pub key_gain: u16,
    pub key_invert: bool,
    pub reverse: bool,
    pub flip: bool,
}

impl TransitionDVE {
    /// Bytes that the record body holds.
    pub const LEN: usize = 17;

    /// The settings that a record body states. Byte 2 is reserved.
    pub open spec fn decode(body: Seq<u8>) -> TransitionDVE {
        TransitionDVE {
            me: body[0],
            rate: body[1],
            style: body[3],
            fill_source: be_u16(body[4], body[5]),
            key_source: be_u16(body[6], body[7]),
            key_enabled: body[8] != 0,
            key_premultiplied: body[9] != 0,
            key_clip: be_u16(body[10], body[11]),
            key_gain: be_u16(body[12], body[13]),
            key_invert: body[14] != 0,
            reverse: body[15] != 0,
            flip: body[16] != 0,
        }
    }

    pub fn parse(data: &mut Bytes) -> (r: TransitionDVE)
        requires
            bytes_seq(*old(data)).len() >= TransitionDVE::LEN,
        ensures
            r == TransitionDVE::decode(bytes_seq(*old(data))),
            bytes_seq(*final(data)) == bytes_seq(*old(data)).skip(TransitionDVE::LEN as int),
    {
        let me = get_u8(data);
        let rate = get_u8(data);
        let _ = get_u8(data);
        let style = get_u8(data);
        let fill_source = get_u16(data);
        let key_source = get_u16(data);
        let key_enabled = get_u8(data) != 0;
        let key_premultiplied = get_u8(data) != 0;
        let key_clip = get_u16(data);
        let key_gain = get_u16(data);
        let key_invert = get_u8(data) != 0;
        let reverse = get_u8(data) != 0;
        let flip = get_u8(data) != 0;

        TransitionDVE {
            me,
            rate,
            style,
            fill_source,
            key_source,
            key_enabled,
            key_premultiplied,
            key_clip,
            key_gain,
            key_invert,
            reverse,
            flip,
        }
    }
}

/// The settings of the stinger transition.
#[derive(Debug, Clone, Copy, PartialEq, Eq, Structural)]
pub struct TransitionStinger {
    pub me: u8,
    pub source: u16,
    pub key_premultiplied: bool,
    pub key_clip: u16,
    pub key_gain: u16,
    pub key_invert: bool,
    pub pre_roll: u16,
    pub clip_duration: u16,
    pub rate: u16,
}

impl TransitionStinger {
    /// Bytes that the record body holds.
    pub const LEN: usize = 15;

    /// The settings that a record body states.
    pub open spec fn decode(body: Seq<u8>) -> TransitionStinger {
        TransitionStinger {
            me: body[0],
            source: be_u16(body[1], body[2]),
            key_premultiplied: body[3] != 0,
            key_clip: be_u16(body[4], body[5]),
            key_gain: be_u16(body[6], body[7]),
            key_invert: body[8] != 0,
            pre_roll: be_u16(body[9], body[10]),
            clip_duration: be_u16(body[11], body[12]),
            rate: be_u16(body[13], body[14]),
        }
    }

    pub fn parse(data: &mut Bytes) -> (r: TransitionStinger)
        requires
            bytes_seq(*old(data)).len() >= TransitionStinger::LEN,
        ensures
            r == TransitionStinger::decode(bytes_seq(*old(data))),
            bytes_seq(*final(data)) == bytes_seq(*old(data)).skip(TransitionStinger::LEN as int),
    {
        let me = get_u8(data);
        let source = get_u16(data);
        let key_premultiplied = get_u8(data) != 0;
        let key_clip = get_u16(data);
        let key_gain = get_u16(data);
        let key_invert = get_u8(data) != 0;
        let pre_roll = get_u16(data);
        let clip_duration = get_u16(data);
        let rate = get_u16(data);

        TransitionStinger {
            me,
            source,
            key_premultiplied,
            key_clip,
            key_gain,
            key_invert,
            pre_roll,
            clip_duration,
            rate,
        }
    }
}

} // verus!
