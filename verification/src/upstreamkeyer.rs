//! Records about the upstream keyers of a mix/effects bus.

use crate::buffer::{be_i16, be_u16, bytes_seq, get_i16, get_u16, get_u8};
use bytes::Bytes;
use vstd::prelude::*;

verus! {

/// Whether a keyer is visible in program.
#[derive(Debug, Clone, Copy, PartialEq, Eq, Structural)]
pub struct KeyerOnAir {
    pub me: u8,
    pub keyer: u8,
    pub on_air: bool,
}

impl KeyerOnAir {
    /// Bytes that the record body holds.
    pub const LEN: usize = 3;

    /// The on-air state that a record body states.
    pub open spec fn decode(body: Seq<u8>) -> KeyerOnAir {
        KeyerOnAir { me: body[0], keyer: body[1], on_air: body[2] != 0 }
    }

    pub fn parse(data: &mut Bytes) -> (r: KeyerOnAir)
        requires
            bytes_seq(*old(data)).len() >= KeyerOnAir::LEN,
        ensures
            r == KeyerOnAir::decode(bytes_seq(*old(data))),
            bytes_seq(*final(data)) == bytes_seq(*old(data)).skip(KeyerOnAir::LEN as int),
    {
        let me = get_u8(data);
        let keyer = get_u8(data);
        let on_air = get_u8(data) != 0;

        KeyerOnAir { me, keyer, on_air }
    }
}

/// The base properties of a keyer.
///
/// The four mask edges are signed fractions; they are held as the wire
/// carries them, in thousandths.
#[derive(Debug, Clone, Copy, PartialEq, Eq, Structural)]
pub struct KeyerBaseProperties {
    pub me: u8,
    pub keyer: u8,
    pub keyer_type: u8,
    pub flying: bool,
    pub fill: u16,
    pub key: u16,
    pub mask: bool,
    /// Top edge of the mask, in thousandths.
    pub mask_top: i16,
    /// Bottom edge of the mask, in thousandths.
    pub mask_bottom: i16,
    /// Left edge of the mask, in thousandths.
    pub mask_left: i16,
    /// Right edge of the mask, in thousandths.
    pub mask_right: i16,
}

impl KeyerBaseProperties {
    /// Bytes that the record body holds.
    pub const LEN: usize = 20;

    /// The properties that a record body states. Bytes 3, 4 and 11 are
    /// reserved.
    pub open spec fn decode(body: Seq<u8>) -> KeyerBaseProperties {
        KeyerBaseProperties {
            me: body[0],
            keyer: body[1],
            keyer_type: body[2],
            flying: body[5] != 0,
            fill: be_u16(body[6], body[7]),
            key: be_u16(body[8], body[9]),
            mask: body[10] != 0,
            mask_top: be_i16(body[12], body[13]),
            mask_bottom: be_i16(body[14], body[15]),
            mask_left: be_i16(body[16], body[17]),
            mask_right: be_i16(body[18], body[19]),
        }
    }

    pub fn parse(data: &mut Bytes) -> (r: KeyerBaseProperties)
        requires
            bytes_seq(*old(data)).len() >= KeyerBaseProperties::LEN,
        ensures
            r == KeyerBaseProperties::decode(bytes_seq(*old(data))),
            bytes_seq(*final(data)) == bytes_seq(*old(data)).skip(
                KeyerBaseProperties::LEN as int,
            ),
    {
        let me = get_u8(data);
        let keyer = get_u8(data);
        let keyer_type = get_u8(data);
        let _ = get_u16(data);
        let flying = get_u8(data) != 0;
        let fill = get_u16(data);
        let key = get_u16(data);
        let mask = get_u8(data) != 0;
        let _ = get_u8(data);
        let mask_top = get_i16(data);
        let mask_bottom = get_i16(data);
        let mask_left = get_i16(data);
        let mask_right = get_i16(data);

        KeyerBaseProperties {
            me,
            keyer,
            keyer_type,
            flying,
            fill,
            key,
            mask,
            mask_top,
            mask_bottom,
            mask_left,
            mask_right,
        }
    }
}

} // verus!
