//! Records about the multi-view output.

use crate::buffer::{be_u16, bytes_seq, get_u16, get_u8};
use bytes::Bytes;
use vstd::prelude::*;

verus! {

/// The source shown in one window of a multi-view.
#[derive(Debug, Clone, Copy, PartialEq, Eq, Structural)]
pub struct MultiViewInput {
    pub multiview: u8,
    pub window: u8,
    pub source: u16,
}

impl MultiViewInput {
    /// Bytes that the record body holds.
    pub const LEN: usize = 4;

    /// The window assignment that a record body states.
    pub open spec fn decode(body: Seq<u8>) -> MultiViewInput {
        MultiViewInput { multiview: body[0], window: body[1], source: be_u16(body[2], body[3]) }
    }

    pub fn parse(data: &mut Bytes) -> (r: MultiViewInput)
        requires
            bytes_seq(*old(data)).len() >= MultiViewInput::LEN,
        ensures
            r == MultiViewInput::decode(bytes_seq(*old(data))),
            bytes_seq(*final(data)) == bytes_seq(*old(data)).skip(MultiViewInput::LEN as int),
    {
        let multiview = get_u8(data);
        let window = get_u8(data);
        let source = get_u16(data);

        MultiViewInput { multiview, window, source }
    }
}

/// Whether one window of a multi-view shows its audio meter.
#[derive(Debug, Clone, Copy, PartialEq, Eq, Structural)]
pub struct MultiViewVU {
    pub multiview: u8,
    pub window: u8,
    pub enabled: bool,
}

impl MultiViewVU {
    /// Bytes that the record body holds.
    pub const LEN: usize = 3;

    /// The meter setting that a record body states.
    pub open spec fn decode(body: Seq<u8>) -> MultiViewVU {
        MultiViewVU { multiview: body[0], window: body[1], enabled: body[2] != 0 }
    }

    pub fn parse(data: &mut Bytes) -> (r: MultiViewVU)
        requires
            bytes_seq(*old(data)).len() >= MultiViewVU::LEN,
        ensures
            r == MultiViewVU::decode(bytes_seq(*old(data))),
            bytes_seq(*final(data)) == bytes_seq(*old(data)).skip(MultiViewVU::LEN as int),
    {
        let multiview = get_u8(data);
        let window = get_u8(data);
        let enabled = get_u8(data) != 0;

        MultiViewVU { multiview, window, enabled }
    }
}

/// Whether one window of a multi-view shows its safe-area overlay.
#[derive(Debug, Clone, Copy, PartialEq, Eq, Structural)]
pub struct MultiViewSafeArea {
    pub multiview: u8,
    pub window: u8,
    pub enabled: bool,
}

impl MultiViewSafeArea {
    /// Bytes that the record body holds.
    pub const LEN: usize = 3;

    /// The overlay setting that a record body states.
    pub open spec fn decode(body: Seq<u8>) -> MultiViewSafeArea {
        MultiViewSafeArea { multiview: body[0], window: body[1], enabled: body[2] != 0 }
    }

    pub fn parse(data: &mut Bytes) -> (r: MultiViewSafeArea)
        requires
            bytes_seq(*old(data)).len() >= MultiViewSafeArea::LEN,
        ensures
            r == MultiViewSafeArea::decode(bytes_seq(*old(data))),
            bytes_seq(*final(data)) == bytes_seq(*old(data)).skip(MultiViewSafeArea::LEN as int),
    {
        let multiview = get_u8(data);
        let window = get_u8(data);
        let enabled = get_u8(data) != 0;

        MultiViewSafeArea { multiview, window, enabled }
    }
}

/// The layout of a multi-view.
#[derive(Debug, Clone, Copy, PartialEq, Eq, Structural)]
pub struct MultiViewLayout {
    pub multiview: u8,
    pub layout: u8,
    pub flip_program: bool,
}

impl MultiViewLayout {
    /// Bytes that the record body holds.
    pub const LEN: usize = 3;

    /// The layout that a record body states.
    pub open spec fn decode(body: Seq<u8>) -> MultiViewLayout {
        MultiViewLayout { multiview: body[0], layout: body[1], flip_program: body[2] != 0 }
    }

    pub fn parse(data: &mut Bytes) -> (r: MultiViewLayout)
        requires
            bytes_seq(*old(data)).len() >= MultiViewLayout::LEN,
        ensures
            r == MultiViewLayout::decode(bytes_seq(*old(data))),
            bytes_seq(*final(data)) == bytes_seq(*old(data)).skip(MultiViewLayout::LEN as int),
    {
        let multiview = get_u8(data);
        let layout = get_u8(data);
        let flip_program = get_u8(data) != 0;

        MultiViewLayout { multiview, layout, flip_program }
    }
}

} // verus!
