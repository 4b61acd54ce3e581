//! The payload of a packet: a run of tagged, length-prefixed records, each
//! of which decodes to one command.
//!
//! A record is an 8-byte header (its total size in 16 bits, two reserved
//! bytes, a 4-byte tag) followed by `size - 8` bytes of body.

use crate::buffer::{be_u16, be_u32, bytes_seq, drain, get_u16, get_u8, u16_be_bytes};
use crate::multiview::{MultiViewInput, MultiViewLayout, MultiViewSafeArea, MultiViewVU};
use crate::parser::{c_str, parse_str};
use crate::source::Source;
use crate::systeminfo::{
    MeConfig, MediaPlayerConfig, PowerState, TimeCodeState, Topology, Version, VideoMode,
    VideoModeConfig,
};
use crate::tally::{TallyInputs, TallySources};
use crate::transition::{
    TransitionDVE, TransitionDip, TransitionMix, TransitionPosition, TransitionPreview,
    TransitionStinger, TransitionStyleSelection, TransitionWipe,
};
pub use crate::upstreamkeyer::{KeyerBaseProperties, KeyerOnAir};
use bytes::Bytes;
use std::ops::Deref;
use std::string::FromUtf8Error;
use vstd::prelude::*;
use vstd::slice::slice_to_vec;
use vstd::utf8::{decode_utf8, valid_utf8};

verus! {

/// Length of a record's tag.
pub const COMMAND_NAME_SIZE: usize = 4;

/// Length of a record's header: size, two reserved bytes, tag.
pub const HEADER_SIZE: usize = 8;

/// The tag `_ver`.
pub const TAG_VERSION: u32 = 0x5f76_6572;

/// The tag `_pin`.
pub const TAG_PRODUCT: u32 = 0x5f70_696e;

/// The tag `_top`.
pub const TAG_TOPOLOGY: u32 = 0x5f74_6f70;

/// The tag `InPr`.
pub const TAG_SOURCE: u32 = 0x496e_5072;

/// The tag `PrgI`.
pub const TAG_PROGRAM_INPUT: u32 = 0x5072_6749;

/// The tag `PrvI`.
pub const TAG_PREVIEW_INPUT: u32 = 0x5072_7649;

/// The tag `TrPs`.
pub const TAG_TRANSITION_POSITION: u32 = 0x5472_5073;

/// The tag `Time`.
pub const TAG_TIME: u32 = 0x5469_6d65;

/// The tag `TlIn`.
pub const TAG_TALLY_INPUTS: u32 = 0x546c_496e;

/// The tag `TlSr`.
pub const TAG_TALLY_SOURCES: u32 = 0x546c_5372;

/// The tag `Powr`.
pub const TAG_POWER_STATE: u32 = 0x506f_7772;

/// The tag `TrSS`.
pub const TAG_TRANSITION_STYLE_SELECTION: u32 = 0x5472_5353;

/// The tag `AuxS`.
pub const TAG_AUX_SOURCE: u32 = 0x4175_7853;

/// The tag `MvIn`.
pub const TAG_MULTIVIEW_INPUT: u32 = 0x4d76_496e;

/// The tag `TCCc`.
pub const TAG_TIME_CODE_STATE: u32 = 0x5443_4363;

/// The tag `VidM`.
pub const TAG_VIDEO_MODE: u32 = 0x5669_644d;

/// The tag `_MeC`.
pub const TAG_ME_CONFIG: u32 = 0x5f4d_6543;

/// The tag `_mpl`.
pub const TAG_MEDIA_PLAYER_CONFIG: u32 = 0x5f6d_706c;

/// The tag `_VMC`.
pub const TAG_VIDEO_MODE_CONFIG: u32 = 0x5f56_4d43;

/// The tag `VuMC`.
pub const TAG_MULTIVIEW_VU: u32 = 0x5675_4d43;

/// The tag `SaMw`.
pub const TAG_MULTIVIEW_SAFE_AREA: u32 = 0x5361_4d77;

/// The tag `MvPr`.
pub const TAG_MULTIVIEW_LAYOUT: u32 = 0x4d76_5072;

/// The tag `TrPr`.
pub const TAG_TRANSITION_PREVIEW: u32 = 0x5472_5072;

/// The tag `TMxP`.
pub const TAG_TRANSITION_MIX: u32 = 0x544d_7850;

/// The tag `TDpP`.
pub const TAG_TRANSITION_DIP: u32 = 0x5444_7050;

/// The tag `TWpP`.
pub const TAG_TRANSITION_WIPE: u32 = 0x5457_7050;

/// The tag `TDvP`.
pub const TAG_TRANSITION_DVE: u32 = 0x5444_7650;

/// The tag `TStP`.
pub const TAG_TRANSITION_STINGER: u32 = 0x5453_7450;

/// The tag `KeOn`.
pub const TAG_KEYER_ON_AIR: u32 = 0x4b65_4f6e;

/// The tag `KeBP`.
pub const TAG_KEYER_BASE_PROPERTIES: u32 = 0x4b65_4250;

/// Why a record of a payload gave no command.
#[derive(Debug, PartialEq, Eq)]
pub enum Error {
    /// A text field does not hold UTF-8.
    Utf8Error(FromUtf8Error),
    /// The record's tag is none that the decoder knows.
    UnknownCommand(String),
    /// The record runs past the end of what holds it, or its body is
    /// shorter than its layout.
    Truncated,
}

impl From<FromUtf8Error> for Error {
    fn from(e: FromUtf8Error) -> (r: Error) {
        Error::Utf8Error(e)
    }
}

impl vstd::std_specs::convert::FromSpecImpl<FromUtf8Error> for Error {
    open spec fn obeys_from_spec() -> bool {
        true
    }

    open spec fn from_spec(e: FromUtf8Error) -> Error {
        Error::Utf8Error(e)
    }
}

/// One state change that the switcher reports.
#[derive(Debug, PartialEq, Eq)]
pub enum Command {
    Version(Version),
    Product(String),
    Topology(Topology),
    Source(Source),
    ProgramInput(SourceSelection),
    PreviewInput(SourceSelection),
    TransitionPosition(TransitionPosition),
    Time(FrameTime),
    TallyInputs(TallyInputs),
    TallySources(TallySources),
    PowerState(PowerState),
    TransitionStyleSelection(TransitionStyleSelection),
    AuxSource(SourceSelection),
    MultiViewInput(MultiViewInput),
    TimeCodeState(TimeCodeState),
    VideoMode(VideoMode),
    MeConfig(MeConfig),
    MediaPlayerConfig(MediaPlayerConfig),
    VideoModeConfig(VideoModeConfig),
    MultiViewVU(MultiViewVU),
    MultiViewSafeArea(MultiViewSafeArea),
    MultiViewLayout(MultiViewLayout),
    TransitionPreview(TransitionPreview),
    TransitionMix(TransitionMix),
    TransitionDip(TransitionDip),
    TransitionWipe(TransitionWipe),
    TransitionDVE(TransitionDVE),
    TransitionStinger(TransitionStinger),
    KeyerOnAir(KeyerOnAir),
    KeyerBaseProperties(KeyerBaseProperties),
}

/// One record of a payload, taken apart.
#[derive(Debug, PartialEq, Eq)]
pub struct Record {
    /// The two reserved bytes of the header, as one big-endian number.
    pub reserved: u16,
    pub tag: Bytes,
    pub body: Bytes,
}

/// What a record holds: its reserved bytes, the four bytes of its tag, and
/// its body.
pub struct RecordView {
    pub reserved: u16,
    pub tag: Seq<u8>,
    pub body: Seq<u8>,
}

impl View for Record {
    type V = RecordView;

    open spec fn view(&self) -> RecordView {
        RecordView {
            reserved: self.reserved,
            tag: bytes_seq(self.tag),
            body: bytes_seq(self.body),
        }
    }
}

impl RecordView {
    /// A record that the wire format can carry: a 4-byte tag, and a body
    /// whose length, with the header, fits 16 bits.
    pub open spec fn well_formed(self) -> bool {
        &&& self.tag.len() == COMMAND_NAME_SIZE
        &&& HEADER_SIZE + self.body.len() <= u16::MAX
    }

    /// The bytes of the record on the wire.
    pub open spec fn wire(self) -> Seq<u8> {
        u16_be_bytes((HEADER_SIZE + self.body.len()) as u16) + u16_be_bytes(self.reserved)
            + self.tag + self.body
    }
}

/// The total size that the record at the front of `s` announces.
pub open spec fn record_size(s: Seq<u8>) -> int {
    be_u16(s[0], s[1]) as int
}

/// Whether `s` starts with a whole record: a full header whose announced
/// size covers the header and does not run past the end of `s`.
pub open spec fn record_complete(s: Seq<u8>) -> bool {
    &&& s.len() >= HEADER_SIZE
    &&& HEADER_SIZE <= record_size(s) <= s.len()
}

/// The record at the front of `s`, meaningful where `record_complete(s)`.
pub open spec fn first_record(s: Seq<u8>) -> RecordView {
    RecordView {
        reserved: be_u16(s[2], s[3]),
        tag: s.subrange(COMMAND_NAME_SIZE as int, HEADER_SIZE as int),
        body: s.subrange(HEADER_SIZE as int, record_size(s)),
    }
}

/// The records of a payload, in order. Where the payload ends inside a
/// record, that place holds `None` and is the last.
pub open spec fn split_records(s: Seq<u8>) -> Seq<Option<RecordView>>
    decreases s.len(),
{
    if s.len() == 0 {
        Seq::empty()
    } else if !record_complete(s) {
        seq![None]
    } else {
        seq![Some(first_record(s))] + split_records(s.skip(record_size(s)))
    }
}

/// The four bytes of a tag as one number, first byte highest.
pub open spec fn tag_word(tag: Seq<u8>) -> u32 {
    be_u32(tag[0], tag[1], tag[2], tag[3])
}

/// Whether a tag, as one number, is one that the decoder knows.
pub open spec fn known_tag(word: u32) -> bool {
    word == TAG_VERSION
        || word == TAG_PRODUCT
        || word == TAG_TOPOLOGY
        || word == TAG_SOURCE
        || word == TAG_PROGRAM_INPUT
        || word == TAG_PREVIEW_INPUT
        || word == TAG_TRANSITION_POSITION
        || word == TAG_TIME
        || word == TAG_TALLY_INPUTS
        || word == TAG_TALLY_SOURCES
        || word == TAG_POWER_STATE
        || word == TAG_TRANSITION_STYLE_SELECTION
        || word == TAG_AUX_SOURCE
        || word == TAG_MULTIVIEW_INPUT
        || word == TAG_TIME_CODE_STATE
        || word == TAG_VIDEO_MODE
        || word == TAG_ME_CONFIG
        || word == TAG_MEDIA_PLAYER_CONFIG
        || word == TAG_VIDEO_MODE_CONFIG
        || word == TAG_MULTIVIEW_VU
        || word == TAG_MULTIVIEW_SAFE_AREA
        || word == TAG_MULTIVIEW_LAYOUT
        || word == TAG_TRANSITION_PREVIEW
        || word == TAG_TRANSITION_MIX
        || word == TAG_TRANSITION_DIP
        || word == TAG_TRANSITION_WIPE
        || word == TAG_TRANSITION_DVE
        || word == TAG_TRANSITION_STINGER
        || word == TAG_KEYER_ON_AIR
        || word == TAG_KEYER_BASE_PROPERTIES
}

/// Whether `r` is what a record with this tag and body decodes to.
///
/// A known tag gives the command of its kind, read from the body by the
/// layout of that kind. A body shorter than the layout gives `Truncated`
/// (the topology alone reads what is missing as zero), a name that is not
/// UTF-8 gives `Utf8Error`, and a tag of no kind gives `UnknownCommand` with
/// the tag as text.
pub open spec fn decodes(tag: Seq<u8>, body: Seq<u8>, r: Result<Command, Error>) -> bool {
    let word = tag_word(tag);
    if word == TAG_VERSION {
        if body.len() >= Version::LEN {
            r matches Ok(Command::Version(v)) && v == Version::decode(body)
        } else {
            r == Err::<Command, Error>(Error::Truncated)
        }
    } else if word == TAG_PRODUCT {
        if valid_utf8(c_str(body)) {
            r matches Ok(Command::Product(v)) && v@ == decode_utf8(c_str(body))
        } else {
            r matches Err(Error::Utf8Error(_))
        }
    } else if word == TAG_TOPOLOGY {
        r matches Ok(Command::Topology(v)) && v@ == Topology::decode(body)
    } else if word == TAG_SOURCE {
        if body.len() < Source::LEN {
            r == Err::<Command, Error>(Error::Truncated)
        } else if Source::decodable(body) {
            r matches Ok(Command::Source(v)) && v@ == Source::decode(body)
        } else {
            r matches Err(Error::Utf8Error(_))
        }
    } else if word == TAG_PROGRAM_INPUT {
        if body.len() >= SourceSelection::LEN {
            r matches Ok(Command::ProgramInput(v)) && v == SourceSelection::decode(body)
        } else {
            r == Err::<Command, Error>(Error::Truncated)
        }
    } else if word == TAG_PREVIEW_INPUT {
        if body.len() >= SourceSelection::LEN {
            r matches Ok(Command::PreviewInput(v)) && v == SourceSelection::decode(body)
        } else {
            r == Err::<Command, Error>(Error::Truncated)
        }
    } else if word == TAG_TRANSITION_POSITION {
        if body.len() >= TransitionPosition::LEN {
            r matches Ok(Command::TransitionPosition(v)) && v == TransitionPosition::decode(body)
        } else {
            r == Err::<Command, Error>(Error::Truncated)
        }
    } else if word == TAG_TIME {
        if body.len() >= FrameTime::LEN {
            r matches Ok(Command::Time(v)) && v == FrameTime::decode(body)
        } else {
            r == Err::<Command, Error>(Error::Truncated)
        }
    } else if word == TAG_TALLY_INPUTS {
        if TallyInputs::complete(body) {
            r matches Ok(Command::TallyInputs(v)) && v@ == TallyInputs::decode(body)
        } else {
            r == Err::<Command, Error>(Error::Truncated)
        }
    } else if word == TAG_TALLY_SOURCES {
        if TallySources::complete(body) {
            r matches Ok(Command::TallySources(v)) && v@ == TallySources::decode(body)
        } else {
            r == Err::<Command, Error>(Error::Truncated)
        }
    } else if word == TAG_POWER_STATE {
        if body.len() >= PowerState::LEN {
            r matches Ok(Command::PowerState(v)) && v == PowerState::decode(body)
        } else {
            r == Err::<Command, Error>(Error::Truncated)
        }
    } else if word == TAG_TRANSITION_STYLE_SELECTION {
        if body.len() >= TransitionStyleSelection::LEN {
            r matches Ok(Command::TransitionStyleSelection(v)) && v == TransitionStyleSelection::decode(body)
        } else {
            r == Err::<Command, Error>(Error::Truncated)
        }
    } else if word == TAG_AUX_SOURCE {
        if body.len() >= SourceSelection::LEN {
            r matches Ok(Command::AuxSource(v)) && v == SourceSelection::decode(body)
        } else {
            r == Err::<Command, Error>(Error::Truncated)
        }
    } else if word == TAG_MULTIVIEW_INPUT {
        if body.len() >= MultiViewInput::LEN {
            r matches Ok(Command::MultiViewInput(v)) && v == MultiViewInput::decode(body)
        } else {
            r == Err::<Command, Error>(Error::Truncated)
        }
    } else if word == TAG_TIME_CODE_STATE {
        if body.len() >= TimeCodeState::LEN {
            r matches Ok(Command::TimeCodeState(v)) && v == TimeCodeState::decode(body)
        } else {
            r == Err::<Command, Error>(Error::Truncated)
        }
    } else if word == TAG_VIDEO_MODE {
        if body.len() >= VideoMode::LEN {
            r matches Ok(Command::VideoMode(v)) && v == VideoMode::decode(body)
        } else {
            r == Err::<Command, Error>(Error::Truncated)
        }
    } else if word == TAG_ME_CONFIG {
        r matches Ok(Command::MeConfig(v)) && v@ == body
    } else if word == TAG_MEDIA_PLAYER_CONFIG {
        r matches Ok(Command::MediaPlayerConfig(v)) && v@ == body
    } else if word == TAG_VIDEO_MODE_CONFIG {
        r matches Ok(Command::VideoModeConfig(v)) && v@ == body
    } else if word == TAG_MULTIVIEW_VU {
        if body.len() >= MultiViewVU::LEN {
            r matches Ok(Command::MultiViewVU(v)) && v == MultiViewVU::decode(body)
        } else {
            r == Err::<Command, Error>(Error::Truncated)
        }
    } else if word == TAG_MULTIVIEW_SAFE_AREA {
        if body.len() >= MultiViewSafeArea::LEN {
            r matches Ok(Command::MultiViewSafeArea(v)) && v == MultiViewSafeArea::decode(body)
        } else {
            r == Err::<Command, Error>(Error::Truncated)
        }
    } else if word == TAG_MULTIVIEW_LAYOUT {
        if body.len() >= MultiViewLayout::LEN {
            r matches Ok(Command::MultiViewLayout(v)) && v == MultiViewLayout::decode(body)
        } else {
            r == Err::<Command, Error>(Error::Truncated)
        }
    } else if word == TAG_TRANSITION_PREVIEW {
        if body.len() >= TransitionPreview::LEN {
            r matches Ok(Command::TransitionPreview(v)) && v == TransitionPreview::decode(body)
        } else {
            r == Err::<Command, Error>(Error::Truncated)
        }
    } else if word == TAG_TRANSITION_MIX {
        if body.len() >= TransitionMix::LEN {
            r matches Ok(Command::TransitionMix(v)) && v == TransitionMix::decode(body)
        } else {
            r == Err::<Command, Error>(Error::Truncated)
        }
    } else if word == TAG_TRANSITION_DIP {
        if body.len() >= TransitionDip::LEN {
            r matches Ok(Command::TransitionDip(v)) && v == TransitionDip::decode(body)
        } else {
            r == Err::<Command, Error>(Error::Truncated)
        }
    } else if word == TAG_TRANSITION_WIPE {
        if body.len() >= TransitionWipe::LEN {
            r matches Ok(Command::TransitionWipe(v)) && v == TransitionWipe::decode(body)
        } else {
            r == Err::<Command, Error>(Error::Truncated)
        }
    } else if word == TAG_TRANSITION_DVE {
        if body.len() >= TransitionDVE::LEN {
            r matches Ok(Command::TransitionDVE(v)) && v == TransitionDVE::decode(body)
        } else {
            r == Err::<Command, Error>(Error::Truncated)
        }
    } else if word == TAG_TRANSITION_STINGER {
        if body.len() >= TransitionStinger::LEN {
            r matches Ok(Command::TransitionStinger(v)) && v == TransitionStinger::decode(body)
        } else {
            r == Err::<Command, Error>(Error::Truncated)
        }
    } else if word == TAG_KEYER_ON_AIR {
        if body.len() >= KeyerOnAir::LEN {
            r matches Ok(Command::KeyerOnAir(v)) && v == KeyerOnAir::decode(body)
        } else {
            r == Err::<Command, Error>(Error::Truncated)
        }
    } else if word == TAG_KEYER_BASE_PROPERTIES {
        if body.len() >= KeyerBaseProperties::LEN {
            r matches Ok(Command::KeyerBaseProperties(v)) && v == KeyerBaseProperties::decode(body)
        } else {
            r == Err::<Command, Error>(Error::Truncated)
        }
    } else if valid_utf8(tag) {
        r matches Err(Error::UnknownCommand(name)) && name@ == decode_utf8(tag)
    } else {
        r matches Err(Error::Utf8Error(_))
    }
}

/// Takes the record at the front of the payload off it.
///
/// Where the payload ends inside the record, or the record announces a size
/// smaller than its own header, the result is `Truncated` and the payload is
/// left empty.
pub fn next_record(payload: &mut Bytes) -> (r: Result<Record, Error>)
    ensures
        record_complete(bytes_seq(*old(payload))) ==> {
            &&& r matches Ok(record)
            &&& record@ == first_record(bytes_seq(*old(payload)))
            &&& bytes_seq(*final(payload)) == bytes_seq(*old(payload)).skip(
                record_size(bytes_seq(*old(payload))),
            )
        },
        !record_complete(bytes_seq(*old(payload))) ==> {
            &&& r == Err::<Record, Error>(Error::Truncated)
            &&& bytes_seq(*final(payload)).len() == 0
        },
{
    let ghost wire = bytes_seq(*payload);
    if payload.len() < HEADER_SIZE {
        drain(payload);
        return Err(Error::Truncated);
    }
    let size = get_u16(payload);
    let reserved = get_u16(payload);
    let tag = payload.split_to(COMMAND_NAME_SIZE);
    assert(bytes_seq(tag) == wire.subrange(COMMAND_NAME_SIZE as int, HEADER_SIZE as int));
    if (size as usize) < HEADER_SIZE || size as usize - HEADER_SIZE > payload.len() {
        drain(payload);
        return Err(Error::Truncated);
    }
    let data_size = size as usize - HEADER_SIZE;
    let body = payload.split_to(data_size);
    assert(bytes_seq(body) == wire.subrange(HEADER_SIZE as int, size as int));
    Ok(Record { reserved, tag, body })
}

impl Command {
    /// Takes the record at the front of the payload off it and decodes it.
    ///
    /// Whatever the record holds, the payload is left at the start of the
    /// next record; a record that runs past the end of the payload leaves
    /// it empty.
    pub fn parse(payload: &mut Bytes) -> (r: Result<Command, Error>)
        ensures
            record_complete(bytes_seq(*old(payload))) ==> {
                &&& decodes(
                    first_record(bytes_seq(*old(payload))).tag,
                    first_record(bytes_seq(*old(payload))).body,
                    r,
                )
                &&& bytes_seq(*final(payload)) == bytes_seq(*old(payload)).skip(
                    record_size(bytes_seq(*old(payload))),
                )
            },
            !record_complete(bytes_seq(*old(payload))) ==> {
                &&& r == Err::<Command, Error>(Error::Truncated)
                &&& bytes_seq(*final(payload)).len() == 0
            },
    {
        match next_record(payload) {
            Ok(record) => Command::decode(record),
            Err(e) => Err(e),
        }
    }

    /// Decodes one record by its tag.
    pub fn decode(record: Record) -> (r: Result<Command, Error>)
        requires
            record@.tag.len() == COMMAND_NAME_SIZE,
        ensures
            decodes(record@.tag, record@.body, r),
    {
        let Record { reserved: _, tag, body } = record;
        let mut data = body;
        let name: &[u8] = tag.deref();
        let word: u32 = (name[0] as u32) * 16777216 + (name[1] as u32) * 65536 + (name[2] as u32)
            * 256 + (name[3] as u32);

        if word == TAG_VERSION {
            if data.len() >= Version::LEN {
                Ok(Command::Version(Version::parse(&mut data)))
            } else {
                Err(Error::Truncated)
            }
        } else if word == TAG_PRODUCT {
            match parse_str(&mut data) {
                Ok(product) => Ok(Command::Product(product.unwrap())),
                Err(e) => Err(Error::Utf8Error(e)),
            }
        } else if word == TAG_TOPOLOGY {
            Ok(Command::Topology(Topology::parse(&mut data)))
        } else if word == TAG_SOURCE {
            if data.len() >= Source::LEN {
                match Source::parse(&mut data) {
                    Ok(source) => Ok(Command::Source(source)),
                    Err(e) => Err(e),
                }
            } else {
                Err(Error::Truncated)
            }
        } else if word == TAG_PROGRAM_INPUT {
            if data.len() >= SourceSelection::LEN {
                Ok(Command::ProgramInput(SourceSelection::parse(&mut data)))
            } else {
                Err(Error::Truncated)
            }
        } else if word == TAG_PREVIEW_INPUT {
            if data.len() >= SourceSelection::LEN {
                Ok(Command::PreviewInput(SourceSelection::parse(&mut data)))
            } else {
                Err(Error::Truncated)
            }
        } else if word == TAG_TRANSITION_POSITION {
            if data.len() >= TransitionPosition::LEN {
                Ok(Command::TransitionPosition(TransitionPosition::parse(&mut data)))
            } else {
                Err(Error::Truncated)
            }
        } else if word == TAG_TIME {
            if data.len() >= FrameTime::LEN {
                Ok(Command::Time(FrameTime::parse(&mut data)))
            } else {
                Err(Error::Truncated)
            }
        } else if word == TAG_TALLY_INPUTS {
            if TallyInputs::is_complete(&data) {
                Ok(Command::TallyInputs(TallyInputs::parse(&mut data)))
            } else {
                Err(Error::Truncated)
            }
        } else if word == TAG_TALLY_SOURCES {
            if TallySources::is_complete(&data) {
                Ok(Command::TallySources(TallySources::parse(&mut data)))
            } else {
                Err(Error::Truncated)
            }
        } else if word == TAG_POWER_STATE {
            if data.len() >= PowerState::LEN {
                Ok(Command::PowerState(PowerState::parse(&mut data)))
            } else {
                Err(Error::Truncated)
            }
        } else if word == TAG_TRANSITION_STYLE_SELECTION {
            if data.len() >= TransitionStyleSelection::LEN {
                Ok(Command::TransitionStyleSelection(TransitionStyleSelection::parse(&mut data)))
            } else {
                Err(Error::Truncated)
            }
        } else if word == TAG_AUX_SOURCE {
            if data.len() >= SourceSelection::LEN {
                Ok(Command::AuxSource(SourceSelection::parse(&mut data)))
            } else {
                Err(Error::Truncated)
            }
        } else if word == TAG_MULTIVIEW_INPUT {
            if data.len() >= MultiViewInput::LEN {
                Ok(Command::MultiViewInput(MultiViewInput::parse(&mut data)))
            } else {
                Err(Error::Truncated)
            }
        } else if word == TAG_TIME_CODE_STATE {
            if data.len() >= TimeCodeState::LEN {
                Ok(Command::TimeCodeState(TimeCodeState::parse(&mut data)))
            } else {
                Err(Error::Truncated)
            }
        } else if word == TAG_VIDEO_MODE {
            if data.len() >= VideoMode::LEN {
                Ok(Command::VideoMode(VideoMode::parse(&mut data)))
            } else {
                Err(Error::Truncated)
            }
        } else if word == TAG_ME_CONFIG {
            Ok(Command::MeConfig(MeConfig::parse(&mut data)))
        } else if word == TAG_MEDIA_PLAYER_CONFIG {
            Ok(Command::MediaPlayerConfig(MediaPlayerConfig::parse(&mut data)))
        } else if word == TAG_VIDEO_MODE_CONFIG {
            Ok(Command::VideoModeConfig(VideoModeConfig::parse(&mut data)))
        } else if word == TAG_MULTIVIEW_VU {
            if data.len() >= MultiViewVU::LEN {
                Ok(Command::MultiViewVU(MultiViewVU::parse(&mut data)))
            } else {
                Err(Error::Truncated)
            }
        } else if word == TAG_MULTIVIEW_SAFE_AREA {
            if data.len() >= MultiViewSafeArea::LEN {
                Ok(Command::MultiViewSafeArea(MultiViewSafeArea::parse(&mut data)))
            } else {
                Err(Error::Truncated)
            }
        } else if word == TAG_MULTIVIEW_LAYOUT {
            if data.len() >= MultiViewLayout::LEN {
                Ok(Command::MultiViewLayout(MultiViewLayout::parse(&mut data)))
            } else {
                Err(Error::Truncated)
            }
        } else if word == TAG_TRANSITION_PREVIEW {
            if data.len() >= TransitionPreview::LEN {
                Ok(Command::TransitionPreview(TransitionPreview::parse(&mut data)))
            } else {
                Err(Error::Truncated)
            }
        } else if word == TAG_TRANSITION_MIX {
            if data.len() >= TransitionMix::LEN {
                Ok(Command::TransitionMix(TransitionMix::parse(&mut data)))
            } else {
                Err(Error::Truncated)
            }
        } else if word == TAG_TRANSITION_DIP {
            if data.len() >= TransitionDip::LEN {
                Ok(Command::TransitionDip(TransitionDip::parse(&mut data)))
            } else {
                Err(Error::Truncated)
            }
        } else if word == TAG_TRANSITION_WIPE {
            if data.len() >= TransitionWipe::LEN {
                Ok(Command::TransitionWipe(TransitionWipe::parse(&mut data)))
            } else {
                Err(Error::Truncated)
            }
        } else if word == TAG_TRANSITION_DVE {
            if data.len() >= TransitionDVE::LEN {
                Ok(Command::TransitionDVE(TransitionDVE::parse(&mut data)))
            } else {
                Err(Error::Truncated)
            }
        } else if word == TAG_TRANSITION_STINGER {
            if data.len() >= TransitionStinger::LEN {
                Ok(Command::TransitionStinger(TransitionStinger::parse(&mut data)))
            } else {
                Err(Error::Truncated)
            }
        } else if word == TAG_KEYER_ON_AIR {
            if data.len() >= KeyerOnAir::LEN {
                Ok(Command::KeyerOnAir(KeyerOnAir::parse(&mut data)))
            } else {
                Err(Error::Truncated)
            }
        } else if word == TAG_KEYER_BASE_PROPERTIES {
            if data.len() >= KeyerBaseProperties::LEN {
                Ok(Command::KeyerBaseProperties(KeyerBaseProperties::parse(&mut data)))
            } else {
                Err(Error::Truncated)
            }
        } else {
            match String::from_utf8(slice_to_vec(name)) {
                Ok(cmd_str) => Err(Error::UnknownCommand(cmd_str)),
                Err(e) => Err(Error::Utf8Error(e)),
            }
        }
    }
}

/// Whether `r` is what the place `record` of a payload decodes to: the
/// command or error of a whole record, `Truncated` for a cut one.
pub open spec fn record_decodes(record: Option<RecordView>, r: Result<Command, Error>) -> bool {
    match record {
        Some(record) => decodes(record.tag, record.body, r),
        None => r == Err::<Command, Error>(Error::Truncated),
    }
}

/// Decodes every record of a payload, in order, and leaves the payload
/// empty. A record that does not decode gives its error in its place and
/// does not stop the records after it.
pub fn decode_payload(payload: &mut Bytes) -> (out: Vec<Result<Command, Error>>)
    ensures
        bytes_seq(*final(payload)).len() == 0,
        out@.len() == split_records(bytes_seq(*old(payload))).len(),
        forall|i: int|
            0 <= i < out@.len() ==> record_decodes(
                split_records(bytes_seq(*old(payload)))[i],
                #[trigger] out@[i],
            ),
{
    let ghost records = split_records(bytes_seq(*payload));
    let mut out: Vec<Result<Command, Error>> = Vec::new();
    while !payload.is_empty()
        invariant
            out@.len() <= records.len(),
            records.skip(out@.len() as int) == split_records(bytes_seq(*payload)),
            forall|i: int| 0 <= i < out@.len() ==> record_decodes(records[i], #[trigger] out@[i]),
        decreases bytes_seq(*payload).len(),
    {
        let ghost rest = bytes_seq(*payload);
        let ghost done = out@.len() as int;
        let r = Command::parse(payload);
        proof {
            assert(records.skip(done).len() == records.len() - done);
            assert(records[done] == records.skip(done)[0]);
            if record_complete(rest) {
                assert(split_records(rest).skip(1) == split_records(
                    rest.skip(record_size(rest)),
                ));
            }
        }
        out.push(r);
    }
    out
}

/// The destination and the source of a routing: which source feeds a
/// program bus, a preview bus or an auxiliary output.
#[derive(Debug, Clone, Copy, PartialEq, Eq, Structural)]
pub struct SourceSelection {
    pub destination: u8,
    pub source_id: u16,
}

impl SourceSelection {
    /// Bytes that the record body holds.
    pub const LEN: usize = 4;

    /// The routing that a record body states. Byte 1 is reserved.
    pub open spec fn decode(body: Seq<u8>) -> SourceSelection {
        SourceSelection { destination: body[0], source_id: be_u16(body[2], body[3]) }
    }

    pub fn parse(data: &mut Bytes) -> (r: SourceSelection)
        requires
            bytes_seq(*old(data)).len() >= SourceSelection::LEN,
        ensures
            r == SourceSelection::decode(bytes_seq(*old(data))),
            bytes_seq(*final(data)) == bytes_seq(*old(data)).skip(SourceSelection::LEN as int),
    {
        let destination = get_u8(data);
        let _ = get_u8(data);
        let source_id = get_u16(data);

        SourceSelection { destination, source_id }
    }
}

/// The time code of the switcher.
#[derive(Debug, Clone, Copy, PartialEq, Eq, Structural)]
pub struct FrameTime {
    pub hour: u8,
    pub minute: u8,
    pub second: u8,
    pub frame: u8,
}

impl FrameTime {
    /// Bytes that the record body holds.
    pub const LEN: usize = 4;

    /// The time code that a record body states.
    pub open spec fn decode(body: Seq<u8>) -> FrameTime {
        FrameTime { hour: body[0], minute: body[1], second: body[2], frame: body[3] }
    }

    pub fn parse(data: &mut Bytes) -> (r: FrameTime)
        requires
            bytes_seq(*old(data)).len() >= FrameTime::LEN,
        ensures
            r == FrameTime::decode(bytes_seq(*old(data))),
            bytes_seq(*final(data)) == bytes_seq(*old(data)).skip(FrameTime::LEN as int),
    {
        let hour = get_u8(data);
        let minute = get_u8(data);
        let second = get_u8(data);
        let frame = get_u8(data);

        FrameTime { hour, minute, second, frame }
    }
}

/// The bytes of a run of records on the wire, one record after the other.
pub open spec fn payload_of(records: Seq<RecordView>) -> Seq<u8>
    decreases records.len(),
{
    if records.len() == 0 {
        Seq::empty()
    } else {
        records[0].wire() + payload_of(records.drop_first())
    }
}

/// The sizes that a run of records announces, added up.
pub open spec fn total_size(records: Seq<RecordView>) -> int
    decreases records.len(),
{
    if records.len() == 0 {
        0
    } else {
        HEADER_SIZE + records[0].body.len() + total_size(records.drop_first())
    }
}

/// A record on the wire, whatever follows it, is split off whole: the
/// splitter gives its tag and body back and goes on with what follows.
pub proof fn lemma_split_first(record: RecordView, rest: Seq<u8>)
    requires
        record.well_formed(),
    ensures
        record_complete(record.wire() + rest),
        record_size(record.wire() + rest) == HEADER_SIZE + record.body.len(),
        first_record(record.wire() + rest) == record,
        (record.wire() + rest).skip(record_size(record.wire() + rest)) == rest,
        split_records(record.wire() + rest) == seq![Some(record)] + split_records(rest),
{
    let size = (HEADER_SIZE + record.body.len()) as u16;
    let s = record.wire() + rest;
    assert(s.subrange(COMMAND_NAME_SIZE as int, HEADER_SIZE as int) == record.tag);
    assert(s.subrange(HEADER_SIZE as int, size as int) == record.body);
}

/// A payload made of well-formed records splits into exactly those records,
/// in order, and the sizes they announce add up to the length of the payload.
pub proof fn lemma_split_payload(records: Seq<RecordView>)
    requires
        forall|i: int| 0 <= i < records.len() ==> (#[trigger] records[i]).well_formed(),
    ensures
        split_records(payload_of(records)) == records.map_values(
            |r: RecordView| Some(r),
        ),
        payload_of(records).len() == total_size(records),
    decreases records.len(),
{
    if records.len() > 0 {
        let tail = records.drop_first();
        assert forall|i: int| 0 <= i < tail.len() implies (#[trigger] tail[i]).well_formed() by {
            assert(tail[i] == records[i + 1]);
        }
        lemma_split_payload(tail);
        lemma_split_first(records[0], payload_of(tail));
    }
}

/// A record with a tag that the decoder does not know gives an error and
/// never a command, and the records after it are split off as if it had
/// been known: `UnknownCommand` with the tag as text, or `Utf8Error` where
/// the tag is no text.
pub proof fn lemma_unknown_tag(record: RecordView, rest: Seq<u8>, r: Result<Command, Error>)
    requires
        record.well_formed(),
        !known_tag(tag_word(record.tag)),
        decodes(record.tag, record.body, r),
    ensures
        r is Err,
        valid_utf8(record.tag) ==> (r matches Err(Error::UnknownCommand(name)) && name@
            == decode_utf8(record.tag)),
        split_records(record.wire() + rest) == seq![Some(record)] + split_records(rest),
{
    lemma_split_first(record, rest);
}

/// A payload without bytes holds no record.
pub proof fn lemma_empty_payload()
    ensures
        split_records(Seq::<u8>::empty()) == Seq::<Option<RecordView>>::empty(),
{
}

} // verus!
