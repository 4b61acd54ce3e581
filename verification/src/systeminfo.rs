//! Records that describe the switcher itself: firmware, topology, power,
//! time code and video mode.

use crate::buffer::{be_u16, bytes_seq, get_u16, get_u8};
use crate::source::Source;
use bytes::Bytes;
use std::collections::HashMap;
use std::ops::Deref;
use vstd::prelude::*;
use vstd::slice::slice_to_vec;

verus! {

broadcast use vstd::std_specs::hash::group_hash_axioms;

/// What is known of the switcher as a whole.
#[derive(Debug)]
pub struct SystemInfo {
    product: String,
    version: Version,
    topology: Topology,
    sources: HashMap<u16, Source>,
}

/// What a `SystemInfo` holds: the product name, the firmware version, the
/// topology, and the sources by their id.
pub struct SystemInfoView {
    pub product: Seq<char>,
    pub version: Version,
    pub topology: Topology,
    pub sources: Map<u16, Source>,
}

impl View for SystemInfo {
    type V = SystemInfoView;

    closed spec fn view(&self) -> SystemInfoView {
        SystemInfoView {
            product: self.product@,
            version: self.version,
            topology: self.topology,
            sources: self.sources@,
        }
    }
}

impl Default for SystemInfo {
    fn default() -> (info: SystemInfo)
        ensures
            info@.product == Seq::<char>::empty(),
            info@.version == (Version { major: 0, minor: 0 }),
            info@.topology@ == Topology::decode(Seq::empty()),
            info@.sources == Map::<u16, Source>::empty(),
    {
        SystemInfo {
            product: String::new(),
            version: Version::default(),
            topology: Topology::default(),
            sources: HashMap::new(),
        }
    }
}

impl SystemInfo {
    pub fn set_product(&mut self, description: &str)
        ensures
            final(self)@ == (SystemInfoView { product: description@, ..old(self)@ }),
    {
        self.product = description.to_owned();
    }

    pub fn product(&self) -> (product: &str)
        ensures
            product@ == self@.product,
    {
        self.product.as_str()
    }

    pub fn set_version(&mut self, version: Version)
        ensures
            final(self)@ == (SystemInfoView { version, ..old(self)@ }),
    {
        self.version = version;
    }

    pub fn version(&self) -> (version: &Version)
        ensures
            *version == self@.version,
    {
        &self.version
    }

    pub fn set_topology(&mut self, topology: Topology)
        ensures
            final(self)@ == (SystemInfoView { topology, ..old(self)@ }),
    {
        self.topology = topology;
    }

    pub fn topology(&self) -> (topology: &Topology)
        ensures
            *topology == self@.topology,
    {
        &self.topology
    }

    /// Records a source under its id, in place of any source recorded under
    /// that id before.
    pub fn set_source(&mut self, source: Source)
        ensures
            final(self)@ == (SystemInfoView {
                sources: old(self)@.sources.insert(source.id, source),
                ..old(self)@
            }),
    {
        self.sources.insert(source.id(), source);
    }

    /// The source recorded under `id`, if there is one.
    pub fn source(&self, id: u16) -> (source: Option<&Source>)
        ensures
            match source {
                Some(s) => self@.sources.contains_key(id) && *s == self@.sources[id],
                None => !self@.sources.contains_key(id),
            },
    {
        self.sources.get(&id)
    }
}

/// Firmware version of the switcher.
#[derive(Debug, Clone, Copy, PartialEq, Eq, Structural)]
pub struct Version {
    pub major: u16,
    pub minor: u16,
}

impl Default for Version {
    fn default() -> (v: Version)
        ensures
            v == (Version { major: 0, minor: 0 }),
    {
        Version { major: 0, minor: 0 }
    }
}

impl Version {
    /// Bytes that the record body holds.
    pub const LEN: usize = 4;

    /// The version that a record body states.
    pub open spec fn decode(body: Seq<u8>) -> Version {
        Version { major: be_u16(body[0], body[1]), minor: be_u16(body[2], body[3]) }
    }

    pub fn parse(data: &mut Bytes) -> (v: Version)
        requires
            bytes_seq(*old(data)).len() >= Version::LEN,
        ensures
            v == Version::decode(bytes_seq(*old(data))),
            bytes_seq(*final(data)) == bytes_seq(*old(data)).skip(Version::LEN as int),
    {
        let major = get_u16(data);
        let minor = get_u16(data);
        Version { major, minor }
    }
}

/// The byte at `i`, or zero where the body ends before it.
pub open spec fn byte_or_zero(body: Seq<u8>, i: int) -> u8 {
    if 0 <= i < body.len() {
        body[i]
    } else {
        0
    }
}

/// How many of each resource the switcher has.
///
/// The layout of the record differs between firmware generations, so the
/// body is kept beside the fields read from it: a body of another length
/// than `Topology::LEN` shows there.
#[derive(Debug, Clone, PartialEq, Eq)]
pub struct Topology {
    pub me_count: u8,
    pub source_count: u8,
    pub dsk_count: u8,
    pub aux_count: u8,
    pub mixminus_output_count: u8,
    pub mediaplayer_count: u8,
    pub multiviewer_count: u8,
    pub rs485_count: u8,
    pub hyperdeck_count: u8,
    pub stinger_count: u8,
    pub dve_count: u8,
    pub supersource_count: u8,
    pub talkback_count: u8,
    pub sdi_count: u8,
    pub scalers_available: u8,
    /// The record body as it was received.
    pub raw: Vec<u8>,
}

/// What a `Topology` holds, its body as a sequence of bytes.
pub struct TopologyView {
    pub me_count: u8,
    pub source_count: u8,
    pub dsk_count: u8,
    pub aux_count: u8,
    pub mixminus_output_count: u8,
    pub mediaplayer_count: u8,
    pub multiviewer_count: u8,
    pub rs485_count: u8,
    pub hyperdeck_count: u8,
    pub stinger_count: u8,
    pub dve_count: u8,
    pub supersource_count: u8,
    pub talkback_count: u8,
    pub sdi_count: u8,
    pub scalers_available: u8,
    pub raw: Seq<u8>,
}

impl View for Topology {
    type V = TopologyView;

    open spec fn view(&self) -> TopologyView {
        TopologyView {
            me_count: self.me_count,
            source_count: self.source_count,
            dsk_count: self.dsk_count,
            aux_count: self.aux_count,
            mixminus_output_count: self.mixminus_output_count,
            mediaplayer_count: self.mediaplayer_count,
            multiviewer_count: self.multiviewer_count,
            rs485_count: self.rs485_count,
            hyperdeck_count: self.hyperdeck_count,
            stinger_count: self.stinger_count,
            dve_count: self.dve_count,
            supersource_count: self.supersource_count,
            talkback_count: self.talkback_count,
            sdi_count: self.sdi_count,
            scalers_available: self.scalers_available,
            raw: self.raw@,
        }
    }
}

impl Default for Topology {
    /// The topology without anything: every count zero, no body.
    fn default() -> (t: Topology)
        ensures
            t@ == Topology::decode(Seq::empty()),
    {
        Topology {
            me_count: 0,
            source_count: 0,
            dsk_count: 0,
            aux_count: 0,
            mixminus_output_count: 0,
            mediaplayer_count: 0,
            multiviewer_count: 0,
            rs485_count: 0,
            hyperdeck_count: 0,
            stinger_count: 0,
            dve_count: 0,
            supersource_count: 0,
            talkback_count: 0,
            sdi_count: 0,
            scalers_available: 0,
            raw: Vec::new(),
        }
    }
}

/// Takes one byte off the front, or gives zero and takes nothing where the
/// buffer is empty.
fn get_u8_or_zero(data: &mut Bytes) -> (v: u8)
    ensures
        v == byte_or_zero(bytes_seq(*old(data)), 0),
        bytes_seq(*final(data)) == if bytes_seq(*old(data)).len() >= 1 {
            bytes_seq(*old(data)).skip(1)
        } else {
            bytes_seq(*old(data))
        },
{
    if data.len() >= 1 {
        get_u8(data)
    } else {
        0
    }
}

impl Topology {
    /// Bytes of the full layout; a shorter body leaves the later fields zero.
    pub const LEN: usize = 16;

    /// The topology that a record body states. The fields stand one byte
    /// each in a fixed order, with one reserved byte before the talkback
    /// count; fields beyond the end of the body are zero, and bytes beyond
    /// the layout are left to `raw`.
    pub open spec fn decode(body: Seq<u8>) -> TopologyView {
        TopologyView {
            me_count: byte_or_zero(body, 0),
            source_count: byte_or_zero(body, 1),
            dsk_count: byte_or_zero(body, 2),
            aux_count: byte_or_zero(body, 3),
            mixminus_output_count: byte_or_zero(body, 4),
            mediaplayer_count: byte_or_zero(body, 5),
            multiviewer_count: byte_or_zero(body, 6),
            rs485_count: byte_or_zero(body, 7),
            hyperdeck_count: byte_or_zero(body, 8),
            dve_count: byte_or_zero(body, 9),
            stinger_count: byte_or_zero(body, 10),
            supersource_count: byte_or_zero(body, 11),
            talkback_count: byte_or_zero(body, 13),
            sdi_count: byte_or_zero(body, 14),
            scalers_available: byte_or_zero(body, 15),
            raw: body,
        }
    }

    pub fn parse(data: &mut Bytes) -> (t: Topology)
        ensures
            t@ == Topology::decode(bytes_seq(*old(data))),
            bytes_seq(*final(data)) == if bytes_seq(*old(data)).len() >= Topology::LEN {
                bytes_seq(*old(data)).skip(Topology::LEN as int)
            } else {
                Seq::empty()
            },
    {
        let view: &Bytes = data;
        let raw = slice_to_vec(view.deref());
        let me_count = get_u8_or_zero(data);
        let source_count = get_u8_or_zero(data);
        let dsk_count = get_u8_or_zero(data);
        let aux_count = get_u8_or_zero(data);
        let mixminus_output_count = get_u8_or_zero(data);
        let mediaplayer_count = get_u8_or_zero(data);
        let multiviewer_count = get_u8_or_zero(data);
        let rs485_count = get_u8_or_zero(data);
        let hyperdeck_count = get_u8_or_zero(data);
        let dve_count = get_u8_or_zero(data);
        let stinger_count = get_u8_or_zero(data);
        let supersource_count = get_u8_or_zero(data);
        let _ = get_u8_or_zero(data);
        let talkback_count = get_u8_or_zero(data);
        let sdi_count = get_u8_or_zero(data);
        let scalers_available = get_u8_or_zero(data);

        Topology {
            me_count,
            source_count,
            dsk_count,
            aux_count,
            mixminus_output_count,
            mediaplayer_count,
            multiviewer_count,
            rs485_count,
            hyperdeck_count,
            dve_count,
            stinger_count,
            supersource_count,
            talkback_count,
            sdi_count,
            scalers_available,
            raw,
        }
    }
}

/// Which power supplies are live.
#[derive(Debug, Clone, Copy, PartialEq, Eq, Structural)]
pub struct PowerState {
    pub primary: bool,
    pub secondary: bool,
}

impl PowerState {
    /// Bytes that the record body holds.
    pub const LEN: usize = 1;

    /// The power state that a record body states: bit 0 is the primary
    /// supply, bit 1 the secondary.
    pub open spec fn decode(body: Seq<u8>) -> PowerState {
        PowerState { primary: body[0] & 0x01 != 0, secondary: body[0] & 0x02 != 0 }
    }

    pub fn parse(data: &mut Bytes) -> (p: PowerState)
        requires
            bytes_seq(*old(data)).len() >= PowerState::LEN,
        ensures
            p == PowerState::decode(bytes_seq(*old(data))),
            bytes_seq(*final(data)) == bytes_seq(*old(data)).skip(PowerState::LEN as int),
    {
        let states = get_u8(data);

        PowerState { primary: (states & 0x01) != 0, secondary: (states & 0x02) != 0 }
    }
}

/// How the time code runs.
#[derive(Debug, Clone, Copy, PartialEq, Eq, Structural)]
pub enum TimeCodeType {
    FreeRunning,
    TimeOfDay,
    Unknown(u8),
}

impl TimeCodeType {
    /// The type that a raw value stands for.
    pub open spec fn from_raw(value: u8) -> TimeCodeType {
        if value == 0 {
            TimeCodeType::FreeRunning
        } else if value == 1 {
            TimeCodeType::TimeOfDay
        } else {
            TimeCodeType::Unknown(value)
        }
    }

    /// The raw value that stands for the type.
    pub open spec fn raw(self) -> u8 {
        match self {
            TimeCodeType::FreeRunning => 0,
            TimeCodeType::TimeOfDay => 1,
            TimeCodeType::Unknown(u) => u,
        }
    }
}

impl From<u8> for TimeCodeType {
    fn from(value: u8) -> (t: TimeCodeType) {
        match value {
            0 => TimeCodeType::FreeRunning,
            1 => TimeCodeType::TimeOfDay,
            u => TimeCodeType::Unknown(u),
        }
    }
}

impl vstd::std_specs::convert::FromSpecImpl<u8> for TimeCodeType {
    open spec fn obeys_from_spec() -> bool {
        true
    }

    open spec fn from_spec(value: u8) -> TimeCodeType {
        TimeCodeType::from_raw(value)
    }
}

impl From<TimeCodeType> for u8 {
    fn from(value: TimeCodeType) -> (raw: u8) {
        match value {
            TimeCodeType::FreeRunning => 0,
            TimeCodeType::TimeOfDay => 1,
            TimeCodeType::Unknown(u) => u,
        }
    }
}

impl vstd::std_specs::convert::FromSpecImpl<TimeCodeType> for u8 {
    open spec fn obeys_from_spec() -> bool {
        true
    }

    open spec fn from_spec(value: TimeCodeType) -> u8 {
        value.raw()
    }
}

/// The raw value of a time code type survives the conversion to the type
/// and back, known or not.
pub proof fn lemma_time_code_type_keeps_raw(raw: u8)
    ensures
        TimeCodeType::from_raw(raw).raw() == raw,
{
}

/// The time code mode of the switcher.
#[derive(Debug, Clone, Copy, PartialEq, Eq, Structural)]
pub struct TimeCodeState {
    pub timecode_type: TimeCodeType,
}

impl TimeCodeState {
    /// Bytes that the record body holds.
    pub const LEN: usize = 1;

    /// The time code state that a record body states.
    pub open spec fn decode(body: Seq<u8>) -> TimeCodeState {
        TimeCodeState { timecode_type: TimeCodeType::from_raw(body[0]) }
    }

    pub fn parse(data: &mut Bytes) -> (s: TimeCodeState)
        requires
            bytes_seq(*old(data)).len() >= TimeCodeState::LEN,
        ensures
            s == TimeCodeState::decode(bytes_seq(*old(data))),
            bytes_seq(*final(data)) == bytes_seq(*old(data)).skip(TimeCodeState::LEN as int),
    {
        let timecode_type = get_u8(data);

        TimeCodeState { timecode_type: TimeCodeType::from(timecode_type) }
    }
}

/// The video standard that the switcher runs in.
#[allow(non_camel_case_types)]
#[derive(Debug, Clone, Copy, PartialEq, Eq, Structural)]
pub enum VideoMode {
    NTSC,
    PAL,
    NTSCWidescreen,
    PALWidescreen,
    Res720p50,
    Res720p59_94,
    Res1080i50,
    Res1080i59_94,
    Res1080p23_98,
    Res1080p24,
    Res1080p25,
    Res1080p29_97,
    Res1080p50,
    Res1080p59_94,
    Res4K23_98,
    Res4K24,
    Res4K25,
    Res4K29_97,
    Res4K50,
    Res4K59_94,
    Res8K23_98,
    Res8K24,
    Res8K25,
    Res8K29_97,
    Res8K50,
    Res8K59_94,
    Res1080p30,
    Res1080p60,
    Res720p60,
    Res1080i60,
    Unknown(u8),
}

impl VideoMode {
    /// Bytes that the record body holds.
    pub const LEN: usize = 1;

    /// The mode that a raw value stands for.
    pub open spec fn from_raw(value: u8) -> VideoMode {
        if value == 0 {
            VideoMode::NTSC
        } else if value == 1 {
            VideoMode::PAL
        } else if value == 2 {
            VideoMode::NTSCWidescreen
        } else if value == 3 {
            VideoMode::PALWidescreen
        } else if value == 4 {
            VideoMode::Res720p50
        } else if value == 5 {
            VideoMode::Res720p59_94
        } else if value == 6 {
            VideoMode::Res1080i50
        } else if value == 7 {
            VideoMode::Res1080i59_94
        } else if value == 8 {
            VideoMode::Res1080p23_98
        } else if value == 9 {
            VideoMode::Res1080p24
        } else if value == 10 {
            VideoMode::Res1080p25
        } else if value == 11 {
            VideoMode::Res1080p29_97
        } else if value == 12 {
            VideoMode::Res1080p50
        } else if value == 13 {
            VideoMode::Res1080p59_94
        } else if value == 14 {
            VideoMode::Res4K23_98
        } else if value == 15 {
            VideoMode::Res4K24
        } else if value == 16 {
            VideoMode::Res4K25
        } else if value == 17 {
            VideoMode::Res4K29_97
        } else if value == 18 {
            VideoMode::Res4K50
        } else if value == 19 {
            VideoMode::Res4K59_94
        } else if value == 20 {
            VideoMode::Res8K23_98
        } else if value == 21 {
            VideoMode::Res8K24
        } else if value == 22 {
            VideoMode::Res8K25
        } else if value == 23 {
            VideoMode::Res8K29_97
        } else if value == 24 {
            VideoMode::Res8K50
        } else if value == 25 {
            VideoMode::Res8K59_94
        } else if value == 26 {
            VideoMode::Res1080p30
        } else if value == 27 {
            VideoMode::Res1080p60
        } else if value == 28 {
            VideoMode::Res720p60
        } else if value == 29 {
            VideoMode::Res1080i60
        } else {
            VideoMode::Unknown(value)
        }
    }

    /// The raw value that stands for the mode.
    pub open spec fn raw(self) -> u8 {
        match self {
            VideoMode::NTSC => 0,
            VideoMode::PAL => 1,
            VideoMode::NTSCWidescreen => 2,
            VideoMode::PALWidescreen => 3,
            VideoMode::Res720p50 => 4,
            VideoMode::Res720p59_94 => 5,
            VideoMode::Res1080i50 => 6,
            VideoMode::Res1080i59_94 => 7,
            VideoMode::Res1080p23_98 => 8,
            VideoMode::Res1080p24 => 9,
            VideoMode::Res1080p25 => 10,
            VideoMode::Res1080p29_97 => 11,
            VideoMode::Res1080p50 => 12,
            VideoMode::Res1080p59_94 => 13,
            VideoMode::Res4K23_98 => 14,
            VideoMode::Res4K24 => 15,
            VideoMode::Res4K25 => 16,
            VideoMode::Res4K29_97 => 17,
            VideoMode::Res4K50 => 18,
            VideoMode::Res4K59_94 => 19,
            VideoMode::Res8K23_98 => 20,
            VideoMode::Res8K24 => 21,
            VideoMode::Res8K25 => 22,
            VideoMode::Res8K29_97 => 23,
            VideoMode::Res8K50 => 24,
            VideoMode::Res8K59_94 => 25,
            VideoMode::Res1080p30 => 26,
            VideoMode::Res1080p60 => 27,
            VideoMode::Res720p60 => 28,
            VideoMode::Res1080i60 => 29,
            VideoMode::Unknown(u) => u,
        }
    }

    /// The video mode that a record body states.
    pub open spec fn decode(body: Seq<u8>) -> VideoMode {
        VideoMode::from_raw(body[0])
    }

    pub fn parse(data: &mut Bytes) -> (m: VideoMode)
        requires
            bytes_seq(*old(data)).len() >= VideoMode::LEN,
        ensures
            m == VideoMode::decode(bytes_seq(*old(data))),
            bytes_seq(*final(data)) == bytes_seq(*old(data)).skip(VideoMode::LEN as int),
    {
        VideoMode::from(get_u8(data))
    }
}

impl From<u8> for VideoMode {
    fn from(value: u8) -> (m: VideoMode) {
        match value {
            0 => VideoMode::NTSC,
            1 => VideoMode::PAL,
            2 => VideoMode::NTSCWidescreen,
            3 => VideoMode::PALWidescreen,
            4 => VideoMode::Res720p50,
            5 => VideoMode::Res720p59_94,
            6 => VideoMode::Res1080i50,
            7 => VideoMode::Res1080i59_94,
            8 => VideoMode::Res1080p23_98,
            9 => VideoMode::Res1080p24,
            10 => VideoMode::Res1080p25,
            11 => VideoMode::Res1080p29_97,
            12 => VideoMode::Res1080p50,
            13 => VideoMode::Res1080p59_94,
            14 => VideoMode::Res4K23_98,
            15 => VideoMode::Res4K24,
            16 => VideoMode::Res4K25,
            17 => VideoMode::Res4K29_97,
            18 => VideoMode::Res4K50,
            19 => VideoMode::Res4K59_94,
            20 => VideoMode::Res8K23_98,
            21 => VideoMode::Res8K24,
            22 => VideoMode::Res8K25,
            23 => VideoMode::Res8K29_97,
            24 => VideoMode::Res8K50,
            25 => VideoMode::Res8K59_94,
            26 => VideoMode::Res1080p30,
            27 => VideoMode::Res1080p60,
            28 => VideoMode::Res720p60,
            29 => VideoMode::Res1080i60,
            u => VideoMode::Unknown(u),
        }
    }
}

impl vstd::std_specs::convert::FromSpecImpl<u8> for VideoMode {
    open spec fn obeys_from_spec() -> bool {
        true
    }

    open spec fn from_spec(value: u8) -> VideoMode {
        VideoMode::from_raw(value)
    }
}

impl From<VideoMode> for u8 {
    fn from(value: VideoMode) -> (raw: u8) {
        match value {
            VideoMode::NTSC => 0,
            VideoMode::PAL => 1,
            VideoMode::NTSCWidescreen => 2,
            VideoMode::PALWidescreen => 3,
            VideoMode::Res720p50 => 4,
            VideoMode::Res720p59_94 => 5,
            VideoMode::Res1080i50 => 6,
            VideoMode::Res1080i59_94 => 7,
            VideoMode::Res1080p23_98 => 8,
            VideoMode::Res1080p24 => 9,
            VideoMode::Res1080p25 => 10,
            VideoMode::Res1080p29_97 => 11,
            VideoMode::Res1080p50 => 12,
            VideoMode::Res1080p59_94 => 13,
            VideoMode::Res4K23_98 => 14,
            VideoMode::Res4K24 => 15,
            VideoMode::Res4K25 => 16,
            VideoMode::Res4K29_97 => 17,
            VideoMode::Res4K50 => 18,
            VideoMode::Res4K59_94 => 19,
            VideoMode::Res8K23_98 => 20,
            VideoMode::Res8K24 => 21,
            VideoMode::Res8K25 => 22,
            VideoMode::Res8K29_97 => 23,
            VideoMode::Res8K50 => 24,
            VideoMode::Res8K59_94 => 25,
            VideoMode::Res1080p30 => 26,
            VideoMode::Res1080p60 => 27,
            VideoMode::Res720p60 => 28,
            VideoMode::Res1080i60 => 29,
            VideoMode::Unknown(u) => u,
        }
    }
}

impl vstd::std_specs::convert::FromSpecImpl<VideoMode> for u8 {
    open spec fn obeys_from_spec() -> bool {
        true
    }

    open spec fn from_spec(value: VideoMode) -> u8 {
        value.raw()
    }
}

/// The raw value of a video mode survives the conversion to the mode and
/// back, known or not.
pub proof fn lemma_video_mode_keeps_raw(raw: u8)
    ensures
        VideoMode::from_raw(raw).raw() == raw,
{
}

/// The capabilities of one mix/effects bus, as the switcher sent them.
#[derive(Debug, PartialEq, Eq)]
pub struct MeConfig {
    pub raw: Vec<u8>,
}

impl View for MeConfig {
    type V = Seq<u8>;

    open spec fn view(&self) -> Seq<u8> {
        self.raw@
    }
}

impl MeConfig {
    /// Carries the whole record body along, uninterpreted.
    pub fn parse(data: &mut Bytes) -> (c: MeConfig)
        ensures
            c@ == bytes_seq(*old(data)),
            bytes_seq(*final(data)) == Seq::<u8>::empty(),
    {
        MeConfig { raw: take_all(data) }
    }
}

/// The capabilities of the media players, as the switcher sent them.
#[derive(Debug, PartialEq, Eq)]
pub struct MediaPlayerConfig {
    pub raw: Vec<u8>,
}

impl View for MediaPlayerConfig {
    type V = Seq<u8>;

    open spec fn view(&self) -> Seq<u8> {
        self.raw@
    }
}

impl MediaPlayerConfig {
    /// Carries the whole record body along, uninterpreted.
    pub fn parse(data: &mut Bytes) -> (c: MediaPlayerConfig)
        ensures
            c@ == bytes_seq(*old(data)),
            bytes_seq(*final(data)) == Seq::<u8>::empty(),
    {
        MediaPlayerConfig { raw: take_all(data) }
    }
}

/// The video modes that the switcher supports, as it sent them.
#[derive(Debug, PartialEq, Eq)]
pub struct VideoModeConfig {
    pub raw: Vec<u8>,
}

impl View for VideoModeConfig {
    type V = Seq<u8>;

    open spec fn view(&self) -> Seq<u8> {
        self.raw@
    }
}

impl VideoModeConfig {
    /// Carries the whole record body along, uninterpreted.
    pub fn parse(data: &mut Bytes) -> (c: VideoModeConfig)
        ensures
            c@ == bytes_seq(*old(data)),
            bytes_seq(*final(data)) == Seq::<u8>::empty(),
    {
        VideoModeConfig { raw: take_all(data) }
    }
}

/// Takes every byte off the buffer.
fn take_all(data: &mut Bytes) -> (raw: Vec<u8>)
    ensures
        raw@ == bytes_seq(*old(data)),
        bytes_seq(*final(data)) == Seq::<u8>::empty(),
{
    let n = data.len();
    let body = data.split_to(n);
    slice_to_vec(body.deref())
}

} // verus!
