//! The source record: one input of the switcher and what it can do.

use crate::buffer::{be_u16, bytes_seq, get_u16, get_u8};
use crate::command::Error;
use crate::parser::{c_str, parse_str};
use bytes::Bytes;
use vstd::prelude::*;
use vstd::utf8::{decode_utf8, valid_utf8};

verus! {

/// The connector that feeds a source.
#[derive(Debug, Clone, Copy, PartialEq, Eq, Structural)]
pub enum Input {
    Sdi,
    Hdmi,
    Composite,
    Component,
    SVideo,
    Internal,
    Unknown(u16),
}

impl Input {
    /// The connector that a raw value stands for.
    pub open spec fn from_raw(value: u16) -> Input {
        if value == 1 {
            Input::Sdi
        } else if value == 2 {
            Input::Hdmi
        } else if value == 3 {
            Input::Composite
        } else if value == 4 {
            Input::Component
        } else if value == 5 {
            Input::SVideo
        } else if value == 256 {
            Input::Internal
        } else {
            Input::Unknown(value)
        }
    }

    /// The raw value that stands for the connector.
    pub open spec fn raw(self) -> u16 {
        match self {
            Input::Sdi => 1,
            Input::Hdmi => 2,
            Input::Composite => 3,
            Input::Component => 4,
            Input::SVideo => 5,
            Input::Internal => 256,
            Input::Unknown(val) => val,
        }
    }
}

impl From<u16> for Input {
    fn from(value: u16) -> (i: Input) {
        match value {
            1 => Input::Sdi,
            2 => Input::Hdmi,
            3 => Input::Composite,
            4 => Input::Component,
            5 => Input::SVideo,
            256 => Input::Internal,
            val => Input::Unknown(val),
        }
    }
}

impl vstd::std_specs::convert::FromSpecImpl<u16> for Input {
    open spec fn obeys_from_spec() -> bool {
        true
    }

    open spec fn from_spec(value: u16) -> Input {
        Input::from_raw(value)
    }
}

impl From<Input> for u16 {
    fn from(value: Input) -> (raw: u16) {
        match value {
            Input::Sdi => 1,
            Input::Hdmi => 2,
            Input::Composite => 3,
            Input::Component => 4,
            Input::SVideo => 5,
            Input::Internal => 256,
            Input::Unknown(val) => val,
        }
    }
}

impl vstd::std_specs::convert::FromSpecImpl<Input> for u16 {
    open spec fn obeys_from_spec() -> bool {
        true
    }

    open spec fn from_spec(value: Input) -> u16 {
        value.raw()
    }
}

/// The raw value of a connector survives the conversion to the connector
/// and back, known or not.
pub proof fn lemma_input_keeps_raw(raw: u16)
    ensures
        Input::from_raw(raw).raw() == raw,
{
}

/// What kind of thing a source is.
#[derive(Debug, Clone, Copy, PartialEq, Eq, Structural)]
pub enum SourceType {
    External,
    Black,
    ColorBars,
    ColorGenerator,
    MediaPlayerFill,
    MediaPlayerKey,
    SuperSource,
    MEOutput,
    Auxiliary,
    Mask,
    Status,
    Direct,
    Unknown(u8),
}

impl SourceType {
    /// The kind that a raw value stands for.
    pub open spec fn from_raw(value: u8) -> SourceType {
        if value == 0 {
            SourceType::External
        } else if value == 1 {
            SourceType::Black
        } else if value == 2 {
            SourceType::ColorBars
        } else if value == 3 {
            SourceType::ColorGenerator
        } else if value == 4 {
            SourceType::MediaPlayerFill
        } else if value == 5 {
            SourceType::MediaPlayerKey
        } else if value == 6 {
            SourceType::SuperSource
        } else if value == 7 {
            SourceType::Direct
        } else if value == 128 {
            SourceType::MEOutput
        } else if value == 129 {
            SourceType::Auxiliary
        } else if value == 130 {
            SourceType::Mask
        } else if value == 131 {
            SourceType::Status
        } else {
            SourceType::Unknown(value)
        }
    }

    /// The raw value that stands for the kind.
    pub open spec fn raw(self) -> u8 {
        match self {
            SourceType::External => 0,
            SourceType::Black => 1,
            SourceType::ColorBars => 2,
            SourceType::ColorGenerator => 3,
            SourceType::MediaPlayerFill => 4,
            SourceType::MediaPlayerKey => 5,
            SourceType::SuperSource => 6,
            SourceType::Direct => 7,
            SourceType::MEOutput => 128,
            SourceType::Auxiliary => 129,
            SourceType::Mask => 130,
            SourceType::Status => 131,
            SourceType::Unknown(val) => val,
        }
    }
}

impl From<u8> for SourceType {
    fn from(value: u8) -> (t: SourceType) {
        match value {
            0 => SourceType::External,
            1 => SourceType::Black,
            2 => SourceType::ColorBars,
            3 => SourceType::ColorGenerator,
            4 => SourceType::MediaPlayerFill,
            5 => SourceType::MediaPlayerKey,
            6 => SourceType::SuperSource,
            7 => SourceType::Direct,
            128 => SourceType::MEOutput,
            129 => SourceType::Auxiliary,
            130 => SourceType::Mask,
            131 => SourceType::Status,
            val => SourceType::Unknown(val),
        }
    }
}

impl vstd::std_specs::convert::FromSpecImpl<u8> for SourceType {
    open spec fn obeys_from_spec() -> bool {
        true
    }

    open spec fn from_spec(value: u8) -> SourceType {
        SourceType::from_raw(value)
    }
}

impl From<SourceType> for u8 {
    fn from(value: SourceType) -> (raw: u8) {
        match value {
            SourceType::External => 0,
            SourceType::Black => 1,
            SourceType::ColorBars => 2,
            SourceType::ColorGenerator => 3,
            SourceType::MediaPlayerFill => 4,
            SourceType::MediaPlayerKey => 5,
            SourceType::SuperSource => 6,
            SourceType::Direct => 7,
            SourceType::MEOutput => 128,
            SourceType::Auxiliary => 129,
            SourceType::Mask => 130,
            SourceType::Status => 131,
            SourceType::Unknown(val) => val,
        }
    }
}

impl vstd::std_specs::convert::FromSpecImpl<SourceType> for u8 {
    open spec fn obeys_from_spec() -> bool {
        true
    }

    open spec fn from_spec(value: SourceType) -> u8 {
        value.raw()
    }
}

/// The raw value of a source kind survives the conversion to the kind and
/// back, known or not.
pub proof fn lemma_source_type_keeps_raw(raw: u8)
    ensures
        SourceType::from_raw(raw).raw() == raw,
{
}

/// The connectors that a source can take its signal from.
#[derive(Debug, Clone, Copy, PartialEq, Eq, Hash, Structural)]
pub struct InputFlags {
    pub bits: u16,
}

impl InputFlags {
    pub const SDI: u16 = 0x0001;

    pub const HDMI: u16 = 0x0002;

    pub const COMPOSITE: u16 = 0x0004;

    pub const COMPONENT: u16 = 0x0008;

    pub const SVIDEO: u16 = 0x0010;

    pub const INTERNAL: u16 = 0x0100;

    /// The set with exactly the given bits, named or not.
    pub fn from_bits_retain(bits: u16) -> (f: InputFlags)
        ensures
            f.bits == bits,
    {
        InputFlags { bits }
    }

    pub fn bits(&self) -> (b: u16)
        ensures
            b == self.bits,
    {
        self.bits
    }

    /// Whether every bit of `mask` is in the set.
    pub fn contains(&self, mask: u16) -> (c: bool)
        ensures
            c == (self.bits & mask == mask),
    {
        self.bits & mask == mask
    }
}

/// What a source can be used for.
#[derive(Debug, Clone, Copy, PartialEq, Eq, Hash, Structural)]
pub struct FunctionFlags {
    pub bits: u8,
}

impl FunctionFlags {
    pub const AUXILIARY: u8 = 0x01;

    pub const MULTIVIEWER: u8 = 0x02;

    pub const SUPERSOURCE_ART: u8 = 0x04;

    pub const SUPERSOURCE_BOX: u8 = 0x08;

    pub const KEY_SOURCES: u8 = 0x10;

    /// The set with exactly the given bits, named or not.
    pub fn from_bits_retain(bits: u8) -> (f: FunctionFlags)
        ensures
            f.bits == bits,
    {
        FunctionFlags { bits }
    }

    pub fn bits(&self) -> (b: u8)
        ensures
            b == self.bits,
    {
        self.bits
    }

    /// Whether every bit of `mask` is in the set.
    pub fn contains(&self, mask: u8) -> (c: bool)
        ensures
            c == (self.bits & mask == mask),
    {
        self.bits & mask == mask
    }
}

/// The mix/effects buses on which a source is available.
#[derive(Debug, Clone, Copy, PartialEq, Eq, Hash, Structural)]
pub struct MixEffectFlags {
    pub bits: u8,
}

impl MixEffectFlags {
    pub const ME1: u8 = 0x01;

    pub const ME2: u8 = 0x02;

    pub const ME3: u8 = 0x04;

    pub const ME4: u8 = 0x08;

    pub const ME5: u8 = 0x10;

    pub const ME6: u8 = 0x20;

    pub const ME7: u8 = 0x40;

    pub const ME8: u8 = 0x80;

    /// The set with exactly the given bits.
    pub fn from_bits_retain(bits: u8) -> (f: MixEffectFlags)
        ensures
            f.bits == bits,
    {
        MixEffectFlags { bits }
    }

    pub fn bits(&self) -> (b: u8)
        ensures
            b == self.bits,
    {
        self.bits
    }

    /// Whether every bit of `mask` is in the set.
    pub fn contains(&self, mask: u8) -> (c: bool)
        ensures
            c == (self.bits & mask == mask),
    {
        self.bits & mask == mask
    }
}

/// One source of the switcher.
#[derive(Debug, PartialEq, Eq)]
pub struct Source {
    pub id: u16,
    pub name: Option<String>,
    pub short_name: Option<String>,
    pub available_inputs: InputFlags,
    pub active_input: Input,
    pub source_type: SourceType,
    pub available_functions: FunctionFlags,
    pub available_on_me: MixEffectFlags,
}

/// What a source holds, its names as sequences of characters.
pub struct SourceView {
    pub id: u16,
    pub name: Option<Seq<char>>,
    pub short_name: Option<Seq<char>>,
    pub available_inputs: InputFlags,
    pub active_input: Input,
    pub source_type: SourceType,
    pub available_functions: FunctionFlags,
    pub available_on_me: MixEffectFlags,
}

impl View for Source {
    type V = SourceView;

    open spec fn view(&self) -> SourceView {
        SourceView {
            id: self.id,
            name: match self.name {
                Some(s) => Some(s@),
                None => None,
            },
            short_name: match self.short_name {
                Some(s) => Some(s@),
                None => None,
            },
            available_inputs: self.available_inputs,
            active_input: self.active_input,
            source_type: self.source_type,
            available_functions: self.available_functions,
            available_on_me: self.available_on_me,
        }
    }
}

impl Source {
    /// Bytes that the record body holds.
    pub const LEN: usize = 36;

    /// The 20-byte field of a record body that holds the name.
    pub open spec fn name_field(body: Seq<u8>) -> Seq<u8> {
        body.subrange(2, 22)
    }

    /// The 4-byte field of a record body that holds the short name.
    pub open spec fn short_name_field(body: Seq<u8>) -> Seq<u8> {
        body.subrange(22, 26)
    }

    /// Whether both names of a record body are UTF-8 up to their first zero
    /// byte.
    pub open spec fn decodable(body: Seq<u8>) -> bool {
        &&& valid_utf8(c_str(Source::name_field(body)))
        &&& valid_utf8(c_str(Source::short_name_field(body)))
    }

    /// The source that a record body states. Bytes 26, 27 and 33 are
    /// reserved; bits without a name stay in the three sets.
    pub open spec fn decode(body: Seq<u8>) -> SourceView {
        SourceView {
            id: be_u16(body[0], body[1]),
            name: Some(decode_utf8(c_str(Source::name_field(body)))),
            short_name: Some(decode_utf8(c_str(Source::short_name_field(body)))),
            available_inputs: InputFlags { bits: be_u16(body[28], body[29]) },
            active_input: Input::from_raw(be_u16(body[30], body[31])),
            source_type: SourceType::from_raw(body[32]),
            available_functions: FunctionFlags { bits: body[34] },
            available_on_me: MixEffectFlags { bits: body[35] },
        }
    }

    pub fn parse(data: &mut Bytes) -> (r: Result<Source, Error>)
        requires
            bytes_seq(*old(data)).len() >= Source::LEN,
        ensures
            r is Ok <==> Source::decodable(bytes_seq(*old(data))),
            r matches Ok(source) ==> {
                &&& source@ == Source::decode(bytes_seq(*old(data)))
                &&& bytes_seq(*final(data)) == bytes_seq(*old(data)).skip(Source::LEN as int)
            },
            r matches Err(e) ==> e is Utf8Error,
    {
        let ghost body = bytes_seq(*data);
        let id = get_u16(data);
        let mut name_field = data.split_to(20);
        assert(bytes_seq(name_field) == Source::name_field(body));
        let name = match parse_str(&mut name_field) {
            Ok(name) => name,
            Err(e) => {
                return Err(Error::Utf8Error(e));
            },
        };
        let mut short_name_field = data.split_to(4);
        assert(bytes_seq(short_name_field) == Source::short_name_field(body));
        let short_name = match parse_str(&mut short_name_field) {
            Ok(short_name) => short_name,
            Err(e) => {
                return Err(Error::Utf8Error(e));
            },
        };
        let _ = get_u16(data);
        let available_inputs = InputFlags::from_bits_retain(get_u16(data));
        let active_input = Input::from(get_u16(data));
        let source_type = SourceType::from(get_u8(data));
        let _ = get_u8(data);
        let available_functions = FunctionFlags::from_bits_retain(get_u8(data));
        let available_on_me = MixEffectFlags::from_bits_retain(get_u8(data));

        Ok(
            Source {
                id,
                name,
                short_name,
                available_inputs,
                active_input,
                source_type,
                available_functions,
                available_on_me,
            },
        )
    }

    pub fn id(&self) -> (id: u16)
        ensures
            id == self.id,
    {
        self.id
    }
}

/// A name field that starts with a zero byte holds the empty name: the
/// record still decodes, provided its short name does.
pub proof fn lemma_empty_name(body: Seq<u8>)
    requires
        body.len() >= Source::LEN,
        body[2] == 0,
    ensures
        Source::decodable(body) <==> valid_utf8(c_str(Source::short_name_field(body))),
        Source::decode(body).name == Some(Seq::<char>::empty()),
{
}

} // verus!
