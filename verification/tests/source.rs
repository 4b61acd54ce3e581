use atem_rs::command::{Command, Error};
use atem_rs::parser::parse_str;
use atem_rs::source::{
    FunctionFlags, Input, InputFlags, MixEffectFlags, Source, SourceType,
};
use atem_rs::systeminfo::{SystemInfo, Topology, Version};
use bytes::Bytes;

fn source_body(id: u16, name: &[u8], short_name: &[u8]) -> Vec<u8> {
    let mut body = vec![(id >> 8) as u8, id as u8];
    let mut field = [0u8; 20];
    field[..name.len()].copy_from_slice(name);
    body.extend_from_slice(&field);
    let mut field = [0u8; 4];
    field[..short_name.len()].copy_from_slice(short_name);
    body.extend_from_slice(&field);
    body.extend_from_slice(&[0xEE, 0xEE]);
    body.extend_from_slice(&[0x01, 0x03]);
    body.extend_from_slice(&[0x00, 0x02]);
    body.push(0);
    body.push(0xEE);
    body.push(0x13);
    body.push(0x81);
    body
}

fn camera() -> Source {
    Source {
        id: 1,
        name: Some("Camera 1".to_string()),
        short_name: Some("Cam1".to_string()),
        available_inputs: InputFlags { bits: 0x0103 },
        active_input: Input::Hdmi,
        source_type: SourceType::External,
        available_functions: FunctionFlags { bits: 0x13 },
        available_on_me: MixEffectFlags { bits: 0x81 },
    }
}

#[test]
fn parse_str_stops_at_the_first_nul() {
    let mut data = Bytes::from(b"abc\0def\0".to_vec());
    assert_eq!(parse_str(&mut data), Ok(Some("abc".to_string())));
    assert_eq!(data.len(), 8);
}

#[test]
fn parse_str_without_nul_takes_everything() {
    let mut data = Bytes::from("Größe".as_bytes().to_vec());
    assert_eq!(parse_str(&mut data), Ok(Some("Größe".to_string())));
}

#[test]
fn parse_str_of_a_leading_nul_is_empty() {
    let mut data = Bytes::from(vec![0u8, b'x', b'y']);
    assert_eq!(parse_str(&mut data), Ok(Some(String::new())));
    assert_eq!(parse_str(&mut Bytes::new()), Ok(Some(String::new())));
}

#[test]
fn parse_str_ignores_bad_bytes_after_the_nul() {
    let mut data = Bytes::from(vec![b'o', b'k', 0, 0xFF, 0xFE]);
    assert_eq!(parse_str(&mut data), Ok(Some("ok".to_string())));
}

#[test]
fn parse_str_rejects_bad_utf8() {
    let mut data = Bytes::from(vec![b'a', 0xFF, 0]);
    assert!(parse_str(&mut data).is_err());
}

#[test]
fn source_record_decodes() {
    let mut data = Bytes::from(source_body(1, b"Camera 1", b"Cam1"));
    assert_eq!(data.len(), 36);
    let source = Source::parse(&mut data);
    assert_eq!(source, Ok(camera()));
    assert!(data.is_empty());
    assert_eq!(camera().id(), 1);
}

#[test]
fn source_record_through_the_decoder() {
    let body = source_body(1, b"Camera 1", b"Cam1");
    let mut payload = vec![0x00u8, 44, 0, 0];
    payload.extend_from_slice(b"InPr");
    payload.extend_from_slice(&body);
    let mut payload = Bytes::from(payload);
    assert_eq!(Command::parse(&mut payload), Ok(Command::Source(camera())));

    let mut short = vec![0x00u8, 43, 0, 0];
    short.extend_from_slice(b"InPr");
    short.extend_from_slice(&body[..35]);
    assert_eq!(Command::parse(&mut Bytes::from(short)), Err(Error::Truncated));
}

#[test]
fn source_with_zero_byte_name_has_the_empty_name() {
    let mut data = Bytes::from(source_body(7, b"", b"Blk"));
    let source = Source::parse(&mut data).unwrap();
    assert_eq!(source.name, Some(String::new()));
    assert_eq!(source.short_name, Some("Blk".to_string()));
    assert_eq!(source.id, 7);
}

#[test]
fn source_name_that_fills_its_field() {
    let mut data = Bytes::from(source_body(2, b"01234567890123456789", b"ABCD"));
    let source = Source::parse(&mut data).unwrap();
    assert_eq!(source.name, Some("01234567890123456789".to_string()));
    assert_eq!(source.short_name, Some("ABCD".to_string()));
}

#[test]
fn source_with_bad_name_is_a_utf8_error() {
    let mut data = Bytes::from(source_body(2, &[0xC0, 0x80], b"ABCD"));
    assert!(matches!(Source::parse(&mut data), Err(Error::Utf8Error(_))));
    let mut data = Bytes::from(source_body(2, b"fine", &[0xFF]));
    assert!(matches!(Source::parse(&mut data), Err(Error::Utf8Error(_))));
}

#[test]
fn unknown_bits_and_values_of_a_source_are_kept() {
    let mut body = source_body(3, b"x", b"y");
    body[28] = 0xFE;
    body[29] = 0xFF;
    body[30] = 0x12;
    body[31] = 0x34;
    body[32] = 77;
    body[34] = 0xE0;
    let source = Source::parse(&mut Bytes::from(body)).unwrap();
    assert_eq!(source.available_inputs.bits(), 0xFEFF);
    assert_eq!(source.active_input, Input::Unknown(0x1234));
    assert_eq!(source.source_type, SourceType::Unknown(77));
    assert_eq!(source.available_functions.bits(), 0xE0);
}

#[test]
fn input_table() {
    assert_eq!(Input::from(1), Input::Sdi);
    assert_eq!(Input::from(2), Input::Hdmi);
    assert_eq!(Input::from(3), Input::Composite);
    assert_eq!(Input::from(4), Input::Component);
    assert_eq!(Input::from(5), Input::SVideo);
    assert_eq!(Input::from(256), Input::Internal);
    assert_eq!(Input::from(0), Input::Unknown(0));
    assert_eq!(Input::from(6), Input::Unknown(6));
    for raw in 0..=65535u16 {
        assert_eq!(u16::from(Input::from(raw)), raw);
    }
}

#[test]
fn source_type_table() {
    assert_eq!(SourceType::from(0), SourceType::External);
    assert_eq!(SourceType::from(1), SourceType::Black);
    assert_eq!(SourceType::from(2), SourceType::ColorBars);
    assert_eq!(SourceType::from(3), SourceType::ColorGenerator);
    assert_eq!(SourceType::from(4), SourceType::MediaPlayerFill);
    assert_eq!(SourceType::from(5), SourceType::MediaPlayerKey);
    assert_eq!(SourceType::from(6), SourceType::SuperSource);
    assert_eq!(SourceType::from(7), SourceType::Direct);
    assert_eq!(SourceType::from(128), SourceType::MEOutput);
    assert_eq!(SourceType::from(129), SourceType::Auxiliary);
    assert_eq!(SourceType::from(130), SourceType::Mask);
    assert_eq!(SourceType::from(131), SourceType::Status);
    assert_eq!(SourceType::from(8), SourceType::Unknown(8));
    for raw in 0..=255u8 {
        assert_eq!(u8::from(SourceType::from(raw)), raw);
    }
}

#[test]
fn source_flag_sets() {
    let inputs = InputFlags::from_bits_retain(0x0103);
    assert!(inputs.contains(InputFlags::SDI));
    assert!(inputs.contains(InputFlags::HDMI));
    assert!(inputs.contains(InputFlags::INTERNAL));
    assert!(!inputs.contains(InputFlags::COMPOSITE));
    assert!(!inputs.contains(InputFlags::COMPONENT));
    assert!(!inputs.contains(InputFlags::SVIDEO));
    let functions = FunctionFlags::from_bits_retain(0x13);
    assert!(functions.contains(FunctionFlags::AUXILIARY));
    assert!(functions.contains(FunctionFlags::MULTIVIEWER));
    assert!(functions.contains(FunctionFlags::KEY_SOURCES));
    assert!(!functions.contains(FunctionFlags::SUPERSOURCE_ART));
    assert!(!functions.contains(FunctionFlags::SUPERSOURCE_BOX));
    let mes = MixEffectFlags::from_bits_retain(0x81);
    assert!(mes.contains(MixEffectFlags::ME1));
    assert!(mes.contains(MixEffectFlags::ME8));
    assert!(!mes.contains(MixEffectFlags::ME2));
    assert_eq!(mes.bits(), 0x81);
}

#[test]
fn system_info_starts_empty() {
    let info = SystemInfo::default();
    assert_eq!(info.product(), "");
    assert_eq!(*info.version(), Version { major: 0, minor: 0 });
    assert_eq!(*info.topology(), Topology::default());
    assert_eq!(info.source(1), None);
}

#[test]
fn system_info_keeps_what_it_is_given() {
    let mut info = SystemInfo::default();
    info.set_product("Television Studio");
    info.set_version(Version { major: 2, minor: 30 });
    let mut topology = Topology::default();
    topology.me_count = 4;
    info.set_topology(topology);
    info.set_source(camera());

    assert_eq!(info.product(), "Television Studio");
    assert_eq!(*info.version(), Version { major: 2, minor: 30 });
    assert_eq!(info.topology().me_count, 4);
    assert_eq!(info.source(1), Some(&camera()));
    assert_eq!(info.source(2), None);
}

#[test]
fn system_info_replaces_a_source_with_the_same_id() {
    let mut info = SystemInfo::default();
    info.set_source(camera());
    let mut renamed = camera();
    renamed.name = Some("Stage left".to_string());
    info.set_source(renamed);
    assert_eq!(info.source(1).and_then(|s| s.name.clone()), Some("Stage left".to_string()));
}
