use atem_rs::command::{Command, Error, KeyerBaseProperties, KeyerOnAir};
use atem_rs::multiview::{MultiViewInput, MultiViewLayout, MultiViewSafeArea, MultiViewVU};
use atem_rs::systeminfo::{
    MeConfig, MediaPlayerConfig, PowerState, TimeCodeState, TimeCodeType, Topology, Version,
    VideoMode, VideoModeConfig,
};
use atem_rs::tally::{SourceTally, TallyInputs, TallySources, TallyState};
use atem_rs::transition::{
    TransitionDVE, TransitionDip, TransitionMix, TransitionPosition, TransitionPreview,
    TransitionSelection, TransitionStinger, TransitionStyle, TransitionStyleSelection,
    TransitionWipe,
};
use bytes::Bytes;

fn tagged(tag: &[u8; 4], body: &[u8]) -> Bytes {
    let size = (8 + body.len()) as u16;
    let mut out = vec![(size >> 8) as u8, size as u8, 0x55, 0xAA];
    out.extend_from_slice(tag);
    out.extend_from_slice(body);
    Bytes::from(out)
}

fn decode(tag: &[u8; 4], body: &[u8]) -> Result<Command, Error> {
    let mut payload = tagged(tag, body);
    let r = Command::parse(&mut payload);
    assert!(payload.is_empty());
    r
}

#[test]
fn version_parse_reads_two_big_endian_words() {
    let mut data = Bytes::from(vec![0x01u8, 0x02, 0x03, 0x04, 0x09]);
    assert_eq!(Version::parse(&mut data), Version { major: 0x0102, minor: 0x0304 });
    assert_eq!(data.to_vec(), vec![0x09u8]);
}

#[test]
fn topology_reads_its_fields_in_order() {
    let body: Vec<u8> = (1..=16).collect();
    let expected = Topology {
        me_count: 1,
        source_count: 2,
        dsk_count: 3,
        aux_count: 4,
        mixminus_output_count: 5,
        mediaplayer_count: 6,
        multiviewer_count: 7,
        rs485_count: 8,
        hyperdeck_count: 9,
        dve_count: 10,
        stinger_count: 11,
        supersource_count: 12,
        talkback_count: 14,
        sdi_count: 15,
        scalers_available: 16,
        raw: body.clone(),
    };
    assert_eq!(decode(b"_top", &body), Ok(Command::Topology(expected)));
}

#[test]
fn short_topology_reads_missing_fields_as_zero() {
    let body: Vec<u8> = (1..=12).collect();
    let mut data = Bytes::from(body);
    let t = Topology::parse(&mut data);
    assert_eq!(t.me_count, 1);
    assert_eq!(t.supersource_count, 12);
    assert_eq!(t.talkback_count, 0);
    assert_eq!(t.sdi_count, 0);
    assert_eq!(t.scalers_available, 0);
    assert_eq!(t.raw, (1..=12).collect::<Vec<u8>>());
    assert!(data.is_empty());
    assert_eq!(Topology::parse(&mut Bytes::new()), Topology::default());
    assert_eq!(Topology::default().raw, Vec::<u8>::new());
    assert_eq!(Topology::default().me_count, 0);
}

#[test]
fn long_topology_leaves_what_follows() {
    let body: Vec<u8> = (1..=18).collect();
    let mut data = Bytes::from(body);
    let t = Topology::parse(&mut data);
    assert_eq!(t.scalers_available, 16);
    assert_eq!(t.raw, (1..=18).collect::<Vec<u8>>());
    assert_eq!(data.to_vec(), vec![17u8, 18]);
}

#[test]
fn power_state_reads_two_bits() {
    assert_eq!(
        decode(b"Powr", &[0x03]),
        Ok(Command::PowerState(PowerState { primary: true, secondary: true }))
    );
    assert_eq!(
        decode(b"Powr", &[0x02]),
        Ok(Command::PowerState(PowerState { primary: false, secondary: true }))
    );
    assert_eq!(
        decode(b"Powr", &[0xFC]),
        Ok(Command::PowerState(PowerState { primary: false, secondary: false }))
    );
    assert_eq!(decode(b"Powr", &[]), Err(Error::Truncated));
}

#[test]
fn time_code_state_decodes() {
    assert_eq!(
        decode(b"TCCc", &[0]),
        Ok(Command::TimeCodeState(TimeCodeState { timecode_type: TimeCodeType::FreeRunning }))
    );
    assert_eq!(
        decode(b"TCCc", &[1]),
        Ok(Command::TimeCodeState(TimeCodeState { timecode_type: TimeCodeType::TimeOfDay }))
    );
    assert_eq!(
        decode(b"TCCc", &[7]),
        Ok(Command::TimeCodeState(TimeCodeState { timecode_type: TimeCodeType::Unknown(7) }))
    );
    assert_eq!(u8::from(TimeCodeType::from(200u8)), 200);
}

#[test]
fn video_mode_table() {
    assert_eq!(decode(b"VidM", &[0]), Ok(Command::VideoMode(VideoMode::NTSC)));
    assert_eq!(decode(b"VidM", &[1]), Ok(Command::VideoMode(VideoMode::PAL)));
    assert_eq!(decode(b"VidM", &[7]), Ok(Command::VideoMode(VideoMode::Res1080i59_94)));
    assert_eq!(decode(b"VidM", &[13]), Ok(Command::VideoMode(VideoMode::Res1080p59_94)));
    assert_eq!(decode(b"VidM", &[25]), Ok(Command::VideoMode(VideoMode::Res8K59_94)));
    assert_eq!(decode(b"VidM", &[29]), Ok(Command::VideoMode(VideoMode::Res1080i60)));
    assert_eq!(decode(b"VidM", &[30]), Ok(Command::VideoMode(VideoMode::Unknown(30))));
    assert_eq!(decode(b"VidM", &[]), Err(Error::Truncated));
}

#[test]
fn video_mode_keeps_every_raw_value() {
    for raw in 0..=255u8 {
        assert_eq!(u8::from(VideoMode::from(raw)), raw);
    }
    assert_eq!(u8::from(VideoMode::Unknown(3)), 3);
}

#[test]
fn capability_records_carry_their_bytes() {
    assert_eq!(
        decode(b"_MeC", &[1, 2, 3]),
        Ok(Command::MeConfig(MeConfig { raw: vec![1, 2, 3] }))
    );
    assert_eq!(
        decode(b"_mpl", &[20, 2]),
        Ok(Command::MediaPlayerConfig(MediaPlayerConfig { raw: vec![20, 2] }))
    );
    assert_eq!(
        decode(b"_VMC", &[0xFF, 0x00, 0x0F]),
        Ok(Command::VideoModeConfig(VideoModeConfig { raw: vec![0xFF, 0x00, 0x0F] }))
    );
}

#[test]
fn multiview_records_decode() {
    assert_eq!(
        decode(b"MvIn", &[1, 9, 0x0B, 0xC2]),
        Ok(Command::MultiViewInput(MultiViewInput { multiview: 1, window: 9, source: 3010 }))
    );
    assert_eq!(
        decode(b"VuMC", &[0, 3, 1]),
        Ok(Command::MultiViewVU(MultiViewVU { multiview: 0, window: 3, enabled: true }))
    );
    assert_eq!(
        decode(b"SaMw", &[0, 4, 0]),
        Ok(Command::MultiViewSafeArea(MultiViewSafeArea {
            multiview: 0,
            window: 4,
            enabled: false
        }))
    );
    assert_eq!(
        decode(b"MvPr", &[1, 5, 1]),
        Ok(Command::MultiViewLayout(MultiViewLayout { multiview: 1, layout: 5, flip_program: true }))
    );
    assert_eq!(decode(b"MvIn", &[1, 9, 0x0B]), Err(Error::Truncated));
    assert_eq!(decode(b"VuMC", &[0, 3]), Err(Error::Truncated));
}

#[test]
fn any_non_zero_byte_is_true() {
    assert_eq!(
        decode(b"VuMC", &[0, 3, 2]),
        Ok(Command::MultiViewVU(MultiViewVU { multiview: 0, window: 3, enabled: true }))
    );
    assert_eq!(
        decode(b"KeOn", &[0, 1, 0x80]),
        Ok(Command::KeyerOnAir(KeyerOnAir { me: 0, keyer: 1, on_air: true }))
    );
    assert_eq!(
        decode(b"KeOn", &[0, 1, 0]),
        Ok(Command::KeyerOnAir(KeyerOnAir { me: 0, keyer: 1, on_air: false }))
    );
}

#[test]
fn keyer_base_properties_decode() {
    let body = [
        1u8, 2, 3, 0xEE, 0xEE, 1, 0x03, 0xE8, 0x07, 0xD0, 0, 0xEE, 0x23, 0x28, 0xDC, 0xD8, 0xC1,
        0x80, 0x3E, 0x80,
    ];
    assert_eq!(
        decode(b"KeBP", &body),
        Ok(Command::KeyerBaseProperties(KeyerBaseProperties {
            me: 1,
            keyer: 2,
            keyer_type: 3,
            flying: true,
            fill: 1000,
            key: 2000,
            mask: false,
            mask_top: 9000,
            mask_bottom: -9000,
            mask_left: -16000,
            mask_right: 16000,
        }))
    );
    assert_eq!(decode(b"KeBP", &body[..19]), Err(Error::Truncated));
}

#[test]
fn signed_fraction_edges() {
    let mut body = vec![0u8; 20];
    body[12] = 0xFF;
    body[13] = 0xFF;
    body[14] = 0x80;
    body[15] = 0x00;
    body[16] = 0x7F;
    body[17] = 0xFF;
    let mut data = Bytes::from(body);
    let k = KeyerBaseProperties::parse(&mut data);
    assert_eq!(k.mask_top, -1);
    assert_eq!(k.mask_bottom, -32768);
    assert_eq!(k.mask_left, 32767);
    assert_eq!(k.mask_right, 0);
}

#[test]
fn tally_sources_decode() {
    let body = [0u8, 2, 0x03, 0xE8, 0x01, 0x00, 0x05, 0x02];
    assert_eq!(
        decode(b"TlSr", &body),
        Ok(Command::TallySources(TallySources {
            tally_states: vec![
                SourceTally::new(1000, TallyState::new(true, false)),
                SourceTally::new(5, TallyState::new(false, true)),
            ],
        }))
    );
    assert_eq!(decode(b"TlSr", &body[..7]), Err(Error::Truncated));
    assert_eq!(decode(b"TlSr", &[0]), Err(Error::Truncated));
}

#[test]
fn tally_with_no_entries() {
    assert_eq!(decode(b"TlIn", &[0, 0]), Ok(Command::TallyInputs(TallyInputs { tally_states: vec![] })));
    assert_eq!(
        decode(b"TlSr", &[0, 0]),
        Ok(Command::TallySources(TallySources { tally_states: vec![] }))
    );
    assert_eq!(decode(b"TlIn", &[0]), Err(Error::Truncated));
    assert_eq!(decode(b"TlIn", &[0, 2, 1]), Err(Error::Truncated));
    assert_eq!(TallyState::default(), TallyState { program: false, preview: false });
}

#[test]
fn tally_count_uses_both_bytes() {
    let mut body = vec![0x01u8, 0x00];
    body.extend(std::iter::repeat(0x01u8).take(256));
    assert!(TallyInputs::is_complete(&Bytes::from(body.clone())));
    match decode(b"TlIn", &body) {
        Ok(Command::TallyInputs(t)) => assert_eq!(t.tally_states.len(), 256),
        other => panic!("tally expected, got {:?}", other),
    }
    assert!(!TallyInputs::is_complete(&Bytes::from(body[..257].to_vec())));
    assert!(!TallySources::is_complete(&Bytes::from(body)));
}

#[test]
fn transition_style_selection_decodes() {
    assert_eq!(
        decode(b"TrSS", &[1, 2, 0x03, 7, 0x80]),
        Ok(Command::TransitionStyleSelection(TransitionStyleSelection {
            me: 1,
            current_style: TransitionStyle::Wipe,
            current_selection: TransitionSelection { bits: 0x03 },
            next_style: TransitionStyle::Unknown(7),
            next_selection: TransitionSelection { bits: 0x80 },
        }))
    );
    let s = TransitionSelection::from_bits_retain(0x03);
    assert!(s.contains(TransitionSelection::BACKGROUND));
    assert!(s.contains(TransitionSelection::KEY1));
    assert!(!s.contains(TransitionSelection::KEY2));
    assert_eq!(s.bits(), 3);
}

#[test]
fn transition_style_table() {
    assert_eq!(TransitionStyle::from(0), TransitionStyle::Mix);
    assert_eq!(TransitionStyle::from(1), TransitionStyle::Dip);
    assert_eq!(TransitionStyle::from(2), TransitionStyle::Wipe);
    assert_eq!(TransitionStyle::from(3), TransitionStyle::Dve);
    assert_eq!(TransitionStyle::from(4), TransitionStyle::Stinger);
    assert_eq!(TransitionStyle::from(5), TransitionStyle::Unknown(5));
    for raw in 0..=255u8 {
        assert_eq!(u8::from(TransitionStyle::from(raw)), raw);
    }
}

#[test]
fn transition_position_skips_its_reserved_bytes() {
    assert_eq!(
        decode(b"TrPs", &[2, 0xEE, 25, 0xEE, 0x13, 0x88]),
        Ok(Command::TransitionPosition(TransitionPosition {
            me: 2,
            frame_count: 25,
            position: 5000
        }))
    );
    assert_eq!(decode(b"TrPs", &[2, 0, 25, 0, 0x13]), Err(Error::Truncated));
}

#[test]
fn small_transition_records_decode() {
    assert_eq!(
        decode(b"TrPr", &[1, 1]),
        Ok(Command::TransitionPreview(TransitionPreview { me: 1, enabled: true }))
    );
    assert_eq!(
        decode(b"TMxP", &[1, 30]),
        Ok(Command::TransitionMix(TransitionMix { me: 1, rate: 30 }))
    );
    assert_eq!(
        decode(b"TDpP", &[0, 25, 0x07, 0xD1]),
        Ok(Command::TransitionDip(TransitionDip { me: 0, rate: 25, source: 2001 }))
    );
    assert_eq!(decode(b"TrPr", &[1]), Err(Error::Truncated));
    assert_eq!(decode(b"TMxP", &[]), Err(Error::Truncated));
    assert_eq!(decode(b"TDpP", &[0, 25, 0x07]), Err(Error::Truncated));
}

#[test]
fn transition_wipe_decodes() {
    let body = [
        1u8, 50, 4, 0xEE, 0x00, 0x64, 0x03, 0xE8, 0x13, 0x88, 0x00, 0x0A, 0x27, 0x10, 0x00, 0x01,
        1, 0,
    ];
    assert_eq!(
        decode(b"TWpP", &body),
        Ok(Command::TransitionWipe(TransitionWipe {
            me: 1,
            rate: 50,
            pattern: 4,
            border_width: 100,
            border_fill_source: 1000,
            symmetry: 5000,
            softness: 10,
            origin_x: 10000,
            origin_y: 1,
            reverse: true,
            flip: false,
        }))
    );
    assert_eq!(decode(b"TWpP", &body[..17]), Err(Error::Truncated));
}

#[test]
fn transition_dve_decodes() {
    let body = [
        0u8, 40, 0xEE, 17, 0x0B, 0xC2, 0x0B, 0xC3, 1, 0, 0x01, 0xF4, 0x02, 0xBC, 0, 1, 1,
    ];
    assert_eq!(
        decode(b"TDvP", &body),
        Ok(Command::TransitionDVE(TransitionDVE {
            me: 0,
            rate: 40,
            style: 17,
            fill_source: 3010,
            key_source: 3011,
            key_enabled: true,
            key_premultiplied: false,
            key_clip: 500,
            key_gain: 700,
            key_invert: false,
            reverse: true,
            flip: true,
        }))
    );
    assert_eq!(decode(b"TDvP", &body[..16]), Err(Error::Truncated));
}

#[test]
fn transition_stinger_decodes() {
    let body = [3u8, 0x0B, 0xC2, 1, 0x01, 0xF4, 0x02, 0xBC, 0, 0x00, 0x0A, 0x00, 0x64, 0x00, 0x19];
    assert_eq!(
        decode(b"TStP", &body),
        Ok(Command::TransitionStinger(TransitionStinger {
            me: 3,
            source: 3010,
            key_premultiplied: true,
            key_clip: 500,
            key_gain: 700,
            key_invert: false,
            pre_roll: 10,
            clip_duration: 100,
            rate: 25,
        }))
    );
    assert_eq!(decode(b"TStP", &body[..14]), Err(Error::Truncated));
}

#[test]
fn fixed_records_ignore_what_follows_their_layout() {
    assert_eq!(
        decode(b"_ver", &[0, 8, 0, 1, 0xAA, 0xBB]),
        Ok(Command::Version(Version { major: 8, minor: 1 }))
    );
    assert_eq!(Version::default(), Version { major: 0, minor: 0 });
}
