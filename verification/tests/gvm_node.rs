use gvm_lights::gvm_node::{
    command_frame, command_packet, format_msg, frame_with_checksum, is_state_notification,
    status_from_notification, status_request_packet,
};
use gvm_lights::node_command::{GvmNodeCommand, LightCmd, ModeCmd, NodeCommandEncoder, SceneCmd};
use gvm_lights::node_status::GvmNodeStatus;

fn text(v: Vec<u8>) -> String {
    String::from_utf8(v).unwrap()
}

#[test]
fn encode_each_command() {
    assert_eq!(text(GvmNodeCommand::Light(LightCmd::On).encode()), "000101");
    assert_eq!(text(GvmNodeCommand::Light(LightCmd::Off).encode()), "000100");
    assert_eq!(text(GvmNodeCommand::RGB(255).encode()), "0101FF");
    assert_eq!(text(GvmNodeCommand::Brightness(63).encode()), "02013F");
    assert_eq!(text(GvmNodeCommand::Temperature(5600).encode()), "030138");
    assert_eq!(text(GvmNodeCommand::Hue(360).encode()), "040148");
    assert_eq!(text(GvmNodeCommand::Saturation(0).encode()), "050100");
    assert_eq!(text(GvmNodeCommand::Mode(ModeCmd::Scenes).encode()), "060103");
    assert_eq!(text(GvmNodeCommand::Scene(SceneCmd::Lightning).encode()), "070101");
    assert_eq!(text(GvmNodeCommand::Scene(SceneCmd::Paparazzi).encode()), "070108");
}

#[test]
fn encode_clamps_parameters() {
    assert_eq!(text(GvmNodeCommand::Brightness(200).encode()), "020164");
    assert_eq!(text(GvmNodeCommand::Saturation(255).encode()), "050164");
    assert_eq!(text(GvmNodeCommand::Temperature(0).encode()), "030120");
    assert_eq!(text(GvmNodeCommand::Temperature(65535).encode()), "030138");
    assert_eq!(text(GvmNodeCommand::Hue(1000).encode()), "040148");
    assert_eq!(text(GvmNodeCommand::Temperature(4250).encode()), "03012A");
}

#[test]
fn command_frames_match_protocol_examples() {
    assert_eq!(
        text(command_frame(GvmNodeCommand::Light(LightCmd::On))),
        "4C54090030570000010122DFFF"
    );
    assert_eq!(
        text(command_frame(GvmNodeCommand::Light(LightCmd::Off))),
        "4C54090030570000010032FEFF"
    );
}

#[test]
fn command_packet_is_frame_as_bytes() {
    assert_eq!(
        command_packet(GvmNodeCommand::Light(LightCmd::On)),
        vec![0x4C, 0x54, 0x09, 0x00, 0x30, 0x57, 0x00, 0x00, 0x01, 0x01, 0x22, 0xDF, 0xFF]
    );
    let frame = command_frame(GvmNodeCommand::Brightness(40));
    assert_eq!(command_packet(GvmNodeCommand::Brightness(40)), format_msg(&frame));
}

#[test]
fn format_msg_reads_pairs_of_hex_digits() {
    assert_eq!(format_msg(b"4C54"), vec![0x4C, 0x54]);
    assert_eq!(format_msg(b"00FF9"), vec![0x00, 0xFF]);
    assert_eq!(format_msg(b""), Vec::<u8>::new());
}

#[test]
fn status_request_is_fixed_packet() {
    assert_eq!(status_request_packet(), format_msg(b"4C5409000053000001009474FF"));
    assert_eq!(
        status_request_packet(),
        vec![0x4C, 0x54, 0x09, 0x00, 0x00, 0x53, 0x00, 0x00, 0x01, 0x00, 0x94, 0x74, 0xFF]
    );
}

#[test]
fn frame_with_checksum_appends_hex_and_end() {
    assert_eq!(text(frame_with_checksum(b"AB", &[0x12, 0xEF])), "AB12EFFF");
}

#[test]
fn state_notifications_are_recognised() {
    assert!(is_state_notification(&[0, 0, 0x0E, 1]));
    assert!(!is_state_notification(&[0, 0, 0x0A, 1]));
    assert!(is_state_notification(&[0, 0]));
}

#[test]
fn status_read_from_notification() {
    let value = [0x4C, 0x54, 0x0E, 0, 0, 0, 1, 3, 75, 32, 72, 100];
    let status = status_from_notification(&value);
    assert!(status.power_state.value);
    assert_eq!(status.rgb.value, 3);
    assert_eq!(status.brightness.value, 75);
    assert_eq!(status.temperature.value, 3200);
    assert_eq!(status.hue.value, 360);
    assert_eq!(status.saturation.value, 100);
    let off = [0, 0, 0x0E, 0, 0, 0, 2, 0, 0, 0, 0, 0];
    assert!(!status_from_notification(&off).power_state.value);
}

#[test]
fn new_status_is_all_zero() {
    let s = GvmNodeStatus::new();
    assert!(!s.power_state.value);
    assert_eq!(s.brightness.value, 0);
    assert_eq!(s.temperature.value, 0);
    assert_eq!(s.hue.value, 0);
    assert_eq!(s.saturation.value, 0);
    assert_eq!(s.rgb.value, 0);
}

#[test]
fn every_packet_is_thirteen_bytes_ending_in_ff() {
    let cmds = [
        GvmNodeCommand::Light(LightCmd::Off),
        GvmNodeCommand::Hue(90),
        GvmNodeCommand::Scene(SceneCmd::TV),
        GvmNodeCommand::Mode(ModeCmd::HueSat),
    ];
    for c in cmds {
        let p = command_packet(c);
        assert_eq!(p.len(), 13);
        assert_eq!(p[12], 0xFF);
        assert_eq!(command_frame(c).len(), 26);
    }
}
