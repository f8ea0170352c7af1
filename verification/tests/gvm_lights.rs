use gvm_lights::ble_client::notification_messages;
use gvm_lights::codec::{encode, message_text, ControlMessage, LightCmd, ModeCmd};
use gvm_lights::gvm_node::command_frame;
use gvm_lights::node_command::{self as node, GvmNodeCommand, NodeCommandEncoder, SceneCmd};

#[test]
fn it_works() {
    assert_eq!(2 + 2, 4);
}

#[test]
fn message_text_of_each_command() {
    assert_eq!(message_text(ControlMessage::Light(LightCmd::On)), "000101");
    assert_eq!(message_text(ControlMessage::Light(LightCmd::Off)), "000100");
    assert_eq!(message_text(ControlMessage::RGB(200)), "0101C8");
    assert_eq!(message_text(ControlMessage::Brightness(63)), "02013F");
    assert_eq!(message_text(ControlMessage::Temperature(4000)), "030128");
    assert_eq!(message_text(ControlMessage::Hue(180)), "040124");
    assert_eq!(message_text(ControlMessage::Saturation(50)), "050132");
    assert_eq!(message_text(ControlMessage::Mode(ModeCmd::ColourTemp)), "060101");
    assert_eq!(message_text(ControlMessage::Mode(ModeCmd::HueSat)), "060102");
    assert_eq!(message_text(ControlMessage::Mode(ModeCmd::Scenes)), "060103");
    assert_eq!(message_text(ControlMessage::Scene(3)), "070103");
}

#[test]
fn message_parameters_are_clamped() {
    assert_eq!(message_text(ControlMessage::Brightness(150)), "020164");
    assert_eq!(message_text(ControlMessage::Saturation(101)), "050164");
    assert_eq!(message_text(ControlMessage::Temperature(1000)), "030120");
    assert_eq!(message_text(ControlMessage::Temperature(9000)), "030138");
    assert_eq!(message_text(ControlMessage::Hue(400)), "040148");
    assert_eq!(message_text(ControlMessage::Scene(9)), "070100");
    assert_eq!(message_text(ControlMessage::Scene(8)), "070108");
}

#[test]
fn encode_matches_protocol_examples() {
    let on = encode(&ControlMessage::Light(LightCmd::On)).unwrap();
    assert_eq!(String::from_utf8(on).unwrap(), "4C54090030570000010122DFFF");
    let off = encode(&ControlMessage::Light(LightCmd::Off)).unwrap();
    assert_eq!(String::from_utf8(off).unwrap(), "4C54090030570000010032FEFF");
}

#[test]
fn state_notification_gives_six_messages() {
    let value = [0x4C, 0x54, 0x0E, 0, 0, 0, 1, 7, 80, 45, 36, 90];
    let msgs = notification_messages(&value);
    assert_eq!(
        msgs,
        vec![
            ControlMessage::Light(LightCmd::On),
            ControlMessage::RGB(7),
            ControlMessage::Brightness(80),
            ControlMessage::Temperature(4500),
            ControlMessage::Hue(180),
            ControlMessage::Saturation(90),
        ]
    );
    let off = [0x4C, 0x54, 0x0E, 0, 0, 0, 0, 0, 0, 0, 0, 0];
    assert_eq!(notification_messages(&off)[0], ControlMessage::Light(LightCmd::Off));
}

#[test]
fn acknowledgement_notification_gives_none() {
    let value = [0x4C, 0x54, 0x0A, 0, 0];
    assert!(notification_messages(&value).is_empty());
}

#[test]
fn client_and_server_frames_agree() {
    assert_eq!(
        encode(&ControlMessage::Brightness(40)).unwrap(),
        command_frame(GvmNodeCommand::Brightness(40))
    );
    assert_eq!(
        encode(&ControlMessage::Temperature(5000)).unwrap(),
        command_frame(GvmNodeCommand::Temperature(5000))
    );
    assert_eq!(
        encode(&ControlMessage::Scene(3)).unwrap(),
        command_frame(GvmNodeCommand::Scene(SceneCmd::Candle))
    );
}

#[test]
fn message_text_is_command_text() {
    let pairs = [
        (ControlMessage::Light(LightCmd::On), GvmNodeCommand::Light(node::LightCmd::On)),
        (ControlMessage::Light(LightCmd::Off), GvmNodeCommand::Light(node::LightCmd::Off)),
        (ControlMessage::RGB(17), GvmNodeCommand::RGB(17)),
        (ControlMessage::Brightness(130), GvmNodeCommand::Brightness(130)),
        (ControlMessage::Temperature(4321), GvmNodeCommand::Temperature(4321)),
        (ControlMessage::Hue(359), GvmNodeCommand::Hue(359)),
        (ControlMessage::Saturation(42), GvmNodeCommand::Saturation(42)),
        (ControlMessage::Mode(ModeCmd::HueSat), GvmNodeCommand::Mode(node::ModeCmd::HueSat)),
        (ControlMessage::Scene(8), GvmNodeCommand::Scene(SceneCmd::Paparazzi)),
    ];
    for (msg, cmd) in pairs {
        assert_eq!(message_text(msg).into_bytes(), cmd.encode());
    }
    assert_eq!(message_text(ControlMessage::Scene(0)), "070100");
    assert_eq!(message_text(ControlMessage::Scene(200)), "070100");
}
