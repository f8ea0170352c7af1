use bytes::BytesMut;
use gvm_lights::errors::{GvmNodeError, GvmServerError, MqttError};
use gvm_lights::gvm_server_codec::{starts_with_frame_header, GvmServerCodec};
use gvm_lights::gvm_server_event::GvmServerEvent;
use gvm_lights::node_command::{GvmNodeCommand, LightCmd, ModeCmd, SceneCmd};
use gvm_lights::node_status::{Brightness, GvmNodeStatus, Hue, PowerState, Saturation, Temperature, RGB};
use gvm_lights::wire::{command_from_wire, command_to_wire, status_from_wire, status_to_wire};

fn sample_status() -> GvmNodeStatus {
    GvmNodeStatus {
        power_state: PowerState { value: true },
        brightness: Brightness { value: 50 },
        temperature: Temperature { value: 4000 },
        hue: Hue { value: 300 },
        saturation: Saturation { value: 20 },
        rgb: RGB { value: 9 },
    }
}

fn encoded(e: GvmServerEvent) -> Vec<u8> {
    let mut codec = GvmServerCodec::new();
    let mut buf = BytesMut::new();
    codec.encode(e, &mut buf).unwrap();
    buf.to_vec()
}

#[test]
fn encode_simple_frames() {
    assert_eq!(encoded(GvmServerEvent::GetNodeCount), vec![0x01]);
    assert_eq!(encoded(GvmServerEvent::NodeCount(3)), vec![0x02, 3]);
    assert_eq!(encoded(GvmServerEvent::GetNodeStatus(2)), vec![0x03, 2]);
}

#[test]
fn encode_status_frame() {
    assert_eq!(
        encoded(GvmServerEvent::NodeStatus(1, sample_status())),
        vec![0x04, 1, 1, 50, 0xA0, 0x0F, 0x2C, 0x01, 20, 9]
    );
}

#[test]
fn encode_command_frames() {
    assert_eq!(
        encoded(GvmServerEvent::NodeCommand(2, GvmNodeCommand::Brightness(40))),
        vec![0x05, 2, 2, 0, 0, 0, 40]
    );
    assert_eq!(
        encoded(GvmServerEvent::NodeCommand(1, GvmNodeCommand::Light(LightCmd::Off))),
        vec![0x05, 1, 0, 0, 0, 0, 1, 0, 0, 0]
    );
    assert_eq!(
        encoded(GvmServerEvent::NodeCommand(1, GvmNodeCommand::Temperature(5000))),
        vec![0x05, 1, 3, 0, 0, 0, 0x88, 0x13]
    );
    assert_eq!(
        encoded(GvmServerEvent::NodeCommand(1, GvmNodeCommand::Scene(SceneCmd::Disco))),
        vec![0x05, 1, 7, 0, 0, 0, 6, 0, 0, 0]
    );
}

#[test]
fn decode_gives_back_every_encoded_frame() {
    let events = vec![
        GvmServerEvent::GetNodeCount,
        GvmServerEvent::NodeCount(7),
        GvmServerEvent::GetNodeStatus(1),
        GvmServerEvent::NodeStatus(3, sample_status()),
        GvmServerEvent::NodeCommand(1, GvmNodeCommand::Light(LightCmd::On)),
        GvmServerEvent::NodeCommand(2, GvmNodeCommand::Mode(ModeCmd::HueSat)),
        GvmServerEvent::NodeCommand(3, GvmNodeCommand::Brightness(12)),
        GvmServerEvent::NodeCommand(4, GvmNodeCommand::Temperature(3200)),
        GvmServerEvent::NodeCommand(5, GvmNodeCommand::Hue(200)),
        GvmServerEvent::NodeCommand(6, GvmNodeCommand::Saturation(77)),
        GvmServerEvent::NodeCommand(7, GvmNodeCommand::RGB(1)),
        GvmServerEvent::NodeCommand(8, GvmNodeCommand::Scene(SceneCmd::Paparazzi)),
    ];
    let mut codec = GvmServerCodec::new();
    let mut buf = BytesMut::new();
    for e in &events {
        codec.encode(*e, &mut buf).unwrap();
    }
    for e in &events {
        let d = codec.decode(&mut buf).unwrap();
        assert_eq!(d, Some(*e));
    }
    assert!(buf.is_empty());
    assert_eq!(codec.decode(&mut buf).unwrap(), None);
}

#[test]
fn decode_waits_for_an_incomplete_frame() {
    let mut codec = GvmServerCodec::new();
    let mut buf = BytesMut::from(&[0x02u8][..]);
    assert_eq!(codec.decode(&mut buf).unwrap(), None);
    assert_eq!(buf.len(), 1);
    let mut status = BytesMut::from(&[0x04u8, 1, 1, 50][..]);
    assert_eq!(codec.decode(&mut status).unwrap(), None);
    assert_eq!(status.len(), 4);
    let mut command = BytesMut::from(&[0x05u8, 1, 2][..]);
    assert_eq!(codec.decode(&mut command).unwrap(), None);
    assert_eq!(command.len(), 3);
}

#[test]
fn decode_rejects_bad_payloads() {
    let mut codec = GvmServerCodec::new();
    let mut bad_bool = BytesMut::from(&[0x04u8, 1, 2, 0, 0, 0, 0, 0, 0, 0][..]);
    assert!(matches!(codec.decode(&mut bad_bool), Err(GvmServerError::ParsingError)));
    assert_eq!(bad_bool.len(), 10);
    let mut bad_variant = BytesMut::from(&[0x05u8, 1, 9, 0, 0, 0, 0][..]);
    assert!(matches!(codec.decode(&mut bad_variant), Err(GvmServerError::ParsingError)));
    let mut bad_scene = BytesMut::from(&[0x05u8, 1, 7, 0, 0, 0, 8, 0, 0, 0][..]);
    assert!(matches!(codec.decode(&mut bad_scene), Err(GvmServerError::ParsingError)));
}

#[test]
fn wire_roundtrips() {
    let bytes = status_to_wire(&sample_status()).unwrap();
    assert_eq!(bytes, vec![1, 50, 0xA0, 0x0F, 0x2C, 0x01, 20, 9]);
    let (s, n) = status_from_wire(&bytes).unwrap();
    assert_eq!(s, sample_status());
    assert_eq!(n, 8);
    let c = GvmNodeCommand::Hue(355);
    let cb = command_to_wire(&c).unwrap();
    assert_eq!(cb, vec![4, 0, 0, 0, 0x63, 0x01]);
    assert_eq!(command_from_wire(&cb), Some((c, 6)));
    assert_eq!(command_from_wire(&[4, 0, 0, 0, 1]), None);
}

#[test]
fn error_descriptions() {
    assert_eq!(GvmNodeError::NodesNotFound.description(), "no known nodes");
    assert_eq!(
        GvmNodeError::StateRetrievalFailed.description(),
        "failed to retrieve states from gvm nodes"
    );
    let io = std::io::Error::new(std::io::ErrorKind::Other, "x");
    assert_eq!(GvmNodeError::from(io).description(), "IO error");
    assert_eq!(GvmServerError::EndOfStream.description(), "protocol error");
    assert_eq!(GvmServerError::ParsingError.description(), "de-/serializing failed");
    assert_eq!(GvmServerError::NodesNotFound.description(), "no gvm light devices found");
    let io = std::io::Error::new(std::io::ErrorKind::Other, "y");
    assert_eq!(GvmServerError::from(io).description(), "IO error");
    assert_eq!(MqttError::InvalidTopic.description(), "invalid topic");
    assert_eq!(MqttError::InvalidPayload.description(), "invalid payload");
    assert_eq!(MqttError::UnavailableNodeStatus.description(), "unavailable node status");
    let io = std::io::Error::new(std::io::ErrorKind::Other, "z");
    assert_eq!(MqttError::from(io).description(), "IO error");
}

#[test]
fn frame_header_test_before_decoding() {
    assert!(starts_with_frame_header(&BytesMut::new()));
    for tag in 1u8..=5 {
        assert!(starts_with_frame_header(&BytesMut::from(&[tag, 0][..])));
    }
    assert!(!starts_with_frame_header(&BytesMut::from(&[0u8][..])));
    assert!(!starts_with_frame_header(&BytesMut::from(&[6u8, 1][..])));
}
