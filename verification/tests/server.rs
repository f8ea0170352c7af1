use gvm_lights::cli::{client_uids, find_command, CommandArgs};
use gvm_lights::gvm_server_custom::{handle_frame, node_addresses, HandlerAction};
use gvm_lights::gvm_server_event::GvmServerEvent;
use gvm_lights::node_command::{GvmNodeCommand, LightCmd, ModeCmd, SceneCmd};

fn no_args() -> CommandArgs {
    CommandArgs {
        light: None,
        mode: None,
        brightness: None,
        temperature: None,
        hue: None,
        saturation: None,
        scene: None,
        rgb: None,
    }
}

#[test]
fn node_count_request_is_answered() {
    assert_eq!(
        handle_frame(3, GvmServerEvent::GetNodeCount),
        HandlerAction::Reply(GvmServerEvent::NodeCount(3))
    );
    assert_eq!(
        handle_frame(300, GvmServerEvent::GetNodeCount),
        HandlerAction::Reply(GvmServerEvent::NodeCount(44))
    );
}

#[test]
fn status_and_command_requests_address_lights_from_one() {
    assert_eq!(
        handle_frame(2, GvmServerEvent::GetNodeStatus(2)),
        HandlerAction::QueryStatus { uid: 2, index: 1 }
    );
    assert_eq!(
        handle_frame(2, GvmServerEvent::NodeCommand(1, GvmNodeCommand::Brightness(5))),
        HandlerAction::SendCommand { index: 0, command: GvmNodeCommand::Brightness(5) }
    );
}

#[test]
fn unknown_light_closes_the_connection() {
    assert_eq!(handle_frame(2, GvmServerEvent::GetNodeStatus(3)), HandlerAction::Close);
    assert_eq!(
        handle_frame(0, GvmServerEvent::NodeCommand(1, GvmNodeCommand::RGB(1))),
        HandlerAction::Close
    );
}

#[test]
fn answers_from_a_client_are_ignored() {
    assert_eq!(handle_frame(2, GvmServerEvent::NodeCount(2)), HandlerAction::Ignore);
}

#[test]
fn node_addresses_are_numbered_from_one() {
    let nodes = node_addresses("A4:C1:38:EE:EE:01,A4:C1:38:EE:EE:02");
    assert_eq!(nodes.len(), 2);
    assert_eq!(nodes[0].uid, 1);
    assert_eq!(nodes[0].address, "A4:C1:38:EE:EE:01");
    assert_eq!(nodes[1].uid, 2);
    assert_eq!(nodes[1].address, "A4:C1:38:EE:EE:02");
}

#[test]
fn node_addresses_keep_empty_fields() {
    let one = node_addresses("A4:C1:38:EE:EE:01");
    assert_eq!(one.len(), 1);
    assert_eq!(one[0].address, "A4:C1:38:EE:EE:01");
    let empty = node_addresses("");
    assert_eq!(empty.len(), 1);
    assert_eq!(empty[0].address, "");
    let gaps = node_addresses("a,,b,");
    let texts: Vec<&str> = gaps.iter().map(|n| n.address.as_str()).collect();
    assert_eq!(texts, vec!["a", "", "b", ""]);
    assert_eq!(gaps[3].uid, 4);
}

#[test]
fn command_from_light_and_mode_options() {
    let mut a = no_args();
    a.light = Some("on".to_string());
    a.brightness = Some(10);
    assert_eq!(find_command(&a), Some(GvmNodeCommand::Light(LightCmd::On)));
    let mut b = no_args();
    b.light = Some("off".to_string());
    assert_eq!(find_command(&b), Some(GvmNodeCommand::Light(LightCmd::Off)));
    let mut c = no_args();
    c.mode = Some("CT".to_string());
    assert_eq!(find_command(&c), Some(GvmNodeCommand::Mode(ModeCmd::ColourTemp)));
    c.mode = Some("HS".to_string());
    assert_eq!(find_command(&c), Some(GvmNodeCommand::Mode(ModeCmd::HueSat)));
    c.mode = Some("Sc".to_string());
    assert_eq!(find_command(&c), Some(GvmNodeCommand::Mode(ModeCmd::Scenes)));
}

#[test]
fn command_from_numeric_options() {
    let mut a = no_args();
    a.temperature = Some(4000);
    a.hue = Some(5);
    assert_eq!(find_command(&a), Some(GvmNodeCommand::Temperature(4000)));
    let mut b = no_args();
    b.hue = Some(90);
    assert_eq!(find_command(&b), Some(GvmNodeCommand::Hue(90)));
    let mut c = no_args();
    c.saturation = Some(33);
    assert_eq!(find_command(&c), Some(GvmNodeCommand::Saturation(33)));
    let mut d = no_args();
    d.scene = Some(2);
    assert_eq!(find_command(&d), Some(GvmNodeCommand::Scene(SceneCmd::Candle)));
    let mut e = no_args();
    e.rgb = Some(200);
    assert_eq!(find_command(&e), Some(GvmNodeCommand::RGB(200)));
    let mut f = no_args();
    f.brightness = Some(70);
    assert_eq!(find_command(&f), Some(GvmNodeCommand::Brightness(70)));
    assert_eq!(find_command(&no_args()), None);
}

#[test]
fn clients_for_one_or_all_lights() {
    assert_eq!(client_uids(3, None), vec![3]);
    assert_eq!(client_uids(255, Some(3)), vec![1, 2, 3]);
    assert_eq!(client_uids(255, Some(0)), Vec::<u8>::new());
    assert_eq!(client_uids(255, None), Vec::<u8>::new());
}
