use osc_obs_bridge::osc::{advertised_service, osc_advertisement, reply_targets, Endpoint, IpAddress};
use osc_obs_bridge::bridge::{BridgeCommand, BridgeResponse};
use osc_obs_bridge::osc::{
    commands_from_datagram, encode_response, handle_message, handle_packet, parse_scene_command,
    response_to_osc, DecodedArg, DecodedMessage, DecodedPacket, ReplyArg,
};
use rosc::{OscBundle, OscMessage, OscPacket, OscTime, OscType};

fn msg(addr: &str, args: Vec<DecodedArg>) -> DecodedMessage {
    DecodedMessage { addr: addr.to_string(), args }
}

fn encode(p: &OscPacket) -> Vec<u8> {
    rosc::encoder::encode(p).unwrap()
}

fn rosc_msg(addr: &str, args: Vec<OscType>) -> OscPacket {
    OscPacket::Message(OscMessage { addr: addr.to_string(), args })
}

#[test]
fn scene_arguments() {
    assert!(matches!(
        parse_scene_command(&[DecodedArg::Str("Band Logo".to_string())]),
        Some(BridgeCommand::SetSceneByName(ref n)) if n == "Band Logo"
    ));
    assert!(matches!(parse_scene_command(&[DecodedArg::Int(3)]), Some(BridgeCommand::SetSceneByIndex(3))));
    assert!(matches!(parse_scene_command(&[DecodedArg::Float(2)]), Some(BridgeCommand::SetSceneByIndex(2))));
    assert!(parse_scene_command(&[]).is_none());
    assert!(parse_scene_command(&[DecodedArg::Other, DecodedArg::Int(1)]).is_none());
    assert!(matches!(
        parse_scene_command(&[DecodedArg::Int(-4), DecodedArg::Str("x".to_string())]),
        Some(BridgeCommand::SetSceneByIndex(-4))
    ));
}

#[test]
fn message_addresses() {
    assert!(matches!(handle_message(&msg("/sceneList", vec![])), Some(BridgeCommand::GetSceneList)));
    assert!(matches!(handle_message(&msg("/activeScene", vec![DecodedArg::Int(1)])), Some(BridgeCommand::GetActiveScene)));
    assert!(matches!(handle_message(&msg("/scene", vec![DecodedArg::Int(1)])), Some(BridgeCommand::SetSceneByIndex(1))));
    assert!(handle_message(&msg("/scene", vec![])).is_none());
    assert!(handle_message(&msg("/SceneList", vec![])).is_none());
    assert!(handle_message(&msg("/scene/extra", vec![DecodedArg::Int(1)])).is_none());
    assert!(handle_message(&msg("", vec![])).is_none());
}

#[test]
fn bundles_are_walked_in_order() {
    let p = DecodedPacket::Bundle(vec![
        DecodedPacket::Message(msg("/sceneList", vec![])),
        DecodedPacket::Bundle(vec![
            DecodedPacket::Message(msg("/nothing", vec![])),
            DecodedPacket::Message(msg("/scene", vec![DecodedArg::Int(2)])),
        ]),
        DecodedPacket::Message(msg("/activeScene", vec![])),
    ]);
    let cmds = handle_packet(&p);
    assert_eq!(cmds.len(), 3);
    assert!(matches!(cmds[0], BridgeCommand::GetSceneList));
    assert!(matches!(cmds[1], BridgeCommand::SetSceneByIndex(2)));
    assert!(matches!(cmds[2], BridgeCommand::GetActiveScene));
    assert!(handle_packet(&DecodedPacket::Bundle(vec![])).is_empty());
}

#[test]
fn datagram_with_scene_name() {
    let bytes = encode(&rosc_msg("/scene", vec![OscType::String("Band Logo".to_string())]));
    let cmds = commands_from_datagram(&bytes).unwrap();
    assert_eq!(cmds.len(), 1);
    assert!(matches!(cmds[0], BridgeCommand::SetSceneByName(ref n) if n == "Band Logo"));
}

#[test]
fn datagram_with_int_and_float_index() {
    let cmds = commands_from_datagram(&encode(&rosc_msg("/scene", vec![OscType::Int(3)]))).unwrap();
    assert!(matches!(cmds[0], BridgeCommand::SetSceneByIndex(3)));
    let cmds = commands_from_datagram(&encode(&rosc_msg("/scene", vec![OscType::Float(2.9)]))).unwrap();
    assert!(matches!(cmds[0], BridgeCommand::SetSceneByIndex(2)));
    let cmds = commands_from_datagram(&encode(&rosc_msg("/scene", vec![OscType::Bool(true)]))).unwrap();
    assert!(cmds.is_empty());
}

#[test]
fn datagram_bundle() {
    let bundle = OscPacket::Bundle(OscBundle {
        timetag: OscTime { seconds: 0, fractional: 1 },
        content: vec![
            rosc_msg("/sceneList", vec![]),
            rosc_msg("/activeScene", vec![]),
        ],
    });
    let cmds = commands_from_datagram(&encode(&bundle)).unwrap();
    assert_eq!(cmds.len(), 2);
    assert!(matches!(cmds[0], BridgeCommand::GetSceneList));
    assert!(matches!(cmds[1], BridgeCommand::GetActiveScene));
}

#[test]
fn garbage_datagram_is_rejected() {
    assert!(commands_from_datagram(&[1, 2, 3]).is_none());
    assert!(commands_from_datagram(&[]).is_none());
}

#[test]
fn unknown_address_gives_no_command() {
    let cmds = commands_from_datagram(&encode(&rosc_msg("/ping", vec![]))).unwrap();
    assert!(cmds.is_empty());
}

#[test]
fn reply_messages() {
    let r = response_to_osc(&BridgeResponse::SceneList(vec!["A".to_string(), "B".to_string()]));
    assert_eq!(r.addr, "/sceneListReturn");
    assert_eq!(r.args.len(), 2);
    assert!(matches!(r.args[1], ReplyArg::Str(ref s) if s == "B"));
    let r = response_to_osc(&BridgeResponse::ActiveScene { index: 2, name: "Camera 1".to_string() });
    assert_eq!(r.addr, "/activeSceneReturn");
    assert!(matches!(r.args[0], ReplyArg::Int(2)));
    assert!(matches!(r.args[1], ReplyArg::Str(ref s) if s == "Camera 1"));
    let r = response_to_osc(&BridgeResponse::Status("connected".to_string()));
    assert_eq!(r.addr, "/bridgeStatus");
    assert!(matches!(r.args[0], ReplyArg::Str(ref s) if s == "connected"));
}

#[test]
fn active_scene_datagram_bytes() {
    let bytes = encode_response(&BridgeResponse::ActiveScene { index: 2, name: "Camera 1".to_string() });
    let mut expected: Vec<u8> = b"/activeSceneReturn".to_vec();
    expected.extend_from_slice(&[0, 0]);
    expected.extend_from_slice(b",is\0");
    expected.extend_from_slice(&[0, 0, 0, 2]);
    expected.extend_from_slice(b"Camera 1\0\0\0\0");
    assert_eq!(bytes, expected);
    assert_eq!(bytes.len() % 4, 0);
}

#[test]
fn scene_list_datagram_bytes() {
    let bytes = encode_response(&BridgeResponse::SceneList(vec!["Band Logo".to_string(), "Cam".to_string()]));
    let mut expected: Vec<u8> = b"/sceneListReturn\0\0\0\0".to_vec();
    expected.extend_from_slice(b",ss\0");
    expected.extend_from_slice(b"Band Logo\0\0\0");
    expected.extend_from_slice(b"Cam\0");
    assert_eq!(bytes, expected);
    let empty = encode_response(&BridgeResponse::SceneList(vec![]));
    let mut expected: Vec<u8> = b"/sceneListReturn\0\0\0\0".to_vec();
    expected.extend_from_slice(b",\0\0\0");
    assert_eq!(empty, expected);
}

#[test]
fn status_datagram_round_trips_through_rosc() {
    let bytes = encode_response(&BridgeResponse::Status("obs_disconnected".to_string()));
    let (_, p) = rosc::decoder::decode_udp(&bytes).unwrap();
    match p {
        OscPacket::Message(m) => {
            assert_eq!(m.addr, "/bridgeStatus");
            assert_eq!(m.args, vec![OscType::String("obs_disconnected".to_string())]);
        }
        _ => panic!("expected a message"),
    }
}

#[test]
fn large_index_wraps_like_as_cast() {
    let bytes = encode_response(&BridgeResponse::ActiveScene { index: 0x1_0000_0005usize as usize, name: "é".to_string() });
    let (_, p) = rosc::decoder::decode_udp(&bytes).unwrap();
    match p {
        OscPacket::Message(m) => {
            assert_eq!(m.args[0], OscType::Int(5));
            assert_eq!(m.args[1], OscType::String("é".to_string()));
        }
        _ => panic!("expected a message"),
    }
}

#[test]
fn reply_targets_add_a_different_client() {
    let default = Endpoint::V4 { ip: 0xC0A8_01FF, port: 8000 };
    assert_eq!(reply_targets(default, None, 8000), vec![default]);
    assert_eq!(reply_targets(default, Some(IpAddress::V4(0xC0A8_01FF)), 8000), vec![default]);
    assert_eq!(
        reply_targets(default, Some(IpAddress::V4(0xC0A8_0107)), 8000),
        vec![default, Endpoint::V4 { ip: 0xC0A8_0107, port: 8000 }]
    );
    assert_eq!(
        reply_targets(default, Some(IpAddress::V6(1)), 8000),
        vec![default, Endpoint::V6 { ip: 1, port: 8000, flowinfo: 0, scope_id: 0 }]
    );
    let v6 = Endpoint::V6 { ip: 1, port: 8000, flowinfo: 0, scope_id: 2 };
    assert_eq!(reply_targets(v6, Some(IpAddress::V6(1)), 8000).len(), 2);
}

#[test]
fn advertisement_fields() {
    let a = osc_advertisement("192.168.1.42", 9000);
    assert_eq!(a.service_type, "_osc._udp.local.");
    assert_eq!(a.instance_name, "osc-obs-bridge");
    assert_eq!(a.host_fqdn, "192.168.1.42.local.");
    assert_eq!(a.address, "192.168.1.42");
    assert_eq!(a.port, 9000);
    assert!(a.txt_properties.is_empty());
    let info = advertised_service("192.168.1.42", 9000).unwrap();
    assert_eq!(info.get_fullname(), "osc-obs-bridge._osc._udp.local.");
    assert_eq!(info.get_port(), 9000);
    assert_eq!(info.get_hostname(), "192.168.1.42.local.");
    assert!(info.get_properties().is_empty());
    assert_eq!(advertised_service("10.0.0.1", 8123).unwrap().get_port(), 8123);
    assert!(advertised_service("", 9000).is_ok());
    assert!(advertised_service("not-an-ip", 9000).is_err());
}
