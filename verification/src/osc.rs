//! Translation between OSC traffic and bridge messages: inbound datagrams
//! become `BridgeCommand`s, outbound `BridgeResponse`s become datagrams.

use vstd::prelude::*;
use vstd::string::*;
use vstd::utf8::encode_utf8;
use crate::bridge::{BridgeCommand, BridgeResponse};
use crate::text::str_equal;

verus! {

/// An argument of a received OSC message, as far as the bridge reads it.
#[derive(Debug, Clone)]
pub enum DecodedArg {
    /// An `i` (int32) argument.
    Int(i32),
    /// An `f` (float32) argument, held as the integer that the float converts
    /// to with Rust's `as i32` (truncation toward zero, saturating).
    Float(i32),
    /// An `s` (string) argument.
    Str(String),
    /// Any other argument type.
    Other,
}

/// A received OSC message: its address pattern and its arguments.
#[derive(Debug, Clone)]
pub struct DecodedMessage {
    pub addr: String,
    pub args: Vec<DecodedArg>,
}

/// A received OSC packet: a single message, or a bundle of packets.
#[derive(Debug)]
pub enum DecodedPacket {
    Message(DecodedMessage),
    Bundle(Vec<DecodedPacket>),
}

/// An argument of an outgoing OSC message.
#[derive(Debug, Clone)]
pub enum ReplyArg {
    /// An `i` (int32) argument.
    Int(i32),
    /// An `s` (string) argument.
    Str(String),
}

/// An outgoing OSC message.
#[derive(Debug, Clone)]
pub struct Reply {
    pub addr: String,
    pub args: Vec<ReplyArg>,
}

#[verifier::external_type_specification]
#[verifier::external_body]
pub struct ExRoscPacket(rosc::OscPacket);

#[verifier::external_type_specification]
#[verifier::external_body]
pub struct ExRoscError(rosc::OscError);

// ---------------------------------------------------------------------------
// Inbound: OSC messages to bridge commands
// ---------------------------------------------------------------------------

/// The command that the arguments of a `/scene` message ask for: a scene
/// name (string) or a 1-based scene index (int, or float converted to int).
pub open spec fn scene_command(args: Seq<DecodedArg>) -> Option<BridgeCommand> {
    if args.len() == 0 {
        None
    } else {
        match args[0] {
            DecodedArg::Str(name) => Some(BridgeCommand::SetSceneByName(name)),
            DecodedArg::Int(n) => Some(BridgeCommand::SetSceneByIndex(n)),
            DecodedArg::Float(n) => Some(BridgeCommand::SetSceneByIndex(n)),
            DecodedArg::Other => None,
        }
    }
}

/// The command that one OSC message asks for, if any.
pub open spec fn message_command(msg: DecodedMessage) -> Option<BridgeCommand> {
    if msg.addr@ == "/sceneList"@ {
        Some(BridgeCommand::GetSceneList)
    } else if msg.addr@ == "/activeScene"@ {
        Some(BridgeCommand::GetActiveScene)
    } else if msg.addr@ == "/scene"@ {
        scene_command(msg.args@)
    } else {
        None
    }
}

/// The commands of an optional command: none or one.
pub open spec fn option_commands(c: Option<BridgeCommand>) -> Seq<BridgeCommand> {
    match c {
        Some(c) => seq![c],
        None => Seq::empty(),
    }
}

/// The commands that a sequence of packets asks for, in order, bundles
/// handled depth-first.
pub open spec fn packets_commands(ps: Seq<DecodedPacket>) -> Seq<BridgeCommand>
    decreases ps,
{
    if ps.len() == 0 {
        Seq::empty()
    } else {
        packets_commands(ps.drop_last()) + match ps.last() {
            DecodedPacket::Message(m) => option_commands(message_command(m)),
            DecodedPacket::Bundle(content) => packets_commands(content@),
        }
    }
}

/// The commands that one packet asks for, in order.
pub open spec fn packet_commands(p: DecodedPacket) -> Seq<BridgeCommand> {
    match p {
        DecodedPacket::Message(m) => option_commands(message_command(m)),
        DecodedPacket::Bundle(content) => packets_commands(content@),
    }
}

/// Parse the arguments for a /scene command.
/// Accepts either a string (scene name) or an integer (1-based index).
pub fn parse_scene_command(args: &[DecodedArg]) -> (r: Option<BridgeCommand>)
    ensures
        r == scene_command(args@),
{
    if args.len() == 0 {
        return None;
    }
    match &args[0] {
        DecodedArg::Str(name) => Some(BridgeCommand::SetSceneByName(name.clone())),
        DecodedArg::Int(n) => Some(BridgeCommand::SetSceneByIndex(*n)),
        DecodedArg::Float(n) => Some(BridgeCommand::SetSceneByIndex(*n)),
        DecodedArg::Other => None,
    }
}

/// Translate a single OSC message into a BridgeCommand.
pub fn handle_message(msg: &DecodedMessage) -> (r: Option<BridgeCommand>)
    ensures
        r == message_command(*msg),
{
    let addr = msg.addr.as_str();
    if str_equal(addr, "/sceneList") {
        Some(BridgeCommand::GetSceneList)
    } else if str_equal(addr, "/activeScene") {
        Some(BridgeCommand::GetActiveScene)
    } else if str_equal(addr, "/scene") {
        parse_scene_command(msg.args.as_slice())
    } else {
        None
    }
}

/// Recursively handle an OSC packet (message or bundle): the commands it
/// asks for, in the order they are to be sent to the OBS side.
pub fn handle_packet(packet: &DecodedPacket) -> (r: Vec<BridgeCommand>)
    ensures
        r@ == packet_commands(*packet),
    decreases packet,
{
    match packet {
        DecodedPacket::Message(msg) => {
            let mut out: Vec<BridgeCommand> = Vec::new();
            if let Some(cmd) = handle_message(msg) {
                out.push(cmd);
            }
            assert(out@ =~= packet_commands(*packet));
            out
        },
        DecodedPacket::Bundle(content) => {
            let mut out: Vec<BridgeCommand> = Vec::new();
            let mut i: usize = 0;
            assert(content@.take(0) =~= Seq::<DecodedPacket>::empty());
            while i < content.len()
                invariant
                    i <= content.len(),
                    out@ == packets_commands(content@.take(i as int)),
                    *packet == DecodedPacket::Bundle(*content),
                decreases content.len() - i,
            {
                assert(decreases_to!(*packet => content@[i as int])) by {
                    assert(decreases_to!(*packet => packet->Bundle_0));
                    assert(decreases_to!(packet->Bundle_0 => packet->Bundle_0@));
                    assert(decreases_to!(content@ => content@[i as int]));
                }
                let mut inner = handle_packet(&content[i]);
                assert(content@.take(i + 1).drop_last() =~= content@.take(i as int));
                assert(content@.take(i + 1).last() == content@[i as int]);
                out.append(&mut inner);
                i = i + 1;
            }
            assert(content@.take(i as int) =~= content@);
            out
        },
    }
}

/// The commands that a received datagram asks for, or `None` when it does
/// not decode as an OSC packet.
pub open spec fn datagram_commands(bytes: Seq<u8>) -> Option<Seq<BridgeCommand>> {
    match osc_decoding(bytes) {
        Some(p) => Some(packet_commands(p)),
        None => None,
    }
}

/// The packet that `rosc::decoder::decode_udp` decodes from `bytes`, copied
/// into the library's packet type (a float argument as the integer that
/// `as i32` gives for it), or `None` when it reports an error.
pub uninterp spec fn osc_decoding(bytes: Seq<u8>) -> Option<DecodedPacket>;

/// Decodes one UDP datagram with `rosc::decoder::decode_udp`.
/// Trusted: the result is what that function decodes from `bytes`, copied
/// variant for variant into `DecodedPacket` (the copy is made by
/// `decoded_from_rosc`); an error from rosc is handed back as is. What rosc
/// decodes from given bytes is not stated here, only named.
#[verifier::external_body]
fn decode_datagram(bytes: &[u8]) -> (r: Result<DecodedPacket, rosc::OscError>)
    ensures
        r matches Ok(p) ==> osc_decoding(bytes@) == Some(p),
        r is Err ==> osc_decoding(bytes@) is None,
{
    match rosc::decoder::decode_udp(bytes) {
        Ok((_rest, packet)) => Ok(decoded_from_rosc(&packet)),
        Err(e) => Err(e),
    }
}

/// Copies a packet decoded by `rosc` into `DecodedPacket`: messages keep their
/// address, `Int`, `String` and `Float` arguments keep their value (the float
/// converted with `as i32`), other argument types become `Other`, and bundles
/// keep their packets in order. Used only by `decode_datagram`, whose
/// contract covers it.
#[verifier::external_body]
fn decoded_from_rosc(packet: &rosc::OscPacket) -> DecodedPacket {
    match packet {
        rosc::OscPacket::Message(m) => DecodedPacket::Message(DecodedMessage {
            addr: m.addr.clone(),
            args: m.args.iter().map(|a| match a {
                rosc::OscType::Int(n) => DecodedArg::Int(*n),
                rosc::OscType::Float(f) => DecodedArg::Float(*f as i32),
                rosc::OscType::String(s) => DecodedArg::Str(s.clone()),
                _ => DecodedArg::Other,
            }).collect(),
        }),
        rosc::OscPacket::Bundle(b) => DecodedPacket::Bundle(b.content.iter().map(decoded_from_rosc).collect()),
    }
}

/// Decode a received datagram and translate it into the commands it asks
/// for, in order; `None` when the datagram is not a valid OSC packet.
pub fn commands_from_datagram(bytes: &[u8]) -> (r: Option<Vec<BridgeCommand>>)
    ensures
        r matches Some(v) ==> datagram_commands(bytes@) == Some(v@),
        r is None ==> datagram_commands(bytes@) is None,
{
    match decode_datagram(bytes) {
        Ok(packet) => Some(handle_packet(&packet)),
        Err(_) => None,
    }
}

// ---------------------------------------------------------------------------
// Outbound: bridge responses to OSC messages
// ---------------------------------------------------------------------------

/// The OSC address of the message that carries a response.
pub open spec fn response_addr(resp: BridgeResponse) -> Seq<char> {
    match resp {
        BridgeResponse::SceneList(_) => "/sceneListReturn"@,
        BridgeResponse::ActiveScene { .. } => "/activeSceneReturn"@,
        BridgeResponse::Status(_) => "/bridgeStatus"@,
    }
}

/// The OSC arguments of the message that carries a response: one string per
/// scene, the 0-based index and the name of the active scene, or the status.
pub open spec fn response_args(resp: BridgeResponse) -> Seq<ReplyArg> {
    match resp {
        BridgeResponse::SceneList(names) => names@.map_values(|n: String| ReplyArg::Str(n)),
        BridgeResponse::ActiveScene { index, name } => seq![
            ReplyArg::Int(index as i32),
            ReplyArg::Str(name),
        ],
        BridgeResponse::Status(s) => seq![ReplyArg::Str(s)],
    }
}

/// `n` zero bytes.
pub open spec fn zero_bytes(n: nat) -> Seq<u8> {
    Seq::new(n, |i: int| 0u8)
}

/// An OSC-string: the bytes, then one to four NUL bytes so that the length
/// is a multiple of four.
pub open spec fn osc_string(b: Seq<u8>) -> Seq<u8> {
    b + zero_bytes((4 - b.len() % 4) as nat)
}

/// An OSC int32: four bytes, big-endian two's complement.
pub open spec fn int32_be(x: i32) -> Seq<u8> {
    let u: int = if x < 0 { x + 0x1_0000_0000 } else { x as int };
    seq![(u / 0x100_0000) as u8, (u / 0x1_0000 % 0x100) as u8, (u / 0x100 % 0x100) as u8, (u % 0x100) as u8]
}

/// The type tag of an argument: `i` or `s`.
pub open spec fn type_tag(a: ReplyArg) -> u8 {
    match a {
        ReplyArg::Int(_) => 0x69,
        ReplyArg::Str(_) => 0x73,
    }
}

/// The data bytes of one argument.
pub open spec fn arg_bytes(a: ReplyArg) -> Seq<u8> {
    match a {
        ReplyArg::Int(x) => int32_be(x),
        ReplyArg::Str(s) => osc_string(encode_utf8(s@)),
    }
}

/// The data bytes of the arguments, in order.
pub open spec fn args_bytes(args: Seq<ReplyArg>) -> Seq<u8>
    decreases args.len(),
{
    if args.len() == 0 {
        Seq::empty()
    } else {
        args_bytes(args.drop_last()) + arg_bytes(args.last())
    }
}

/// The OSC 1.0 encoding of a message: the address as an OSC-string, the type
/// tag string (`,` then one tag per argument) as an OSC-string, then the
/// argument data.
pub open spec fn wire_bytes(addr: Seq<char>, args: Seq<ReplyArg>) -> Seq<u8> {
    osc_string(encode_utf8(addr)) + osc_string(seq![0x2cu8] + args.map_values(|a: ReplyArg| type_tag(a)))
        + args_bytes(args)
}

/// The datagram that carries a response.
pub open spec fn response_bytes(resp: BridgeResponse) -> Seq<u8> {
    wire_bytes(response_addr(resp), response_args(resp))
}

/// Convert a BridgeResponse into an OSC message for sending.
pub fn response_to_osc(response: &BridgeResponse) -> (r: Reply)
    ensures
        r.addr@ == response_addr(*response),
        r.args@ == response_args(*response),
{
    match response {
        BridgeResponse::SceneList(scenes) => {
            let mut args: Vec<ReplyArg> = Vec::new();
            let mut i: usize = 0;
            while i < scenes.len()
                invariant
                    i <= scenes.len(),
                    args@ == scenes@.take(i as int).map_values(|n: String| ReplyArg::Str(n)),
                decreases scenes.len() - i,
            {
                args.push(ReplyArg::Str(scenes[i].clone()));
                i = i + 1;
                assert(args@ =~= scenes@.take(i as int).map_values(|n: String| ReplyArg::Str(n)));
            }
            assert(scenes@.take(i as int) =~= scenes@);
            Reply { addr: String::from_str("/sceneListReturn"), args }
        },
        BridgeResponse::ActiveScene { index, name } => Reply {
            addr: String::from_str("/activeSceneReturn"),
            args: vec![ReplyArg::Int(*index as i32), ReplyArg::Str(name.clone())],
        },
        BridgeResponse::Status(s) => Reply {
            addr: String::from_str("/bridgeStatus"),
            args: vec![ReplyArg::Str(s.clone())],
        },
    }
}

/// Encodes a message with `rosc::encoder::encode`, after building the rosc
/// message argument for argument (`Int` as `OscType::Int`, `Str` as
/// `OscType::String`).
/// Trusted: the bytes are the OSC 1.0 layout that rosc's encoder writes for
/// such a message (NUL-padded address and type tag strings, int32
/// big-endian, NUL-padded UTF-8 strings), and the call never fails (rosc
/// writes into a `Vec`, which its source notes cannot fail).
#[verifier::external_body]
fn encode_reply(msg: &Reply) -> (r: Result<Vec<u8>, rosc::OscError>)
    ensures
        r is Ok,
        r matches Ok(b) ==> b@ == wire_bytes(msg.addr@, msg.args@),
{
    let args: Vec<rosc::OscType> = msg.args.iter().map(|a| match a {
        ReplyArg::Int(x) => rosc::OscType::Int(*x),
        ReplyArg::Str(s) => rosc::OscType::String(s.clone()),
    }).collect();
    rosc::encoder::encode(&rosc::OscPacket::Message(rosc::OscMessage { addr: msg.addr.clone(), args }))
}

/// The datagram to send for a response.
pub fn encode_response(response: &BridgeResponse) -> (r: Vec<u8>)
    ensures
        r@ == response_bytes(*response),
{
    let reply = response_to_osc(response);
    match encode_reply(&reply) {
        Ok(bytes) => bytes,
        Err(_) => Vec::new(),
    }
}

// ---------------------------------------------------------------------------
// Reply targets
// ---------------------------------------------------------------------------

/// An IP address, as its numeric value.
#[derive(Debug, Clone, Copy, PartialEq, Eq, Structural)]
pub enum IpAddress {
    V4(u32),
    V6(u128),
}

/// A socket address: an IP address with a port (and, for IPv6, the flow
/// information and scope id that take part in its equality).
#[derive(Debug, Clone, Copy, PartialEq, Eq, Structural)]
pub enum Endpoint {
    V4 { ip: u32, port: u16 },
    V6 { ip: u128, port: u16, flowinfo: u32, scope_id: u32 },
}

/// The socket address of `ip` on `port` (IPv6 with no flow information and
/// no scope id).
pub open spec fn endpoint_of(ip: IpAddress, port: u16) -> Endpoint {
    match ip {
        IpAddress::V4(a) => Endpoint::V4 { ip: a, port },
        IpAddress::V6(a) => Endpoint::V6 { ip: a, port, flowinfo: 0, scope_id: 0 },
    }
}

/// Where a response goes: always to the configured default address, and
/// also to the last client's IP on the send port when that is another
/// address.
pub open spec fn reply_destinations(
    default_addr: Endpoint,
    last_client: Option<IpAddress>,
    send_port: u16,
) -> Seq<Endpoint> {
    match last_client {
        Some(ip) => if endpoint_of(ip, send_port) != default_addr {
            seq![default_addr, endpoint_of(ip, send_port)]
        } else {
            seq![default_addr]
        },
        None => seq![default_addr],
    }
}

/// The addresses to send a response to, in order.
pub fn reply_targets(default_addr: Endpoint, last_client: Option<IpAddress>, send_port: u16) -> (r:
    Vec<Endpoint>)
    ensures
        r@ == reply_destinations(default_addr, last_client, send_port),
{
    let mut r: Vec<Endpoint> = Vec::new();
    r.push(default_addr);
    if let Some(ip) = last_client {
        let client = match ip {
            IpAddress::V4(a) => Endpoint::V4 { ip: a, port: send_port },
            IpAddress::V6(a) => Endpoint::V6 { ip: a, port: send_port, flowinfo: 0, scope_id: 0 },
        };
        if client != default_addr {
            r.push(client);
        }
    }
    r
}

// ---------------------------------------------------------------------------
// Service advertisement
// ---------------------------------------------------------------------------

/// The mDNS/DNS-SD record by which controllers discover the bridge.
#[derive(Debug, Clone)]
pub struct Advertisement {
    /// Service type (`_osc._udp.local.`).
    pub service_type: String,
    /// Instance name shown in the controller's browser (`osc-obs-bridge`).
    pub instance_name: String,
    /// Host name (the listen host under `.local.`).
    pub host_fqdn: String,
    /// Address(es) advertised for the host.
    pub address: String,
    /// The OSC listen port.
    pub port: u16,
    /// TXT record properties, as key and value.
    pub txt_properties: Vec<(String, String)>,
}

/// The TXT properties of an advertisement, by their views.
pub open spec fn txt_view(props: Seq<(String, String)>) -> Seq<(Seq<char>, Seq<char>)> {
    props.map_values(|p: (String, String)| (p.0@, p.1@))
}

/// The advertisement of the OSC service listening on `host:port`.
pub fn osc_advertisement(host: &str, port: u16) -> (r: Advertisement)
    ensures
        r.service_type@ == "_osc._udp.local."@,
        r.instance_name@ == "osc-obs-bridge"@,
        r.host_fqdn@ == host@ + ".local."@,
        r.address@ == host@,
        r.port == port,
        r.txt_properties@.len() == 0,
{
    Advertisement {
        service_type: String::from_str("_osc._udp.local."),
        instance_name: String::from_str("osc-obs-bridge"),
        host_fqdn: String::from_str(host).concat(".local."),
        address: String::from_str(host),
        port,
        txt_properties: Vec::new(),
    }
}

#[verifier::external_type_specification]
#[verifier::external_body]
pub struct ExServiceInfo(mdns_sd::ServiceInfo);

#[verifier::external_type_specification]
#[verifier::external_body]
pub struct ExMdnsError(mdns_sd::Error);

/// Whether `mdns_sd::ServiceInfo::new` accepts a record with this service
/// type, instance name, host name, address list, port and TXT properties
/// (it rejects an address list whose pieces do not all parse as IP
/// addresses, and TXT keys that are not printable ASCII, hold `=`, or make an
/// entry longer than 255 bytes).
pub uninterp spec fn mdns_record_accepted(
    service_type: Seq<char>,
    instance_name: Seq<char>,
    host_fqdn: Seq<char>,
    address: Seq<char>,
    port: u16,
    txt_properties: Seq<(Seq<char>, Seq<char>)>,
) -> bool;

/// Builds the service record with `mdns_sd::ServiceInfo::new`, handing it the
/// advertisement's service type, instance name, host name, address list,
/// port and TXT properties.
/// Trusted: the call succeeds exactly when `mdns_record_accepted` holds of
/// those arguments (success depends on them alone), and it succeeds when
/// the address list is empty and there are no TXT properties (the source
/// parses addresses only when there are any, and checks nothing else but
/// the properties). What the record holds is not stated: `ServiceInfo` is
/// opaque here.
#[verifier::external_body]
fn service_info(a: &Advertisement) -> (r: Result<mdns_sd::ServiceInfo, mdns_sd::Error>)
    ensures
        r is Ok <==> mdns_record_accepted(
            a.service_type@,
            a.instance_name@,
            a.host_fqdn@,
            a.address@,
            a.port,
            txt_view(a.txt_properties@),
        ),
        a.address@.len() == 0 && a.txt_properties@.len() == 0 ==> r is Ok,
{
    mdns_sd::ServiceInfo::new(
        a.service_type.as_str(),
        a.instance_name.as_str(),
        a.host_fqdn.as_str(),
        a.address.as_str(),
        a.port,
        a.txt_properties.as_slice(),
    )
}

/// The mDNS service record that advertises the OSC service on `host:port`,
/// built from `osc_advertisement(host, port)`: service type
/// `_osc._udp.local.`, instance `osc-obs-bridge`, host `{host}.local.`,
/// address `host`, the given port and no TXT properties. It succeeds exactly
/// when mdns-sd accepts that record, and always for an empty host.
pub fn advertised_service(host: &str, port: u16) -> (r: Result<mdns_sd::ServiceInfo, mdns_sd::Error>)
    ensures
        r is Ok <==> mdns_record_accepted(
            "_osc._udp.local."@,
            "osc-obs-bridge"@,
            host@ + ".local."@,
            host@,
            port,
            Seq::empty(),
        ),
        host@.len() == 0 ==> r is Ok,
{
    let ad = osc_advertisement(host, port);
    proof {
        assert(txt_view(ad.txt_properties@) =~= Seq::<(Seq<char>, Seq<char>)>::empty());
    }
    service_info(&ad)
}

} // verus!
