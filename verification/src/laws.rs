//! Properties of the bridge that span several of its functions.

use vstd::prelude::*;
use crate::bridge::{osc_status_word, AppStatus, BridgeCommand, BridgeResponse};
use crate::text::{has_substring, occurs_at};
use crate::tray::{status_color, IconColor};
use crate::obs::{
    active_scene_announcement, current_scene_name, has_scene, is_command_outcome,
    is_first_position, mentions_connection_loss, poll_pushes, same_names, scene_position,
    CommandOutcome,
};
use crate::osc::{
    endpoint_of, message_command, packet_commands, reply_destinations, DecodedMessage,
    DecodedPacket, Endpoint, IpAddress,
    arg_bytes, args_bytes, int32_be, osc_string, response_addr, response_args,
    response_bytes, zero_bytes,
};

verus! {

/// No two scenes in the list share a name.
pub open spec fn distinct_names(names: Seq<String>) -> bool {
    forall|i: int, j: int| 0 <= i < names.len() && 0 <= j < names.len() && i != j ==> names[i]@
        != names[j]@
}

/// In a list of distinct scene names, the position reported for a listed
/// scene is its 0-based place in the list.
pub proof fn law_reported_position_of_listed_scene(names: Seq<String>, k: int)
    requires
        distinct_names(names),
        0 <= k < names.len(),
    ensures
        scene_position(names, names[k]@) == k,
{
    assert(is_first_position(names, names[k]@, k));
    let c = choose|i: int| is_first_position(names, names[k]@, i);
    assert(is_first_position(names, names[k]@, c));
    if c != k {
        if c < k {
        } else {
            assert(names[k]@ != names[k]@);
        }
    }
}

/// Switching by a 1-based index `idx` switches to the scene at place
/// `idx - 1`, and the `/activeSceneReturn` that announces that scene reports
/// the 0-based index `idx - 1` (for a list of distinct names).
pub proof fn law_switch_by_index_is_announced_at_that_index(
    names: Seq<String>,
    idx: i32,
    current: Option<String>,
    out: CommandOutcome,
)
    requires
        distinct_names(names),
        1 <= idx <= names.len(),
        is_command_outcome(BridgeCommand::SetSceneByIndex(idx), names, current, out),
    ensures
        out == CommandOutcome::SwitchTo(names[idx - 1]),
        active_scene_announcement(Some(names), names[idx - 1]) matches BridgeResponse::ActiveScene {
            index,
            name,
        } && index == (idx - 1) as usize && name == names[idx - 1],
{
    law_reported_position_of_listed_scene(names, idx - 1);
}

/// Asking for a listed scene by its name and by its 1-based index gives the
/// same outcome: a switch to that scene.
pub proof fn law_name_and_index_select_the_same_scene(
    names: Seq<String>,
    idx: i32,
    current: Option<String>,
    by_index: CommandOutcome,
    by_name: CommandOutcome,
)
    requires
        1 <= idx <= names.len(),
        is_command_outcome(BridgeCommand::SetSceneByIndex(idx), names, current, by_index),
        is_command_outcome(
            BridgeCommand::SetSceneByName(names[idx - 1]),
            names,
            current,
            by_name,
        ),
    ensures
        by_index == by_name,
        by_name == CommandOutcome::SwitchTo(names[idx - 1]),
{
    assert(has_scene(names, names[idx - 1]@)) by {
        assert(0 <= idx - 1 < names.len() && names[idx - 1]@ == names[idx - 1]@);
    }
}

/// A poll that finds the list that is already known (same length, same name
/// at every position) sends nothing; in particular a poll right after a poll
/// or a push of the same list is silent.
pub proof fn law_poll_of_known_list_is_silent(known: Seq<String>, found: Seq<String>)
    requires
        known.len() == found.len(),
        forall|i: int| 0 <= i < known.len() ==> known[i]@ == found[i]@,
    ensures
        !poll_pushes(known, found),
        same_names(known, found),
{
}

/// A poll that finds a list differing from a known, non-empty list in its
/// length or in the name at any one position (a scene added, removed,
/// renamed or moved) pushes the found list, and the found list is then the
/// known one.
pub proof fn law_poll_pushes_any_change(known: Seq<String>, found: Seq<String>, i: int)
    requires
        known.len() > 0,
        known.len() != found.len() || (0 <= i < known.len() && known[i]@ != found[i]@),
    ensures
        poll_pushes(known, found),
        !same_names(known, found),
{
}

/// The first poll, when no list is known yet, sends nothing.
pub proof fn law_first_poll_is_silent(found: Seq<String>)
    ensures
        !poll_pushes(Seq::empty(), found),
{
}

proof fn lemma_osc_string_aligned(b: Seq<u8>)
    ensures
        osc_string(b).len() % 4 == 0,
        osc_string(b).len() > b.len(),
{
    assert(zero_bytes((4 - b.len() % 4) as nat).len() == 4 - b.len() % 4);
}

proof fn lemma_args_bytes_aligned(args: Seq<crate::osc::ReplyArg>)
    ensures
        args_bytes(args).len() % 4 == 0,
    decreases args.len(),
{
    if args.len() > 0 {
        lemma_args_bytes_aligned(args.drop_last());
        match args.last() {
            crate::osc::ReplyArg::Int(x) => {
                assert(int32_be(x).len() == 4);
            },
            crate::osc::ReplyArg::Str(s) => {
                lemma_osc_string_aligned(vstd::utf8::encode_utf8(s@));
            },
        }
        assert(arg_bytes(args.last()).len() % 4 == 0);
    }
}

/// Every datagram the bridge sends is a whole number of 32-bit words, as
/// OSC 1.0 requires of a packet.
pub proof fn law_datagram_is_word_aligned(resp: BridgeResponse)
    ensures
        response_bytes(resp).len() % 4 == 0,
{
    lemma_osc_string_aligned(vstd::utf8::encode_utf8(response_addr(resp)));
    lemma_osc_string_aligned(
        seq![0x2cu8] + response_args(resp).map_values(|a: crate::osc::ReplyArg| crate::osc::type_tag(a)),
    );
    lemma_args_bytes_aligned(response_args(resp));
}

/// A password rejected by OBS because none is set is reported to the
/// controller as `obs_password_not_set` and shown with the red tray dot.
pub proof fn law_missing_password_is_reported(status: AppStatus)
    requires
        status matches AppStatus::Error(m) && m@ == "OBS password not set"@,
    ensures
        osc_status_word(status) == "obs_password_not_set"@,
        status_color(status) == IconColor::Red,
{
    let m = status->Error_0;
    reveal_strlit("OBS password not set");
    reveal_strlit("password not set");
    assert(m@.subrange(4, 20) =~= "password not set"@);
    assert(occurs_at(m@, "password not set"@, 4));
}

/// A password rejected by OBS as wrong is reported to the controller as
/// `obs_password_incorrect` and shown with the red tray dot.
pub proof fn law_wrong_password_is_reported(status: AppStatus)
    requires
        status matches AppStatus::Error(m) && m@ == "OBS password incorrect"@,
    ensures
        osc_status_word(status) == "obs_password_incorrect"@,
        status_color(status) == IconColor::Red,
{
    let m = status->Error_0;
    reveal_strlit("OBS password incorrect");
    reveal_strlit("password incorrect");
    reveal_strlit("password not set");
    assert(m@.subrange(4, 22) =~= "password incorrect"@);
    assert(occurs_at(m@, "password incorrect"@, 4));
    assert forall|i: int| !occurs_at(m@, "password not set"@, i) by {
        if occurs_at(m@, "password not set"@, i) {
            assert(m@.subrange(i, i + 16)[0] == "password not set"@[0]);
            if i == 4 {
                assert(m@.subrange(i, i + 16)[9] == "password not set"@[9]);
            }
        }
    }
    assert(!has_substring(m@, "password not set"@));
}

/// Every message addressed `/sceneList` asks for the scene list, and every
/// message addressed `/activeScene` for the active scene, whatever its
/// arguments (TouchOSC buttons send a value with them); a datagram holding
/// such a message yields exactly that command.
pub proof fn law_requests_ignore_arguments(msg: DecodedMessage)
    ensures
        msg.addr@ == "/sceneList"@ ==> message_command(msg) == Some(BridgeCommand::GetSceneList),
        msg.addr@ == "/sceneList"@ ==> packet_commands(DecodedPacket::Message(msg)) == seq![
            BridgeCommand::GetSceneList,
        ],
        msg.addr@ == "/activeScene"@ ==> message_command(msg) == Some(
            BridgeCommand::GetActiveScene,
        ),
        msg.addr@ == "/activeScene"@ ==> packet_commands(DecodedPacket::Message(msg)) == seq![
            BridgeCommand::GetActiveScene,
        ],
{
    reveal_strlit("/sceneList");
    reveal_strlit("/activeScene");
    if msg.addr@ == "/activeScene"@ {
        assert("/activeScene"@[1] != "/sceneList"@[1]);
        assert(msg.addr@ != "/sceneList"@);
    }
}

/// The active scene is reported with the 0-based place of its first
/// occurrence in the scene list (its place, when names are distinct), and
/// with index 0 when it is not listed.
pub proof fn law_active_scene_index_is_its_place(
    names: Seq<String>,
    current: String,
    k: int,
    out: CommandOutcome,
)
    requires
        is_command_outcome(BridgeCommand::GetActiveScene, names, Some(current), out),
        0 <= k < names.len(),
        names[k]@ == current@,
        forall|j: int| 0 <= j < k ==> names[j]@ != current@,
    ensures
        out matches CommandOutcome::Respond(BridgeResponse::ActiveScene { index, name }) && index
            == k as usize && name@ == current@,
        active_scene_announcement(Some(names), current) matches BridgeResponse::ActiveScene {
            index,
            name,
        } && index == k as usize && name == current,
{
    assert(is_first_position(names, current@, k));
    let c = choose|i: int| is_first_position(names, current@, i);
    assert(is_first_position(names, current@, c));
    if c < k {
    } else if c > k {
    }
}

/// An active scene that is not in the list is reported at index 0.
pub proof fn law_unlisted_active_scene_is_at_zero(
    names: Seq<String>,
    current: String,
    out: CommandOutcome,
)
    requires
        is_command_outcome(BridgeCommand::GetActiveScene, names, Some(current), out),
        forall|j: int| 0 <= j < names.len() ==> names[j]@ != current@,
    ensures
        out matches CommandOutcome::Respond(BridgeResponse::ActiveScene { index, name }) && index
            == 0 && name@ == current@,
{
    assert(!exists|i: int| is_first_position(names, current@, i));
}

/// A reply always goes to the configured address first; a client whose
/// address (on the send port) is another one gets it too, right after,
/// whatever kind of address the configured one is; a client at the
/// configured address, or no client, adds nothing.
pub proof fn law_reply_reaches_the_client(default_addr: Endpoint, ip: IpAddress, send_port: u16)
    ensures
        reply_destinations(default_addr, None, send_port) == seq![default_addr],
        ip matches IpAddress::V4(a) ==> ((Endpoint::V4 { ip: a, port: send_port }) != default_addr
            ==> reply_destinations(default_addr, Some(ip), send_port) == seq![
            default_addr,
            (Endpoint::V4 { ip: a, port: send_port }),
        ]),
        ip matches IpAddress::V6(a) ==> ((Endpoint::V6 { ip: a, port: send_port, flowinfo: 0, scope_id: 0 })
            != default_addr ==> reply_destinations(default_addr, Some(ip), send_port) == seq![
            default_addr,
            (Endpoint::V6 { ip: a, port: send_port, flowinfo: 0, scope_id: 0 }),
        ]),
        ip matches IpAddress::V4(a) ==> ((Endpoint::V4 { ip: a, port: send_port }) == default_addr
            ==> reply_destinations(default_addr, Some(ip), send_port) == seq![default_addr]),
        ip matches IpAddress::V6(a) ==> ((Endpoint::V6 { ip: a, port: send_port, flowinfo: 0, scope_id: 0 })
            == default_addr ==> reply_destinations(default_addr, Some(ip), send_port) == seq![
            default_addr,
        ]),
{
}

/// The connection-loss test reads the whole text: a marker anywhere in it,
/// on any line, counts.
pub proof fn law_connection_markers_count_anywhere(lower: Seq<char>, i: int)
    ensures
        occurs_at(lower, "disconnect"@, i) ==> mentions_connection_loss(lower),
        occurs_at(lower, "connection"@, i) ==> mentions_connection_loss(lower),
        occurs_at(lower, "websocket"@, i) ==> mentions_connection_loss(lower),
        occurs_at(lower, "closed"@, i) ==> mentions_connection_loss(lower),
        occurs_at(lower, "broken pipe"@, i) ==> mentions_connection_loss(lower),
{
}

} // verus!
