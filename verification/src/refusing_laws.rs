//! Why something cannot be sent: what is too long, too large or not allowed is
//! refused for that very reason.

use vstd::prelude::*;
use vstd::utf8::*;

use crate::device;
use crate::device::{AudioPlaybackState, DeviceRequestModel, DeviceResultModel};
use crate::device_request;
use crate::device_result;
use crate::error::ProtocolError;
use crate::failure::Failure;
use crate::frame;
use crate::leaf;
use crate::message::{FrameModel, MessageModel};
use crate::message_codec;
use crate::node;
use crate::prose;
use crate::screen;
use crate::shell::{ShellEventModel, ShellRequestModel};
use crate::store::{StoreError, StoreRequestModel, StoreResultModel};
use crate::store_codec;
use crate::task;
use crate::task::{TaskError, TaskId, TaskModel, TaskOutcomeModel};
use crate::task_codec;
use crate::ui::{NodeId, NodeModel, ScreenModel, TextLink};
use crate::wire;

verus! {

/// Whether sending a message fails for a reason, whatever its number.
pub open spec fn refused(message: MessageModel, reason: ProtocolError) -> bool {
    forall|request_id: u32|
        frame::encoded(#[trigger] numbered(request_id, message)) == Err::<Seq<u8>, ProtocolError>(
            reason,
        )
}

/// A message in a frame with a number.
pub open spec fn numbered(request_id: u32, message: MessageModel) -> FrameModel {
    FrameModel { request_id, message }
}

/// A text that is too long for a label and a body that is too long are refused as
/// such, and what would not fit in a frame any more as too large; what was refused
/// before stays refused for the same reason.
pub proof fn law_long_texts_are_refused(
    total: int,
    additional: int,
    text: Seq<char>,
    reason: ProtocolError,
)
    ensures
        wire::utf8_len(text) > 16_384 ==> wire::grown_text(Ok(total), text)->Err_0
            == ProtocolError::StringTooLarge,
        wire::utf8_len(text) > 4_194_304 ==> wire::grown_body(Ok(total), text)->Err_0
            == ProtocolError::StringTooLarge,
        total + additional > 8_388_608 ==> wire::grown(Ok(total), additional)->Err_0
            == ProtocolError::FrameTooLarge,
        total + additional <= 8_388_608 ==> wire::grown(Ok(total), additional) == Ok::<
            int,
            ProtocolError,
        >(total + additional),
        wire::grown(Err(reason), additional)->Err_0 == reason,
        wire::grown_text(Err(reason), text)->Err_0 == reason,
        wire::grown_body(Err(reason), text)->Err_0 == reason,
{
}

/// A name that is too long to say is refused wherever it is sent.
pub proof fn law_long_names_are_refused(name: Seq<char>, offset: u32, length: u32)
    requires
        wire::utf8_len(name) > 16_384,
    ensures
        refused(MessageModel::Hello { name }, ProtocolError::StringTooLarge),
        refused(MessageModel::Launch { name }, ProtocolError::StringTooLarge),
        refused(
            MessageModel::StoreRequest(StoreRequestModel::Load { key: name }),
            ProtocolError::StringTooLarge,
        ),
        refused(
            MessageModel::StoreRequest(StoreRequestModel::Forget { key: name }),
            ProtocolError::StringTooLarge,
        ),
        refused(
            MessageModel::StoreRequest(StoreRequestModel::ShelfRead { name, offset, length }),
            ProtocolError::StringTooLarge,
        ),
        refused(
            MessageModel::StoreRequest(StoreRequestModel::ShelfRemove { name }),
            ProtocolError::StringTooLarge,
        ),
        refused(
            MessageModel::StoreResult(StoreResultModel::Saved { key: name }),
            ProtocolError::StringTooLarge,
        ),
        refused(
            MessageModel::StoreResult(StoreResultModel::Forgotten { key: name }),
            ProtocolError::StringTooLarge,
        ),
        refused(
            MessageModel::StoreResult(StoreResultModel::ShelfWritten { name, size: length }),
            ProtocolError::StringTooLarge,
        ),
        refused(
            MessageModel::StoreResult(StoreResultModel::ShelfRemoved { name }),
            ProtocolError::StringTooLarge,
        ),
{
    reveal(message_codec::message_size);
    reveal(store_codec::request_size);
    reveal(store_codec::result_size);
}

/// A value, a piece of a blob or a piece of a terminal's text that is too large is
/// refused as such, and so are lists that are too long.
pub proof fn law_large_values_are_refused(
    key: Seq<char>,
    bytes: Seq<u8>,
    offset: u32,
    last: bool,
    task: TaskId,
    keys: Seq<Seq<char>>,
    blobs: Seq<(Seq<char>, u32)>,
)
    ensures
        bytes.len() > 262_144 ==> {
            &&& refused(
                MessageModel::StoreRequest(StoreRequestModel::Save { key, value: bytes }),
                ProtocolError::FrameTooLarge,
            )
            &&& refused(
                MessageModel::StoreRequest(
                    StoreRequestModel::ShelfWrite { name: key, offset, bytes, last },
                ),
                ProtocolError::FrameTooLarge,
            )
            &&& refused(
                MessageModel::StoreResult(
                    StoreResultModel::ShelfRead { name: key, offset, bytes, size: offset },
                ),
                ProtocolError::FrameTooLarge,
            )
        },
        bytes.len() > 4_096 ==> {
            &&& refused(
                MessageModel::ShellRequest(ShellRequestModel::Input(bytes)),
                ProtocolError::FrameTooLarge,
            )
            &&& refused(
                MessageModel::ShellEvent(ShellEventModel::Output(bytes)),
                ProtocolError::FrameTooLarge,
            )
        },
        bytes.len() > 4_194_304 ==> refused(
            MessageModel::TaskOutcome { task, outcome: TaskOutcomeModel::Completed(bytes) },
            ProtocolError::FrameTooLarge,
        ),
        keys.len() > 320 ==> refused(
            MessageModel::StoreResult(StoreResultModel::Keys(keys)),
            ProtocolError::FrameTooLarge,
        ),
        blobs.len() > 256 ==> refused(
            MessageModel::StoreResult(StoreResultModel::Shelf(blobs)),
            ProtocolError::FrameTooLarge,
        ),
{
    reveal(message_codec::message_size);
    reveal(store_codec::request_size);
    reveal(store_codec::result_size);
}

/// Work with headers that are too many or not allowed is refused for them, and
/// otherwise for a credential that cannot be used.
pub proof fn law_disallowed_work_is_refused(
    task: TaskId,
    url: Seq<char>,
    offset: u32,
    max_bytes: u32,
    credential: Option<task::CredentialModel>,
    headers: Seq<task::HeaderModel>,
)
    ensures
        headers.len() > 8 || !task::headers_ok(headers) ==> refused(
            MessageModel::Spawn {
                task,
                work: TaskModel::Fetch { url, offset, max_bytes, credential, headers },
            },
            ProtocolError::InvalidValue("request header"),
        ),
        headers.len() <= 8 && task::headers_ok(headers) && (credential matches Some(inner)
            && !task::credential_ok(inner)) ==> refused(
            MessageModel::Spawn {
                task,
                work: TaskModel::Fetch { url, offset, max_bytes, credential, headers },
            },
            ProtocolError::InvalidValue("credential"),
        ),
{
    reveal(message_codec::message_size);
    reveal(task_codec::task_size);
}

/// What is asked of the device is refused by the part that is not allowed.
pub proof fn law_disallowed_requests_are_refused(
    address: Seq<char>,
    password: Seq<char>,
    percent: u8,
    url: Seq<char>,
    sha256: Seq<char>,
    id: Seq<char>,
    word: Seq<char>,
    language: Option<Seq<char>>,
)
    ensures
        wire::utf8_len(address) > 96 ==> {
            &&& device_request::device_request_refusal(
                DeviceRequestModel::PairBluetooth { address },
            ) == Some(ProtocolError::InvalidValue("radio string"))
            &&& device_request::device_request_refusal(
                DeviceRequestModel::ConnectBluetooth { address },
            ) == Some(ProtocolError::InvalidValue("radio string"))
            &&& device_request::device_request_refusal(
                DeviceRequestModel::DisconnectBluetooth { address },
            ) == Some(ProtocolError::InvalidValue("radio string"))
            &&& device_request::device_request_refusal(
                DeviceRequestModel::ForgetBluetooth { address },
            ) == Some(ProtocolError::InvalidValue("radio string"))
        },
        !device::wifi_credentials_ok(address, password) ==> device_request::device_request_refusal(
            DeviceRequestModel::JoinWifi { ssid: address, password },
        ) == Some(ProtocolError::InvalidValue("Wi-Fi credentials")),
        percent > 100 ==> device_request::device_request_refusal(
            DeviceRequestModel::SetAudioVolume { percent },
        ) == Some(ProtocolError::InvalidValue("audio volume")),
        !device::secure_address(url) ==> device_request::device_request_refusal(
            DeviceRequestModel::Update { url, sha256 },
        ) == Some(ProtocolError::InvalidValue("update url")),
        device::secure_address(url) && !device::digest_ok(sha256)
            ==> device_request::device_request_refusal(
            DeviceRequestModel::Update { url, sha256 },
        ) == Some(ProtocolError::InvalidValue("update digest")),
        !device::app_id_ok(id) ==> device_request::device_request_refusal(
            DeviceRequestModel::InstallApp { id },
        ) == Some(ProtocolError::InvalidValue("application id")),
        !device::app_id_ok(id) ==> device_request::device_request_refusal(
            DeviceRequestModel::UninstallApp { id },
        ) == Some(ProtocolError::InvalidValue("application id")),
        !device::lookup_ok(word, language) ==> device_request::device_request_refusal(
            DeviceRequestModel::LookupWord { word, language },
        ) == Some(ProtocolError::InvalidValue("dictionary lookup")),
{
    reveal(device_request::device_request_refusal);
}

/// A request of the device that is refused is refused as a message for the same
/// reason.
pub proof fn law_refused_requests_are_not_sent(request: DeviceRequestModel)
    ensures
        device_request::device_request_refusal(request) matches Some(reason) ==> refused(
            MessageModel::DeviceRequest(request),
            reason,
        ),
{
    reveal(message_codec::message_size);
}

/// What the device answers is refused by the part that is not allowed.
pub proof fn law_disallowed_results_are_refused(
    available: bool,
    enabled: bool,
    devices: Seq<device::BluetoothDeviceModel>,
    networks: Seq<device::WifiNetworkModel>,
    connected_ssid: Option<Seq<char>>,
    state: AudioPlaybackState,
    position_ms: u32,
    duration_ms: u32,
    volume: u8,
    applications: Seq<device::AppInfoModel>,
    word: Seq<char>,
    entries: Seq<device::DictionaryEntryModel>,
    link: device::AppLinkStateModel,
)
    ensures
        devices.len() > 32 ==> device_result::device_result_refusal(
            DeviceResultModel::Bluetooth { available, enabled, devices, restart_on_exit: false },
        ) == Some(ProtocolError::InvalidValue("too many Bluetooth devices")),
        networks.len() > 32 ==> device_result::device_result_refusal(
            DeviceResultModel::Wifi { available, enabled, connected_ssid, networks },
        ) == Some(ProtocolError::InvalidValue("too many Wi-Fi networks")),
        volume > 100 ==> device_result::device_result_refusal(
            DeviceResultModel::Audio { available, state, position_ms, duration_ms, volume },
        ) == Some(ProtocolError::InvalidValue("audio volume")),
        applications.len() > 128 ==> device_result::device_result_refusal(
            DeviceResultModel::Apps { entries: applications },
        ) == Some(ProtocolError::InvalidValue("too many applications")),
        !device::lookup_ok(word, None) ==> device_result::device_result_refusal(
            DeviceResultModel::Dictionary { word, entries },
        ) == Some(ProtocolError::InvalidValue("dictionary lookup")),
        device::lookup_ok(word, None) && entries.len() > 8 ==> device_result::device_result_refusal(
            DeviceResultModel::Dictionary { word, entries },
        ) == Some(ProtocolError::InvalidValue("too many dictionary entries")),
        !device::app_link_ok(link) ==> device_result::device_result_refusal(
            DeviceResultModel::AppLink(link),
        ) == Some(ProtocolError::InvalidValue("application link")),
{
    reveal(device_result::device_result_refusal);
}

/// A node that lists more than can be counted, a tree that is too deep and one
/// that has too many nodes are refused as such.
pub proof fn law_crowded_nodes_are_refused(node: NodeModel, depth: int, count: int)
    ensures
        depth > 16 ==> node::size_node(node, depth, count)->Err_0 == ProtocolError::TooDeep,
        depth <= 16 && count >= 512 ==> node::size_node(node, depth, count)->Err_0
            == ProtocolError::TooManyNodes,
        node matches NodeModel::Grid { cells, .. } && cells.len() > 255 ==> leaf::leaf_grown(
            node,
        )->Err_0 == ProtocolError::TooManyNodes,
        node matches NodeModel::Rows { rows, .. } && rows.len() > 255 ==> leaf::leaf_grown(
            node,
        )->Err_0 == ProtocolError::TooManyNodes,
        node matches NodeModel::TileGrid { tiles, .. } && tiles.len() > 255 ==> leaf::leaf_grown(
            node,
        )->Err_0 == ProtocolError::TooManyNodes,
        node matches NodeModel::Choice { options, .. } && options.len() > 255 ==> leaf::leaf_grown(
            node,
        )->Err_0 == ProtocolError::TooManyNodes,
        node matches NodeModel::PagedList { items, .. } && items.len() > 512 ==> leaf::leaf_grown(
            node,
        )->Err_0 == ProtocolError::TooManyNodes,
        node matches NodeModel::Terminal { rows, .. } && rows.len() > 64 ==> leaf::leaf_grown(
            node,
        )->Err_0 == ProtocolError::TooManyNodes,
        node matches NodeModel::RichText { spans, .. } && spans.len() > 256 ==> leaf::leaf_grown(
            node,
        )->Err_0 == ProtocolError::TooManyNodes,
        node matches NodeModel::RichText { text, spans, .. } && !prose::spans_land(spans, text)
            ==> leaf::leaf_refusal(node) == Some(ProtocolError::InvalidValue("rich text span")),
        node matches NodeModel::RichText { text, spans, formulae, .. } && prose::spans_land(
            spans,
            text,
        ) && formulae.len() <= 32 && !prose::formulae_land(formulae, text) ==> leaf::leaf_refusal(
            node,
        ) == Some(ProtocolError::InvalidValue("inline formula")),
{
    reveal(leaf::leaf_grown);
}

/// A run of nodes is refused exactly when one of them is, for what the first of
/// those is refused for.
pub proof fn law_one_refused_node_refuses_a_run(nodes: Seq<NodeModel>, i: int)
    requires
        0 <= i < nodes.len(),
        forall|j: int| 0 <= j < i ==> node::node_refusal(#[trigger] nodes[j]) is None,
    ensures
        node::node_refusal(nodes[i]) is Some ==> node::nodes_refusal(nodes) == node::node_refusal(
            nodes[i],
        ),
        node::node_refusal(nodes[i]) is None && i == nodes.len() - 1 ==> node::nodes_refusal(nodes)
            is None,
    decreases nodes.len(),
{
    reveal_with_fuel(node::nodes_refusal, 2);
    if i > 0 {
        let rest = nodes.skip(1);
        assert(node::node_refusal(nodes[0]) is None);
        assert forall|j: int| 0 <= j < i - 1 implies node::node_refusal(#[trigger] rest[j]) is None by {
            assert(rest[j] == nodes[j + 1]);
        }
        assert(rest[i - 1] == nodes[i]);
        law_one_refused_node_refuses_a_run(rest, i - 1);
    } else if nodes.len() == 1 {
        assert(nodes.skip(1).len() == 0);
    }
}

/// A card is refused for its children, a screen for its bar, then for its nodes
/// and then for what lies over it, and for nothing else.
pub proof fn law_screens_are_refused_for_their_parts(screen: ScreenModel, id: NodeId)
    ensures
        node::node_refusal(NodeModel::Card { id, children: screen.nodes }) == node::nodes_refusal(
            screen.nodes,
        ),
        screen.nav_bar matches Some(bar) && bar.destinations.len() < 2
            ==> screen::screen_refusal(screen) == Some(
            ProtocolError::InvalidValue("nav bar destinations"),
        ),
        screen.nav_bar is None && node::nodes_refusal(screen.nodes) is Some
            ==> screen::screen_refusal(screen) == node::nodes_refusal(screen.nodes),
        screen.nav_bar is None && node::nodes_refusal(screen.nodes) is None && (
        screen.overlay matches Some(overlay) && node::nodes_refusal(overlay.nodes) is Some)
            ==> screen::screen_refusal(screen) == node::nodes_refusal(screen.overlay->0.nodes),
        screen.nav_bar is None && node::nodes_refusal(screen.nodes) is None && screen.overlay
            is None ==> screen::screen_refusal(screen) is None,
        screen.nav_bar matches Some(bar) && bar.destinations.len() >= 2 && (bar.selected is None
            || bar.selected->0 <= 255) && node::nodes_refusal(screen.nodes) is None && screen.overlay
            is None ==> screen::screen_refusal(screen) is None,
{
}

proof fn lemma_the_end_is_a_boundary(bytes: Seq<u8>)
    requires
        valid_utf8(bytes),
    ensures
        is_char_boundary(bytes, bytes.len() as int),
    decreases bytes.len(),
{
    if bytes.len() > 0 {
        let rest = pop_first_scalar(bytes);
        assert(rest.len() == bytes.len() - length_of_first_scalar(bytes));
        lemma_the_end_is_a_boundary(rest);
    }
}

/// A run of a text has letters in it and lies within the text, and the whole of a
/// text that says something is one.
pub proof fn law_runs_have_letters(text: Seq<char>, start: int, end: int)
    ensures
        prose::is_run(text, start, end) ==> start < end <= wire::utf8_len(text),
        text.len() > 0 ==> prose::is_run(text, 0, wire::utf8_len(text)),
{
    wire::lemma_nonempty(text);
    encode_utf8_valid_utf8(text);
    lemma_the_end_is_a_boundary(encode_utf8(text));
}

/// The links that are kept over a text are those that run over whole letters of
/// it, and every one of those.
pub proof fn law_kept_links_are_those_that_land(
    links: Seq<TextLink>,
    text: Seq<char>,
    link: TextLink,
)
    ensures
        prose::landed_links(links, text).contains(link) ==> prose::is_run(
            text,
            link.start as int,
            link.end as int,
        ),
        links.contains(link) && prose::is_run(text, link.start as int, link.end as int)
            ==> prose::landed_links(links, text).contains(link),
        prose::landed_links(links, text).len() <= links.len(),
{
    let lands = prose::link_lands(text);
    links.filter_lemma(lands);
    let kept = links.filter(lands);
    if kept.contains(link) {
        let i = choose|i: int| 0 <= i < kept.len() && kept[i] == link;
        assert(lands(kept[i]));
    }
    if links.contains(link) && prose::is_run(text, link.start as int, link.end as int) {
        let i = choose|i: int| 0 <= i < links.len() && links[i] == link;
        assert(lands(links[i]));
        assert(kept.contains(links[i]));
    }
}

/// The advice after a failed task says what happened to it and what would help.
pub proof fn law_failed_tasks_are_advised_on(error: TaskError, failure: Failure)
    requires
        call_ensures(Failure::of, (error,), failure),
    ensures
        failure.advice@ == (match error {
            TaskError::Offline => "This reader is not on a network. Join Wi-Fi and try again.",
            TaskError::Unreachable => "The service did not answer. It may be down.",
            TaskError::TimedOut => "The network was too slow to answer.",
            TaskError::Denied => "This application is not allowed to do that.",
            TaskError::Unauthorized => "This service will not answer without an account.",
            TaskError::NoCredential =>
                "This reader has no API key for that service. Install one with kobo secret set.",
            TaskError::TooLarge => "The reply was too large to read on this device.",
            TaskError::NotFound => "The service had nothing to return.",
            TaskError::LocalStorage => "This reader could not remove the local sign-in data.",
            TaskError::RevocationUnconfirmed =>
                "Signed out here, but BOMTOON did not confirm remote sign-out.",
        })@,
{
}

/// The advice after a refused write says why it was refused, and is the same for
/// both ways in which there is no room.
pub proof fn law_refused_writes_are_advised_on(error: StoreError, failure: Failure)
    requires
        call_ensures(Failure::storing, (error,), failure),
    ensures
        failure.advice@ == (match error {
            StoreError::NoRoom | StoreError::TooFull =>
                "There is not enough room left on this reader. Delete something and try again.",
            StoreError::Unwritable => "This reader would not save the file.",
            StoreError::Missing => "That file is no longer on this reader.",
            StoreError::BadKey =>
                "This application asked for a file name the reader will not accept.",
        })@,
{
}

} // verus!
