//! Which requests and answers about the device can be sent, and which of them
//! arrive as they were.

use vstd::prelude::*;

use crate::device;
use crate::device::{
    AudioSourceModel,
    DeviceRequestModel,
    DeviceResultModel,
    RemoteInstallOutcomeModel,
};
use crate::device_request;
use crate::device_result;
use crate::message::MessageModel;
use crate::message_codec;
use crate::sending;
use crate::store;
use crate::wire;

verus! {

/// A request to the device can be sent exactly when what it names can be named:
/// a radio in up to 96 bytes, a network with a passphrase that one takes, a
/// recording that is a key or a secure address, a volume up to all of it, an
/// update with a digest, an application by its identity, a word that can be
/// looked up. Whatever names nothing is always sent.
pub proof fn law_device_requests_are_sent(request_id: u32, request: DeviceRequestModel)
    ensures
        ({
            let sent = sending::posted(request_id, MessageModel::DeviceRequest(request)) is Ok;
            match request {
                DeviceRequestModel::PairBluetooth { address } => sent <==> wire::utf8_len(address)
                    <= 96,
                DeviceRequestModel::ConnectBluetooth { address } => sent <==> wire::utf8_len(
                    address,
                ) <= 96,
                DeviceRequestModel::DisconnectBluetooth { address } => sent <==> wire::utf8_len(
                    address,
                ) <= 96,
                DeviceRequestModel::ForgetBluetooth { address } => sent <==> wire::utf8_len(address)
                    <= 96,
                DeviceRequestModel::JoinWifi { ssid, password } => sent <==> 1 <= wire::utf8_len(
                    ssid,
                ) <= 32 && (wire::utf8_len(password) == 0 || 8 <= wire::utf8_len(password) <= 63),
                DeviceRequestModel::LoadAudio { source } => sent <==> match source {
                    AudioSourceModel::Shelf(name) => store::key_ok(name),
                    AudioSourceModel::Stream(url) => device::secure_address(url),
                },
                DeviceRequestModel::SetAudioVolume { percent } => sent <==> percent <= 100,
                DeviceRequestModel::Update { url, sha256 } => sent <==> device::secure_address(url)
                    && device::digest_ok(sha256),
                DeviceRequestModel::InstallApp { id } => sent <==> device::app_id_ok(id),
                DeviceRequestModel::UninstallApp { id } => sent <==> device::app_id_ok(id),
                DeviceRequestModel::LookupWord { word, language } => sent <==> device::lookup_ok(
                    word,
                    language,
                ),
                _ => sent,
            }
        }),
{
    reveal(message_codec::message_size);
    reveal(device_request::device_request_refusal);
}

/// An answer of the device can be sent up to the last peer, network, application
/// and definition that fit in one, each of which can itself be named and shown.
pub proof fn law_device_results_are_sent(request_id: u32, result: DeviceResultModel)
    ensures
        ({
            let sent = sending::posted(request_id, MessageModel::DeviceResult(result)) is Ok;
            match result {
                DeviceResultModel::Bluetooth { available, enabled, devices, restart_on_exit } =>
                    sent <==> devices.len() <= 32 && forall|i: int|
                    0 <= i < devices.len() ==> wire::utf8_len((#[trigger] devices[i]).address) <= 96
                        && wire::utf8_len(devices[i].name) <= 96,
                DeviceResultModel::Wifi { available, enabled, connected_ssid, networks } => sent
                    <==> networks.len() <= 32 && (connected_ssid is Some ==> 1 <= wire::utf8_len(
                    connected_ssid->0,
                ) <= 32) && forall|i: int|
                    0 <= i < networks.len() ==> 1 <= wire::utf8_len((#[trigger] networks[i]).ssid)
                        <= 32,
                DeviceResultModel::Audio {
                    available,
                    state,
                    position_ms,
                    duration_ms,
                    volume,
                } => sent <==> volume <= 100,
                DeviceResultModel::Apps { entries } => sent <==> entries.len() <= 128
                    && forall|i: int|
                    0 <= i < entries.len() ==> device::app_info_ok(#[trigger] entries[i]),
                DeviceResultModel::Dictionary { word, entries } => sent <==> device::lookup_ok(
                    word,
                    None,
                ) && entries.len() <= 8 && forall|i: int|
                    0 <= i < entries.len() ==> device::dictionary_entry_ok(#[trigger] entries[i]),
                DeviceResultModel::AppLink(state) => sent <==> device::app_link_ok(state),
                DeviceResultModel::RemoteInstall(outcome) => sent <==> match outcome {
                    RemoteInstallOutcomeModel::Nothing => true,
                    RemoteInstallOutcomeModel::Installed { id } => device::app_id_ok(id),
                    RemoteInstallOutcomeModel::Updated { id } => device::app_id_ok(id),
                    RemoteInstallOutcomeModel::AlreadyInstalled { id } => device::app_id_ok(id),
                    RemoteInstallOutcomeModel::Included { id } => device::app_id_ok(id),
                    RemoteInstallOutcomeModel::Unavailable { id } => device::app_id_ok(id),
                },
                DeviceResultModel::BatteryDetail(detail) => sent <==> (detail.status is Some
                    ==> sending::short(detail.status->0)) && (detail.health is Some
                    ==> sending::short(detail.health->0)) && (detail.technology is Some
                    ==> sending::short(detail.technology->0)),
                _ => sent,
            }
        }),
{
    reveal(message_codec::message_size);
    reveal(device_result::device_result_refusal);
    match result {
        DeviceResultModel::Bluetooth { available, enabled, devices, restart_on_exit } => {
            if forall|i: int|
                0 <= i < devices.len() ==> wire::utf8_len((#[trigger] devices[i]).address) <= 96
                    && wire::utf8_len(devices[i].name) <= 96 {
                assert(device_result::devices_ok_spec(devices));
            }
            if device_result::devices_ok_spec(devices) {
                assert forall|i: int| 0 <= i < devices.len() implies wire::utf8_len(
                    (#[trigger] devices[i]).address,
                ) <= 96 && wire::utf8_len(devices[i].name) <= 96 by {
                    assert(device_result::device_ok(devices[i]));
                }
            }
        },
        DeviceResultModel::Wifi { available, enabled, connected_ssid, networks } => {
            if device_result::networks_ok_spec(networks) {
                assert forall|i: int| 0 <= i < networks.len() implies 1 <= wire::utf8_len(
                    (#[trigger] networks[i]).ssid,
                ) <= 32 by {
                    assert(device_result::network_ok(networks[i]));
                }
            }
        },
        _ => {},
    }
}

/// A request or an answer says nothing that reading would refuse, but for a share
/// of more than all and a place past the end of what is playing.
pub proof fn law_device_messages_arrive(request: DeviceRequestModel, result: DeviceResultModel)
    ensures
        device_request::device_request_faithful(request) <==> !(request is SetFrontlight)
            || request->SetFrontlight_percent <= 100,
        device_result::device_result_faithful(result) <==> match result {
            DeviceResultModel::Battery { percent, charging } => percent <= 100,
            DeviceResultModel::Frontlight { percent } => percent <= 100,
            DeviceResultModel::BatteryDetail(detail) => detail.percent is None
                || detail.percent->0 <= 100,
            DeviceResultModel::Audio { available, state, position_ms, duration_ms, volume } =>
                duration_ms == 0 || position_ms <= duration_ms,
            _ => true,
        },
{
}

} // verus!
