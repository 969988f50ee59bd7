//! Device requests on the wire.

use vstd::prelude::*;

use crate::device;
use crate::device::{
    is_hex_digest, is_lookup, is_passphrase, is_secure_address, is_ssid, valid_app_id, AudioSource,
    AudioSourceModel, DeviceRequest, DeviceRequestModel,
};
use crate::error::ProtocolError;
use crate::leaf_codec;
use crate::limits::{MAX_FRAME_LEN, MAX_RADIO_NAME};
use crate::store;
use crate::store::is_valid_key;
use crate::wire;
use crate::wire::{byte_len, push_flag, push_text, push_u32, push_u8, Reader};

verus! {

// ---------------------------------------------------------------------------
// Texts from the radios, and texts that may be missing.

pub open spec fn parse_radio(s: Seq<u8>) -> wire::Parsed<Seq<char>> {
    match wire::parse_text(s) {
        Err(e) => Err(e),
        Ok((value, s)) => if wire::utf8_len(value) > MAX_RADIO_NAME {
            Err(ProtocolError::InvalidValue("radio string"))
        } else {
            Ok((value, s))
        },
    }
}

pub open spec fn parse_ssid(s: Seq<u8>) -> wire::Parsed<Seq<char>> {
    match parse_radio(s) {
        Err(e) => Err(e),
        Ok((ssid, s)) => if device::sized(ssid, 32) {
            Ok((ssid, s))
        } else {
            Err(ProtocolError::InvalidValue("Wi-Fi SSID"))
        },
    }
}

pub fn radio_string(reader: &mut Reader<'_>) -> (result: Result<String, ProtocolError>)
    ensures
        wire::reads(result, final(reader)@, parse_radio(old(reader)@)),
{
    let value = reader.string()?;
    if byte_len(value.as_str()) > MAX_RADIO_NAME {
        Err(ProtocolError::InvalidValue("radio string"))
    } else {
        Ok(value)
    }
}

pub fn wifi_ssid(reader: &mut Reader<'_>) -> (result: Result<String, ProtocolError>)
    ensures
        wire::reads(result, final(reader)@, parse_ssid(old(reader)@)),
{
    let ssid = radio_string(reader)?;
    if is_ssid(ssid.as_str()) {
        Ok(ssid)
    } else {
        Err(ProtocolError::InvalidValue("Wi-Fi SSID"))
    }
}

/// A text that may be missing: a flag, then the text.
pub open spec fn option_bytes(text: Option<Seq<char>>) -> Seq<u8> {
    match text {
        None => seq![0u8],
        Some(text) => seq![1u8] + wire::text_bytes(text),
    }
}

pub open spec fn parse_option(s: Seq<u8>) -> wire::Parsed<Option<Seq<char>>> {
    match wire::parse_u8(s) {
        Err(e) => Err(e),
        Ok((flag, s)) => if flag == 0 {
            Ok((None, s))
        } else if flag == 1 {
            match wire::parse_text(s) {
                Err(e) => Err(e),
                Ok((text, s)) => Ok((Some(text), s)),
            }
        } else {
            Err(ProtocolError::InvalidValue("optional field flag"))
        },
    }
}

pub fn push_optional_string(output: &mut Vec<u8>, text: &Option<String>)
    requires
        text is Some ==> wire::text_fits(text->0@),
    ensures
        final(output)@ == old(output)@ + option_bytes(wire::model_of(*text)),
{
    broadcast use wire::group_writing;

    match text {
        None => push_u8(output, 0),
        Some(text) => {
            push_u8(output, 1);
            push_text(output, text.as_str());
        },
    }
}

pub fn optional_string(reader: &mut Reader<'_>) -> (result: Result<
    Option<String>,
    ProtocolError,
>)
    ensures
        wire::finds(result, final(reader)@, parse_option(old(reader)@)),
{
    let flag: u8 = reader.u8()?;
    match flag {
        0 => Ok(None),
        1 => {
            let text = reader.string()?;
            Ok(Some(text))
        },
        _ => Err(ProtocolError::InvalidValue("optional field flag")),
    }
}

// ---------------------------------------------------------------------------
// Requests.

pub open spec fn source_bytes(source: AudioSourceModel) -> Seq<u8> {
    match source {
        AudioSourceModel::Shelf(name) => seq![1u8] + wire::text_bytes(name),
        AudioSourceModel::Stream(url) => seq![2u8] + wire::text_bytes(url),
    }
}

pub open spec fn source_ok(source: AudioSourceModel) -> bool {
    match source {
        AudioSourceModel::Shelf(name) => store::key_ok(name),
        AudioSourceModel::Stream(url) => device::secure_address(url),
    }
}

#[verifier::opaque]
pub open spec fn device_request_bytes(request: DeviceRequestModel) -> Seq<u8> {
    match request {
        DeviceRequestModel::ReadBattery => seq![1u8] + wire::be32(0),
        DeviceRequestModel::ReleaseWifi => seq![3u8] + wire::be32(0),
        DeviceRequestModel::AllowSleep => seq![5u8] + wire::be32(0),
        DeviceRequestModel::CancelWake => seq![7u8] + wire::be32(0),
        DeviceRequestModel::ReadFrontlight => seq![9u8] + wire::be32(0),
        DeviceRequestModel::HoldWifi { seconds } => seq![2u8] + wire::be32(seconds),
        DeviceRequestModel::KeepAwake { seconds } => seq![4u8] + wire::be32(seconds),
        DeviceRequestModel::ScheduleWake { seconds } => seq![6u8] + wire::be32(seconds),
        DeviceRequestModel::SeekAudio { position_ms } => seq![26u8] + wire::be32(position_ms),
        DeviceRequestModel::SetFrontlight { percent } => seq![8u8] + wire::be32(percent as u32),
        DeviceRequestModel::ReadBatteryDetail => seq![29u8],
        DeviceRequestModel::ReadCover => seq![30u8],
        DeviceRequestModel::ReadBluetooth => seq![10u8],
        DeviceRequestModel::ScanBluetooth => seq![12u8],
        DeviceRequestModel::ReadWifi => seq![17u8],
        DeviceRequestModel::ScanWifi => seq![19u8],
        DeviceRequestModel::DisconnectWifi => seq![21u8],
        DeviceRequestModel::ReadAudio => seq![22u8],
        DeviceRequestModel::PlayAudio => seq![24u8],
        DeviceRequestModel::PauseAudio => seq![25u8],
        DeviceRequestModel::StopAudio => seq![27u8],
        DeviceRequestModel::ListInstalledApps => seq![32u8],
        DeviceRequestModel::ReadAppCatalog => seq![33u8],
        DeviceRequestModel::RefreshAppCatalog => seq![34u8],
        DeviceRequestModel::ReadAppLink => seq![38u8],
        DeviceRequestModel::BeginAppLink => seq![39u8],
        DeviceRequestModel::PollAppLink => seq![40u8],
        DeviceRequestModel::DisconnectAppLink => seq![41u8],
        DeviceRequestModel::SetBluetooth { enabled } => seq![11u8] + seq![wire::flag_byte(enabled)],
        DeviceRequestModel::SetWifi { enabled } => seq![18u8] + seq![wire::flag_byte(enabled)],
        DeviceRequestModel::PairBluetooth { address } => seq![13u8] + wire::text_bytes(address),
        DeviceRequestModel::ConnectBluetooth { address } => seq![14u8] + wire::text_bytes(address),
        DeviceRequestModel::DisconnectBluetooth { address } => seq![15u8] + wire::text_bytes(address),
        DeviceRequestModel::ForgetBluetooth { address } => seq![16u8] + wire::text_bytes(address),
        DeviceRequestModel::JoinWifi { ssid, password } => seq![20u8] + wire::text_bytes(ssid)
            + wire::text_bytes(password),
        DeviceRequestModel::LoadAudio { source } => seq![23u8] + source_bytes(source),
        DeviceRequestModel::SetAudioVolume { percent } => seq![28u8] + seq![percent],
        DeviceRequestModel::Update { url, sha256 } => seq![31u8] + wire::text_bytes(url)
            + wire::text_bytes(sha256),
        DeviceRequestModel::InstallApp { id } => seq![35u8] + wire::text_bytes(id),
        DeviceRequestModel::UninstallApp { id } => seq![36u8] + wire::text_bytes(id),
        DeviceRequestModel::LookupWord { word, language } => seq![37u8] + wire::text_bytes(word)
            + option_bytes(language),
    }
}

/// Why a request cannot be sent.
#[verifier::opaque]
pub open spec fn device_request_refusal(request: DeviceRequestModel) -> Option<ProtocolError> {
    match request {
        DeviceRequestModel::PairBluetooth { address } => radio_refusal(address),
        DeviceRequestModel::ConnectBluetooth { address } => radio_refusal(address),
        DeviceRequestModel::DisconnectBluetooth { address } => radio_refusal(address),
        DeviceRequestModel::ForgetBluetooth { address } => radio_refusal(address),
        DeviceRequestModel::JoinWifi { ssid, password } => if device::wifi_credentials_ok(
            ssid,
            password,
        ) {
            None
        } else {
            Some(ProtocolError::InvalidValue("Wi-Fi credentials"))
        },
        DeviceRequestModel::LoadAudio { source } => if source_ok(source) {
            None
        } else {
            Some(ProtocolError::InvalidValue("audio source"))
        },
        DeviceRequestModel::SetAudioVolume { percent } => if percent <= 100 {
            None
        } else {
            Some(ProtocolError::InvalidValue("audio volume"))
        },
        DeviceRequestModel::Update { url, sha256 } => if !device::secure_address(url) {
            Some(ProtocolError::InvalidValue("update url"))
        } else if !device::digest_ok(sha256) {
            Some(ProtocolError::InvalidValue("update digest"))
        } else {
            None
        },
        DeviceRequestModel::InstallApp { id } => app_id_refusal(id),
        DeviceRequestModel::UninstallApp { id } => app_id_refusal(id),
        DeviceRequestModel::LookupWord { word, language } => if device::lookup_ok(word, language) {
            None
        } else {
            Some(ProtocolError::InvalidValue("dictionary lookup"))
        },
        _ => None,
    }
}

pub open spec fn radio_refusal(value: Seq<char>) -> Option<ProtocolError> {
    if wire::utf8_len(value) > MAX_RADIO_NAME {
        Some(ProtocolError::InvalidValue("radio string"))
    } else {
        None
    }
}

pub open spec fn app_id_refusal(id: Seq<char>) -> Option<ProtocolError> {
    if device::app_id_ok(id) {
        None
    } else {
        Some(ProtocolError::InvalidValue("application id"))
    }
}

/// Whether a request says nothing that reading would refuse.
pub open spec fn device_request_faithful(request: DeviceRequestModel) -> bool {
    request is SetFrontlight ==> request->SetFrontlight_percent <= 100
}

/// The request behind a tag that says everything.
pub open spec fn plain_request(tag: u8) -> Option<DeviceRequestModel> {
    if tag == 29 {
        Some(DeviceRequestModel::ReadBatteryDetail)
    } else if tag == 30 {
        Some(DeviceRequestModel::ReadCover)
    } else if tag == 10 {
        Some(DeviceRequestModel::ReadBluetooth)
    } else if tag == 12 {
        Some(DeviceRequestModel::ScanBluetooth)
    } else if tag == 17 {
        Some(DeviceRequestModel::ReadWifi)
    } else if tag == 19 {
        Some(DeviceRequestModel::ScanWifi)
    } else if tag == 21 {
        Some(DeviceRequestModel::DisconnectWifi)
    } else if tag == 22 {
        Some(DeviceRequestModel::ReadAudio)
    } else if tag == 24 {
        Some(DeviceRequestModel::PlayAudio)
    } else if tag == 25 {
        Some(DeviceRequestModel::PauseAudio)
    } else if tag == 27 {
        Some(DeviceRequestModel::StopAudio)
    } else if tag == 32 {
        Some(DeviceRequestModel::ListInstalledApps)
    } else if tag == 33 {
        Some(DeviceRequestModel::ReadAppCatalog)
    } else if tag == 34 {
        Some(DeviceRequestModel::RefreshAppCatalog)
    } else if tag == 38 {
        Some(DeviceRequestModel::ReadAppLink)
    } else if tag == 39 {
        Some(DeviceRequestModel::BeginAppLink)
    } else if tag == 40 {
        Some(DeviceRequestModel::PollAppLink)
    } else if tag == 41 {
        Some(DeviceRequestModel::DisconnectAppLink)
    } else {
        None
    }
}

/// Whether a tag is followed by one number.
pub open spec fn takes_number(tag: u8) -> bool {
    1 <= tag <= 9 || tag == 26
}

/// The request a tag and a number make.
pub open spec fn numbered_request(tag: u8, number: u32) -> Result<
    DeviceRequestModel,
    ProtocolError,
> {
    if tag == 2 {
        Ok(DeviceRequestModel::HoldWifi { seconds: number })
    } else if tag == 4 {
        Ok(DeviceRequestModel::KeepAwake { seconds: number })
    } else if tag == 6 {
        Ok(DeviceRequestModel::ScheduleWake { seconds: number })
    } else if tag == 26 {
        Ok(DeviceRequestModel::SeekAudio { position_ms: number })
    } else if tag == 8 {
        if number <= 100 {
            Ok(DeviceRequestModel::SetFrontlight { percent: number as u8 })
        } else {
            Err(ProtocolError::InvalidValue("frontlight percent"))
        }
    } else if number != 0 {
        Err(ProtocolError::InvalidValue("device request argument"))
    } else if tag == 1 {
        Ok(DeviceRequestModel::ReadBattery)
    } else if tag == 3 {
        Ok(DeviceRequestModel::ReleaseWifi)
    } else if tag == 5 {
        Ok(DeviceRequestModel::AllowSleep)
    } else if tag == 7 {
        Ok(DeviceRequestModel::CancelWake)
    } else {
        Ok(DeviceRequestModel::ReadFrontlight)
    }
}

pub open spec fn parse_join(s: Seq<u8>) -> wire::Parsed<DeviceRequestModel> {
    match parse_ssid(s) {
        Err(e) => Err(e),
        Ok((ssid, s)) => match parse_radio(s) {
            Err(e) => Err(e),
            Ok((password, s)) => if device::passphrase_ok(password) {
                Ok((DeviceRequestModel::JoinWifi { ssid, password }, s))
            } else {
                Err(ProtocolError::InvalidValue("Wi-Fi credentials"))
            },
        },
    }
}

pub open spec fn parse_load_audio(s: Seq<u8>) -> wire::Parsed<DeviceRequestModel> {
    match wire::parse_u8(s) {
        Err(e) => Err(e),
        Ok((tag, s)) => if tag == 1 || tag == 2 {
            match wire::parse_text(s) {
                Err(e) => Err(e),
                Ok((name, s)) => {
                    let source = if tag == 1 {
                        AudioSourceModel::Shelf(name)
                    } else {
                        AudioSourceModel::Stream(name)
                    };
                    if source_ok(source) {
                        Ok((DeviceRequestModel::LoadAudio { source }, s))
                    } else {
                        Err(ProtocolError::InvalidValue("audio source"))
                    }
                },
            }
        } else {
            Err(ProtocolError::InvalidValue("audio source"))
        },
    }
}

pub open spec fn parse_update(s: Seq<u8>) -> wire::Parsed<DeviceRequestModel> {
    match wire::parse_text(s) {
        Err(e) => Err(e),
        Ok((url, s)) => if !device::secure_address(url) {
            Err(ProtocolError::InvalidValue("update url"))
        } else {
            match wire::parse_text(s) {
                Err(e) => Err(e),
                Ok((sha256, s)) => if device::digest_ok(sha256) {
                    Ok((DeviceRequestModel::Update { url, sha256 }, s))
                } else {
                    Err(ProtocolError::InvalidValue("update digest"))
                },
            }
        },
    }
}

pub open spec fn parse_app_id(s: Seq<u8>) -> wire::Parsed<Seq<char>> {
    match wire::parse_text(s) {
        Err(e) => Err(e),
        Ok((id, s)) => if device::app_id_ok(id) {
            Ok((id, s))
        } else {
            Err(ProtocolError::InvalidValue("application id"))
        },
    }
}

pub open spec fn parse_lookup(s: Seq<u8>) -> wire::Parsed<DeviceRequestModel> {
    match wire::parse_text(s) {
        Err(e) => Err(e),
        Ok((word, s)) => match parse_option(s) {
            Err(e) => Err(e),
            Ok((language, s)) => if device::lookup_ok(word, language) {
                Ok((DeviceRequestModel::LookupWord { word, language }, s))
            } else {
                Err(ProtocolError::InvalidValue("dictionary lookup"))
            },
        },
    }
}

/// A request that is neither a bare tag nor a tag and a number.
pub open spec fn parse_worded_request(tag: u8, s: Seq<u8>) -> wire::Parsed<DeviceRequestModel> {
    if tag == 11 || tag == 18 {
        match wire::parse_flag(
            s,
            if tag == 11 {
                "Bluetooth enabled"
            } else {
                "Wi-Fi enabled"
            },
        ) {
            Err(e) => Err(e),
            Ok((enabled, s)) => Ok(
                (
                    if tag == 11 {
                        DeviceRequestModel::SetBluetooth { enabled }
                    } else {
                        DeviceRequestModel::SetWifi { enabled }
                    },
                    s,
                ),
            ),
        }
    } else if 13 <= tag <= 16 {
        match parse_radio(s) {
            Err(e) => Err(e),
            Ok((address, s)) => Ok(
                (
                    if tag == 13 {
                        DeviceRequestModel::PairBluetooth { address }
                    } else if tag == 14 {
                        DeviceRequestModel::ConnectBluetooth { address }
                    } else if tag == 15 {
                        DeviceRequestModel::DisconnectBluetooth { address }
                    } else {
                        DeviceRequestModel::ForgetBluetooth { address }
                    },
                    s,
                ),
            ),
        }
    } else if tag == 20 {
        parse_join(s)
    } else if tag == 23 {
        parse_load_audio(s)
    } else if tag == 28 {
        match wire::parse_u8(s) {
            Err(e) => Err(e),
            Ok((percent, s)) => if percent <= 100 {
                Ok((DeviceRequestModel::SetAudioVolume { percent }, s))
            } else {
                Err(ProtocolError::InvalidValue("audio volume"))
            },
        }
    } else if tag == 31 {
        parse_update(s)
    } else if tag == 35 || tag == 36 {
        match parse_app_id(s) {
            Err(e) => Err(e),
            Ok((id, s)) => Ok(
                (
                    if tag == 35 {
                        DeviceRequestModel::InstallApp { id }
                    } else {
                        DeviceRequestModel::UninstallApp { id }
                    },
                    s,
                ),
            ),
        }
    } else if tag == 37 {
        parse_lookup(s)
    } else {
        Err(ProtocolError::InvalidValue("device request"))
    }
}

pub open spec fn parse_device_request(s: Seq<u8>) -> wire::Parsed<DeviceRequestModel> {
    match wire::parse_u8(s) {
        Err(e) => Err(e),
        Ok((tag, s)) => if let Some(request) = plain_request(tag) {
            Ok((request, s))
        } else if takes_number(tag) {
            match wire::parse_u32(s) {
                Err(e) => Err(e),
                Ok((number, s)) => match numbered_request(tag, number) {
                    Err(e) => Err(e),
                    Ok(request) => Ok((request, s)),
                },
            }
        } else {
            parse_worded_request(tag, s)
        },
    }
}

/// A request that can be sent is short.
pub proof fn lemma_device_request_short(request: DeviceRequestModel)
    requires
        device_request_refusal(request) is None,
    ensures
        0 < device_request_bytes(request).len() <= MAX_FRAME_LEN,
{
    broadcast use wire::group_lengths;

    reveal(device_request_bytes);
    reveal(device_request_refusal);
}

/// A request that can be sent and says nothing out of range is read back as it
/// was.
#[verifier::rlimit(40)]
pub proof fn lemma_device_request_read_back(request: DeviceRequestModel, rest: Seq<u8>)
    requires
        device_request_refusal(request) is None,
        device_request_faithful(request),
    ensures
        parse_device_request(device_request_bytes(request) + rest) == Ok::<_, ProtocolError>(
            (request, rest),
        ),
{
    broadcast use wire::group_reading;

    reveal(device_request_bytes);
    reveal(device_request_refusal);
}

fn push_numbered(output: &mut Vec<u8>, tag: u8, number: u32)
    ensures
        final(output)@ == old(output)@ + (seq![tag] + wire::be32(number)),
{
    broadcast use wire::group_writing;

    push_u8(output, tag);
    push_u32(output, number);
}

fn push_worded(output: &mut Vec<u8>, tag: u8, text: &str)
    requires
        wire::text_fits(text@),
    ensures
        final(output)@ == old(output)@ + (seq![tag] + wire::text_bytes(text@)),
{
    broadcast use wire::group_writing;

    push_u8(output, tag);
    push_text(output, text);
}

fn push_radio(output: &mut Vec<u8>, tag: u8, text: &str) -> (result: Result<(), ProtocolError>)
    ensures
        leaf_codec::writes(
            result,
            old(output)@,
            final(output)@,
            radio_refusal(text@),
            seq![tag] + wire::text_bytes(text@),
        ),
        radio_refusal(text@) is Some ==> final(output)@ == old(output)@,
{
    if byte_len(text) > MAX_RADIO_NAME {
        return Err(ProtocolError::InvalidValue("radio string"));
    }
    push_worded(output, tag, text);
    Ok(())
}

fn push_app_id(output: &mut Vec<u8>, tag: u8, id: &str) -> (result: Result<(), ProtocolError>)
    ensures
        leaf_codec::writes(
            result,
            old(output)@,
            final(output)@,
            app_id_refusal(id@),
            seq![tag] + wire::text_bytes(id@),
        ),
        app_id_refusal(id@) is Some ==> final(output)@ == old(output)@,
{
    if !valid_app_id(id) {
        return Err(ProtocolError::InvalidValue("application id"));
    }
    push_worded(output, tag, id);
    Ok(())
}

/// Writes a request. One that the other side would not take is refused before
/// a byte of it is written.
pub fn encode_device_request(output: &mut Vec<u8>, request: &DeviceRequest) -> (result: Result<
    (),
    ProtocolError,
>)
    ensures
        leaf_codec::writes(
            result,
            old(output)@,
            final(output)@,
            device_request_refusal(request@),
            device_request_bytes(request@),
        ),
        device_request_refusal(request@) is Some ==> final(output)@ == old(output)@,
{
    broadcast use wire::group_writing;

    reveal(device_request_bytes);
    reveal(device_request_refusal);
    match request {
        DeviceRequest::ReadBattery => push_numbered(output, 1, 0),
        DeviceRequest::ReleaseWifi => push_numbered(output, 3, 0),
        DeviceRequest::AllowSleep => push_numbered(output, 5, 0),
        DeviceRequest::CancelWake => push_numbered(output, 7, 0),
        DeviceRequest::ReadFrontlight => push_numbered(output, 9, 0),
        DeviceRequest::HoldWifi { seconds } => push_numbered(output, 2, *seconds),
        DeviceRequest::KeepAwake { seconds } => push_numbered(output, 4, *seconds),
        DeviceRequest::ScheduleWake { seconds } => push_numbered(output, 6, *seconds),
        DeviceRequest::SeekAudio { position_ms } => push_numbered(output, 26, *position_ms),
        DeviceRequest::SetFrontlight { percent } => push_numbered(output, 8, *percent as u32),
        DeviceRequest::ReadBatteryDetail => push_u8(output, 29),
        DeviceRequest::ReadCover => push_u8(output, 30),
        DeviceRequest::ReadBluetooth => push_u8(output, 10),
        DeviceRequest::ScanBluetooth => push_u8(output, 12),
        DeviceRequest::ReadWifi => push_u8(output, 17),
        DeviceRequest::ScanWifi => push_u8(output, 19),
        DeviceRequest::DisconnectWifi => push_u8(output, 21),
        DeviceRequest::ReadAudio => push_u8(output, 22),
        DeviceRequest::PlayAudio => push_u8(output, 24),
        DeviceRequest::PauseAudio => push_u8(output, 25),
        DeviceRequest::StopAudio => push_u8(output, 27),
        DeviceRequest::ListInstalledApps => push_u8(output, 32),
        DeviceRequest::ReadAppCatalog => push_u8(output, 33),
        DeviceRequest::RefreshAppCatalog => push_u8(output, 34),
        DeviceRequest::ReadAppLink => push_u8(output, 38),
        DeviceRequest::BeginAppLink => push_u8(output, 39),
        DeviceRequest::PollAppLink => push_u8(output, 40),
        DeviceRequest::DisconnectAppLink => push_u8(output, 41),
        DeviceRequest::SetBluetooth { enabled } => {
            push_u8(output, 11);
            push_flag(output, *enabled);
        },
        DeviceRequest::SetWifi { enabled } => {
            push_u8(output, 18);
            push_flag(output, *enabled);
        },
        DeviceRequest::PairBluetooth { address } => return push_radio(output, 13, address.as_str()),
        DeviceRequest::ConnectBluetooth { address } => return push_radio(
            output,
            14,
            address.as_str(),
        ),
        DeviceRequest::DisconnectBluetooth { address } => return push_radio(
            output,
            15,
            address.as_str(),
        ),
        DeviceRequest::ForgetBluetooth { address } => return push_radio(
            output,
            16,
            address.as_str(),
        ),
        DeviceRequest::JoinWifi { ssid, password } => {
            if !is_ssid(ssid.as_str()) || !is_passphrase(password.as_str()) {
                return Err(ProtocolError::InvalidValue("Wi-Fi credentials"));
            }
            push_worded(output, 20, ssid.as_str());
            push_text(output, password.as_str());
        },
        DeviceRequest::LoadAudio { source } => {
            let ok = match source {
                AudioSource::Shelf(name) => is_valid_key(name.as_str()),
                AudioSource::Stream(url) => is_secure_address(url.as_str()),
            };
            if !ok {
                return Err(ProtocolError::InvalidValue("audio source"));
            }
            push_u8(output, 23);
            match source {
                AudioSource::Shelf(name) => push_worded(output, 1, name.as_str()),
                AudioSource::Stream(url) => push_worded(output, 2, url.as_str()),
            }
        },
        DeviceRequest::SetAudioVolume { percent } => {
            if *percent > 100 {
                return Err(ProtocolError::InvalidValue("audio volume"));
            }
            push_u8(output, 28);
            push_u8(output, *percent);
        },
        DeviceRequest::Update { url, sha256 } => {
            if !is_secure_address(url.as_str()) {
                return Err(ProtocolError::InvalidValue("update url"));
            }
            if !is_hex_digest(sha256.as_str()) {
                return Err(ProtocolError::InvalidValue("update digest"));
            }
            push_worded(output, 31, url.as_str());
            push_text(output, sha256.as_str());
        },
        DeviceRequest::InstallApp { id } => return push_app_id(output, 35, id.as_str()),
        DeviceRequest::UninstallApp { id } => return push_app_id(output, 36, id.as_str()),
        DeviceRequest::LookupWord { word, language } => {
            if !is_lookup(word.as_str(), language) {
                return Err(ProtocolError::InvalidValue("dictionary lookup"));
            }
            push_worded(output, 37, word.as_str());
            push_optional_string(output, language);
        },
    }
    Ok(())
}

/// The length of a request, or why it cannot be sent.
pub open spec fn device_request_size(request: DeviceRequestModel) -> Result<int, ProtocolError> {
    match device_request_refusal(request) {
        Some(e) => Err(e),
        None => Ok(device_request_bytes(request).len() as int),
    }
}

pub fn device_request_len(request: &DeviceRequest) -> (result: Result<usize, ProtocolError>)
    ensures
        wire::counts(result, device_request_size(request@)),
{
    let mut encoded: Vec<u8> = Vec::new();
    encode_device_request(&mut encoded, request)?;
    proof {
        lemma_device_request_short(request@);
        assert(encoded@ =~= device_request_bytes(request@));
    }
    Ok(encoded.len())
}

/// Reads a request that is neither a bare tag nor a tag and a number.
fn read_worded_request(tag: u8, reader: &mut Reader<'_>) -> (result: Result<
    DeviceRequest,
    ProtocolError,
>)
    ensures
        wire::reads(result, final(reader)@, parse_worded_request(tag, old(reader)@)),
{
    match tag {
        11 => {
            let enabled = reader.flag("Bluetooth enabled")?;
            Ok(DeviceRequest::SetBluetooth { enabled })
        },
        18 => {
            let enabled = reader.flag("Wi-Fi enabled")?;
            Ok(DeviceRequest::SetWifi { enabled })
        },
        13 => {
            let address = radio_string(reader)?;
            Ok(DeviceRequest::PairBluetooth { address })
        },
        14 => {
            let address = radio_string(reader)?;
            Ok(DeviceRequest::ConnectBluetooth { address })
        },
        15 => {
            let address = radio_string(reader)?;
            Ok(DeviceRequest::DisconnectBluetooth { address })
        },
        16 => {
            let address = radio_string(reader)?;
            Ok(DeviceRequest::ForgetBluetooth { address })
        },
        20 => {
            let ssid = wifi_ssid(reader)?;
            let password = radio_string(reader)?;
            if !is_passphrase(password.as_str()) {
                return Err(ProtocolError::InvalidValue("Wi-Fi credentials"));
            }
            Ok(DeviceRequest::JoinWifi { ssid, password })
        },
        23 => {
            let kind: u8 = reader.u8()?;
            if kind != 1 && kind != 2 {
                return Err(ProtocolError::InvalidValue("audio source"));
            }
            let name = reader.string()?;
            if kind == 1 && is_valid_key(name.as_str()) {
                Ok(DeviceRequest::LoadAudio { source: AudioSource::Shelf(name) })
            } else if kind == 2 && is_secure_address(name.as_str()) {
                Ok(DeviceRequest::LoadAudio { source: AudioSource::Stream(name) })
            } else {
                Err(ProtocolError::InvalidValue("audio source"))
            }
        },
        28 => {
            let percent: u8 = reader.u8()?;
            if percent > 100 {
                return Err(ProtocolError::InvalidValue("audio volume"));
            }
            Ok(DeviceRequest::SetAudioVolume { percent })
        },
        31 => {
            let url = reader.string()?;
            if !is_secure_address(url.as_str()) {
                return Err(ProtocolError::InvalidValue("update url"));
            }
            let sha256 = reader.string()?;
            if !is_hex_digest(sha256.as_str()) {
                return Err(ProtocolError::InvalidValue("update digest"));
            }
            Ok(DeviceRequest::Update { url, sha256 })
        },
        35 => {
            let id = read_app_id(reader)?;
            Ok(DeviceRequest::InstallApp { id })
        },
        36 => {
            let id = read_app_id(reader)?;
            Ok(DeviceRequest::UninstallApp { id })
        },
        37 => {
            let word = reader.string()?;
            let language = optional_string(reader)?;
            if !is_lookup(word.as_str(), &language) {
                return Err(ProtocolError::InvalidValue("dictionary lookup"));
            }
            Ok(DeviceRequest::LookupWord { word, language })
        },
        _ => Err(ProtocolError::InvalidValue("device request")),
    }
}

pub fn read_app_id(reader: &mut Reader<'_>) -> (result: Result<String, ProtocolError>)
    ensures
        wire::reads(result, final(reader)@, parse_app_id(old(reader)@)),
{
    let id = reader.string()?;
    if !valid_app_id(id.as_str()) {
        return Err(ProtocolError::InvalidValue("application id"));
    }
    Ok(id)
}

fn read_numbered_request(tag: u8, number: u32) -> (result: Result<DeviceRequest, ProtocolError>)
    requires
        takes_number(tag),
    ensures
        match (result, numbered_request(tag, number)) {
            (Ok(request), Ok(model)) => request@ == model,
            (Err(error), Err(refusal)) => error == refusal,
            _ => false,
        },
{
    match tag {
        2 => return Ok(DeviceRequest::HoldWifi { seconds: number }),
        4 => return Ok(DeviceRequest::KeepAwake { seconds: number }),
        6 => return Ok(DeviceRequest::ScheduleWake { seconds: number }),
        26 => return Ok(DeviceRequest::SeekAudio { position_ms: number }),
        8 => {
            if number > 100 {
                return Err(ProtocolError::InvalidValue("frontlight percent"));
            }
            return Ok(DeviceRequest::SetFrontlight { percent: number as u8 });
        },
        _ => {},
    }
    if number != 0 {
        return Err(ProtocolError::InvalidValue("device request argument"));
    }
    match tag {
        1 => Ok(DeviceRequest::ReadBattery),
        3 => Ok(DeviceRequest::ReleaseWifi),
        5 => Ok(DeviceRequest::AllowSleep),
        7 => Ok(DeviceRequest::CancelWake),
        _ => Ok(DeviceRequest::ReadFrontlight),
    }
}

/// Reads a request.
pub fn decode_device_request(reader: &mut Reader<'_>) -> (result: Result<
    DeviceRequest,
    ProtocolError,
>)
    ensures
        wire::reads(result, final(reader)@, parse_device_request(old(reader)@)),
{
    let tag: u8 = reader.u8()?;
    match tag {
        29 => Ok(DeviceRequest::ReadBatteryDetail),
        30 => Ok(DeviceRequest::ReadCover),
        10 => Ok(DeviceRequest::ReadBluetooth),
        12 => Ok(DeviceRequest::ScanBluetooth),
        17 => Ok(DeviceRequest::ReadWifi),
        19 => Ok(DeviceRequest::ScanWifi),
        21 => Ok(DeviceRequest::DisconnectWifi),
        22 => Ok(DeviceRequest::ReadAudio),
        24 => Ok(DeviceRequest::PlayAudio),
        25 => Ok(DeviceRequest::PauseAudio),
        27 => Ok(DeviceRequest::StopAudio),
        32 => Ok(DeviceRequest::ListInstalledApps),
        33 => Ok(DeviceRequest::ReadAppCatalog),
        34 => Ok(DeviceRequest::RefreshAppCatalog),
        38 => Ok(DeviceRequest::ReadAppLink),
        39 => Ok(DeviceRequest::BeginAppLink),
        40 => Ok(DeviceRequest::PollAppLink),
        41 => Ok(DeviceRequest::DisconnectAppLink),
        1 | 2 | 3 | 4 | 5 | 6 | 7 | 8 | 9 | 26 => {
            let number: u32 = reader.u32()?;
            read_numbered_request(tag, number)
        },
        _ => read_worded_request(tag, reader),
    }
}

} // verus!
