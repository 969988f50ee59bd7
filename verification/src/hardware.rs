//! Capability-gated hardware operations.

use vstd::prelude::*;
use vstd::utf8::*;

use crate::command::{Command, CommandModel};
use crate::context::Context;
use crate::device;
use crate::device::{
    is_hex_digest, is_lookup, is_passphrase, is_secure_address, is_ssid, AudioSource,
    AudioSourceModel, DeviceRequest, DeviceRequestModel,
};
use crate::device_request;
use crate::span;
use crate::span::{whole_seconds, Span};
use crate::store;
use crate::store::is_valid_key;
use crate::text;
use crate::wire;

verus! {

/// Whether a character is a hexadecimal digit in either case.
pub open spec fn is_hex(c: char) -> bool {
    text::is_digit(c) || 'a' <= c <= 'f' || 'A' <= c <= 'F'
}

/// Whether a text is the address of a radio: six bytes in hexadecimal with a
/// colon between each two.
pub open spec fn bluetooth_address_ok(address: Seq<char>) -> bool {
    &&& address.len() == 17
    &&& forall|i: int|
        0 <= i < 17 ==> if i % 3 == 2 {
            #[trigger] address[i] == ':'
        } else {
            is_hex(address[i])
        }
}

/// Whether a text is the address of a radio.
pub fn is_bluetooth_address(address: &str) -> (valid: bool)
    ensures
        valid == bluetooth_address_ok(address@),
{
    if address.unicode_len() != 17 {
        return false;
    }
    let mut index: usize = 0;
    while index < 17
        invariant
            index <= 17,
            address@.len() == 17,
            forall|i: int|
                0 <= i < index ==> if i % 3 == 2 {
                    #[trigger] address@[i] == ':'
                } else {
                    is_hex(address@[i])
                },
        decreases 17 - index,
    {
        let c = address.get_char(index);
        let hex = ('0' <= c && c <= '9') || ('a' <= c && c <= 'f') || ('A' <= c && c <= 'F');
        if (index % 3 == 2 && c != ':') || (index % 3 != 2 && !hex) {
            return false;
        }
        index = index + 1;
    }
    true
}

/// A share of a hundred nearest to a number.
pub open spec fn share(percent: u8) -> u8 {
    if percent > 100 {
        100
    } else {
        percent
    }
}

fn at_most_all(percent: u8) -> (part: u8)
    ensures
        part == share(percent),
{
    if percent > 100 {
        100
    } else {
        percent
    }
}

/// What a language was called, if it was called anything.
pub open spec fn spoken(language: Option<&str>) -> Option<Seq<char>> {
    match language {
        None => None,
        Some(code) => Some(code@),
    }
}

/// Capability-gated hardware operations.
/// 
/// An application states what it wants; the runtime decides.
#[derive(Debug)]
pub struct Device<'a> {
    pub context: &'a mut Context,
}

impl<'a> Device<'a> {
    /// Asks for the battery percentage and charging state.
    pub fn read_battery(&mut self)
        ensures
            (*final(self).context)@ == (*old(self).context)@.asking(
                CommandModel::Device(DeviceRequestModel::ReadBattery),
            ),
            *final(final(self).context) == *final(old(self).context),
    {
        self.context.queue(Command::Device(DeviceRequest::ReadBattery));
    }

    /// Asks for what the fuel gauge knows.
    pub fn read_battery_detail(&mut self)
        ensures
            (*final(self).context)@ == (*old(self).context)@.asking(
                CommandModel::Device(DeviceRequestModel::ReadBatteryDetail),
            ),
            *final(final(self).context) == *final(old(self).context),
    {
        self.context.queue(Command::Device(DeviceRequest::ReadBatteryDetail));
    }

    /// Asks whether a magnet is at the hall sensor.
    pub fn read_cover(&mut self)
        ensures
            (*final(self).context)@ == (*old(self).context)@.asking(
                CommandModel::Device(DeviceRequestModel::ReadCover),
            ),
            *final(final(self).context) == *final(old(self).context),
    {
        self.context.queue(Command::Device(DeviceRequest::ReadCover));
    }

    /// Asks for the radio to stay up for a time. Durations are upper bounds: a grant
    /// may be shorter.
    pub fn hold_wifi(&mut self, duration: Span)
        ensures
            (*final(self).context)@ == (*old(self).context)@.asking(
                CommandModel::Device(DeviceRequestModel::HoldWifi { seconds: duration.rounded() }),
            ),
            *final(final(self).context) == *final(old(self).context),
    {
        self.context.queue(
            Command::Device(DeviceRequest::HoldWifi { seconds: whole_seconds(duration) }),
        );
    }

    pub fn release_wifi(&mut self)
        ensures
            (*final(self).context)@ == (*old(self).context)@.asking(
                CommandModel::Device(DeviceRequestModel::ReleaseWifi),
            ),
            *final(final(self).context) == *final(old(self).context),
    {
        self.context.queue(Command::Device(DeviceRequest::ReleaseWifi));
    }

    /// Asks for the reader to stay awake for a time.
    pub fn keep_awake(&mut self, duration: Span)
        ensures
            (*final(self).context)@ == (*old(self).context)@.asking(
                CommandModel::Device(DeviceRequestModel::KeepAwake { seconds: duration.rounded() }),
            ),
            *final(final(self).context) == *final(old(self).context),
    {
        self.context.queue(
            Command::Device(DeviceRequest::KeepAwake { seconds: whole_seconds(duration) }),
        );
    }

    pub fn allow_sleep(&mut self)
        ensures
            (*final(self).context)@ == (*old(self).context)@.asking(
                CommandModel::Device(DeviceRequestModel::AllowSleep),
            ),
            *final(final(self).context) == *final(old(self).context),
    {
        self.context.queue(Command::Device(DeviceRequest::AllowSleep));
    }

    /// Asks to be woken after a time.
    pub fn schedule_wake(&mut self, delay: Span)
        ensures
            (*final(self).context)@ == (*old(self).context)@.asking(
                CommandModel::Device(DeviceRequestModel::ScheduleWake { seconds: delay.rounded() }),
            ),
            *final(final(self).context) == *final(old(self).context),
    {
        self.context.queue(
            Command::Device(DeviceRequest::ScheduleWake { seconds: whole_seconds(delay) }),
        );
    }

    pub fn cancel_wake(&mut self)
        ensures
            (*final(self).context)@ == (*old(self).context)@.asking(
                CommandModel::Device(DeviceRequestModel::CancelWake),
            ),
            *final(final(self).context) == *final(old(self).context),
    {
        self.context.queue(Command::Device(DeviceRequest::CancelWake));
    }

    pub fn set_frontlight(&mut self, percent: u8)
        ensures
            (*final(self).context)@ == (*old(self).context)@.asking(
                CommandModel::Device(DeviceRequestModel::SetFrontlight { percent: share(percent) }),
            ),
            *final(final(self).context) == *final(old(self).context),
    {
        self.context.queue(
            Command::Device(DeviceRequest::SetFrontlight { percent: at_most_all(percent) }),
        );
    }

    pub fn read_frontlight(&mut self)
        ensures
            (*final(self).context)@ == (*old(self).context)@.asking(
                CommandModel::Device(DeviceRequestModel::ReadFrontlight),
            ),
            *final(final(self).context) == *final(old(self).context),
    {
        self.context.queue(Command::Device(DeviceRequest::ReadFrontlight));
    }

    pub fn read_bluetooth(&mut self)
        ensures
            (*final(self).context)@ == (*old(self).context)@.asking(
                CommandModel::Device(DeviceRequestModel::ReadBluetooth),
            ),
            *final(final(self).context) == *final(old(self).context),
    {
        self.context.queue(Command::Device(DeviceRequest::ReadBluetooth));
    }

    pub fn set_bluetooth(&mut self, enabled: bool)
        ensures
            (*final(self).context)@ == (*old(self).context)@.asking(
                CommandModel::Device(DeviceRequestModel::SetBluetooth { enabled }),
            ),
            *final(final(self).context) == *final(old(self).context),
    {
        self.context.queue(Command::Device(DeviceRequest::SetBluetooth { enabled }));
    }

    pub fn scan_bluetooth(&mut self)
        ensures
            (*final(self).context)@ == (*old(self).context)@.asking(
                CommandModel::Device(DeviceRequestModel::ScanBluetooth),
            ),
            *final(final(self).context) == *final(old(self).context),
    {
        self.context.queue(Command::Device(DeviceRequest::ScanBluetooth));
    }

    /// Refused when `address` is not the address of a radio.
    pub fn pair_bluetooth(&mut self, address: &str) -> (accepted: bool)
        ensures
            accepted == bluetooth_address_ok(address@),
            (*final(self).context)@ == if bluetooth_address_ok(address@) {
                (*old(self).context)@.asking(
                    CommandModel::Device(DeviceRequestModel::PairBluetooth { address: address@ }),
                )
            } else {
                (*old(self).context)@
            },
            *final(final(self).context) == *final(old(self).context),
    {
        if !is_bluetooth_address(address) {
            return false;
        }
        self.context.queue(
            Command::Device(DeviceRequest::PairBluetooth { address: address.to_owned() }),
        );
        true
    }

    /// Refused when `address` is not the address of a radio.
    pub fn connect_bluetooth(&mut self, address: &str) -> (accepted: bool)
        ensures
            accepted == bluetooth_address_ok(address@),
            (*final(self).context)@ == if bluetooth_address_ok(address@) {
                (*old(self).context)@.asking(
                    CommandModel::Device(DeviceRequestModel::ConnectBluetooth { address: address@ }),
                )
            } else {
                (*old(self).context)@
            },
            *final(final(self).context) == *final(old(self).context),
    {
        if !is_bluetooth_address(address) {
            return false;
        }
        self.context.queue(
            Command::Device(DeviceRequest::ConnectBluetooth { address: address.to_owned() }),
        );
        true
    }

    /// Refused when `address` is not the address of a radio.
    pub fn disconnect_bluetooth(&mut self, address: &str) -> (accepted: bool)
        ensures
            accepted == bluetooth_address_ok(address@),
            (*final(self).context)@ == if bluetooth_address_ok(address@) {
                (*old(self).context)@.asking(
                    CommandModel::Device(
                        DeviceRequestModel::DisconnectBluetooth { address: address@ },
                    ),
                )
            } else {
                (*old(self).context)@
            },
            *final(final(self).context) == *final(old(self).context),
    {
        if !is_bluetooth_address(address) {
            return false;
        }
        self.context.queue(
            Command::Device(DeviceRequest::DisconnectBluetooth { address: address.to_owned() }),
        );
        true
    }

    /// Refused when `address` is not the address of a radio.
    pub fn forget_bluetooth(&mut self, address: &str) -> (accepted: bool)
        ensures
            accepted == bluetooth_address_ok(address@),
            (*final(self).context)@ == if bluetooth_address_ok(address@) {
                (*old(self).context)@.asking(
                    CommandModel::Device(DeviceRequestModel::ForgetBluetooth { address: address@ }),
                )
            } else {
                (*old(self).context)@
            },
            *final(final(self).context) == *final(old(self).context),
    {
        if !is_bluetooth_address(address) {
            return false;
        }
        self.context.queue(
            Command::Device(DeviceRequest::ForgetBluetooth { address: address.to_owned() }),
        );
        true
    }

    pub fn read_wifi(&mut self)
        ensures
            (*final(self).context)@ == (*old(self).context)@.asking(
                CommandModel::Device(DeviceRequestModel::ReadWifi),
            ),
            *final(final(self).context) == *final(old(self).context),
    {
        self.context.queue(Command::Device(DeviceRequest::ReadWifi));
    }

    pub fn set_wifi(&mut self, enabled: bool)
        ensures
            (*final(self).context)@ == (*old(self).context)@.asking(
                CommandModel::Device(DeviceRequestModel::SetWifi { enabled }),
            ),
            *final(final(self).context) == *final(old(self).context),
    {
        self.context.queue(Command::Device(DeviceRequest::SetWifi { enabled }));
    }

    pub fn scan_wifi(&mut self)
        ensures
            (*final(self).context)@ == (*old(self).context)@.asking(
                CommandModel::Device(DeviceRequestModel::ScanWifi),
            ),
            *final(final(self).context) == *final(old(self).context),
    {
        self.context.queue(Command::Device(DeviceRequest::ScanWifi));
    }

    /// Refused when the radio could not take the name or the passphrase.
    pub fn join_wifi(&mut self, ssid: &str, password: &str) -> (accepted: bool)
        ensures
            accepted == device::wifi_credentials_ok(ssid@, password@),
            (*final(self).context)@ == if device::wifi_credentials_ok(ssid@, password@) {
                (*old(self).context)@.asking(
                    CommandModel::Device(
                        DeviceRequestModel::JoinWifi { ssid: ssid@, password: password@ },
                    ),
                )
            } else {
                (*old(self).context)@
            },
            *final(final(self).context) == *final(old(self).context),
    {
        if !(is_ssid(ssid) && is_passphrase(password)) {
            return false;
        }
        self.context.queue(
            Command::Device(
                DeviceRequest::JoinWifi { ssid: ssid.to_owned(), password: password.to_owned() },
            ),
        );
        true
    }

    pub fn disconnect_wifi(&mut self)
        ensures
            (*final(self).context)@ == (*old(self).context)@.asking(
                CommandModel::Device(DeviceRequestModel::DisconnectWifi),
            ),
            *final(final(self).context) == *final(old(self).context),
    {
        self.context.queue(Command::Device(DeviceRequest::DisconnectWifi));
    }

    pub fn read_audio(&mut self)
        ensures
            (*final(self).context)@ == (*old(self).context)@.asking(
                CommandModel::Device(DeviceRequestModel::ReadAudio),
            ),
            *final(final(self).context) == *final(old(self).context),
    {
        self.context.queue(Command::Device(DeviceRequest::ReadAudio));
    }

    pub fn load_audio(&mut self, source: AudioSource)
        ensures
            (*final(self).context)@ == (*old(self).context)@.asking(
                CommandModel::Device(DeviceRequestModel::LoadAudio { source: source@ }),
            ),
            *final(final(self).context) == *final(old(self).context),
    {
        self.context.queue(Command::Device(DeviceRequest::LoadAudio { source }));
    }

    /// Refused when `name` is not a usable key.
    pub fn load_shelf_audio(&mut self, name: &str) -> (accepted: bool)
        ensures
            accepted == store::key_ok(name@),
            (*final(self).context)@ == if store::key_ok(name@) {
                (*old(self).context)@.asking(
                    CommandModel::Device(
                        DeviceRequestModel::LoadAudio { source: AudioSourceModel::Shelf(name@) },
                    ),
                )
            } else {
                (*old(self).context)@
            },
            *final(final(self).context) == *final(old(self).context),
    {
        if !is_valid_key(name) {
            return false;
        }
        self.context.queue(
            Command::Device(
                DeviceRequest::LoadAudio { source: AudioSource::Shelf(name.to_owned()) },
            ),
        );
        true
    }

    /// Refused when `url` is not secure or is too long.
    pub fn load_audio_stream(&mut self, url: &str) -> (accepted: bool)
        ensures
            accepted == device::secure_address(url@),
            (*final(self).context)@ == if device::secure_address(url@) {
                (*old(self).context)@.asking(
                    CommandModel::Device(
                        DeviceRequestModel::LoadAudio { source: AudioSourceModel::Stream(url@) },
                    ),
                )
            } else {
                (*old(self).context)@
            },
            *final(final(self).context) == *final(old(self).context),
    {
        if !is_secure_address(url) {
            return false;
        }
        self.context.queue(
            Command::Device(
                DeviceRequest::LoadAudio { source: AudioSource::Stream(url.to_owned()) },
            ),
        );
        true
    }

    pub fn play_audio(&mut self)
        ensures
            (*final(self).context)@ == (*old(self).context)@.asking(
                CommandModel::Device(DeviceRequestModel::PlayAudio),
            ),
            *final(final(self).context) == *final(old(self).context),
    {
        self.context.queue(Command::Device(DeviceRequest::PlayAudio));
    }

    pub fn pause_audio(&mut self)
        ensures
            (*final(self).context)@ == (*old(self).context)@.asking(
                CommandModel::Device(DeviceRequestModel::PauseAudio),
            ),
            *final(final(self).context) == *final(old(self).context),
    {
        self.context.queue(Command::Device(DeviceRequest::PauseAudio));
    }

    pub fn seek_audio(&mut self, position: Span)
        ensures
            (*final(self).context)@ == (*old(self).context)@.asking(
                CommandModel::Device(
                    DeviceRequestModel::SeekAudio { position_ms: span::at_most_u32(position.millis()) },
                ),
            ),
            *final(final(self).context) == *final(old(self).context),
    {
        self.context.queue(
            Command::Device(DeviceRequest::SeekAudio { position_ms: position.wire_millis() }),
        );
    }

    pub fn stop_audio(&mut self)
        ensures
            (*final(self).context)@ == (*old(self).context)@.asking(
                CommandModel::Device(DeviceRequestModel::StopAudio),
            ),
            *final(final(self).context) == *final(old(self).context),
    {
        self.context.queue(Command::Device(DeviceRequest::StopAudio));
    }

    pub fn set_audio_volume(&mut self, percent: u8)
        ensures
            (*final(self).context)@ == (*old(self).context)@.asking(
                CommandModel::Device(
                    DeviceRequestModel::SetAudioVolume { percent: share(percent) },
                ),
            ),
            *final(final(self).context) == *final(old(self).context),
    {
        self.context.queue(
            Command::Device(DeviceRequest::SetAudioVolume { percent: at_most_all(percent) }),
        );
    }

    /// Refused when there is no word, or the language is not a code.
    pub fn lookup_word(&mut self, word: &str, language: Option<&str>) -> (accepted: bool)
        ensures
            accepted == device::lookup_ok(word@, spoken(language)),
            (*final(self).context)@ == if device::lookup_ok(word@, spoken(language)) {
                (*old(self).context)@.asking(
                    CommandModel::Device(
                        DeviceRequestModel::LookupWord { word: word@, language: spoken(language) },
                    ),
                )
            } else {
                (*old(self).context)@
            },
            *final(final(self).context) == *final(old(self).context),
    {
        let ghost asked = spoken(language);
        let language = match language {
            None => None,
            Some(code) => Some(code.to_owned()),
        };
        assert(wire::model_of(language) == asked);
        if !is_lookup(word, &language) {
            return false;
        }
        self.context.queue(
            Command::Device(DeviceRequest::LookupWord { word: word.to_owned(), language }),
        );
        true
    }

    /// Refused when the download could not possibly verify: a plain address, or a
    /// string that is no digest.
    pub fn update(&mut self, url: &str, sha256: &str) -> (accepted: bool)
        ensures
            accepted == (device::secure_address(url@) && device::digest_ok(sha256@)),
            (*final(self).context)@ == if device::secure_address(url@)
                && device::digest_ok(sha256@) {
                (*old(self).context)@.asking(
                    CommandModel::Device(DeviceRequestModel::Update { url: url@, sha256: sha256@ }),
                )
            } else {
                (*old(self).context)@
            },
            *final(final(self).context) == *final(old(self).context),
    {
        if !(is_secure_address(url) && is_hex_digest(sha256)) {
            return false;
        }
        self.context.queue(
            Command::Device(
                DeviceRequest::Update { url: url.to_owned(), sha256: sha256.to_owned() },
            ),
        );
        true
    }
}

impl Context {
    pub fn device(&mut self) -> (handle: Device<'_>)
        ensures
            *handle.context == *old(self),
            *final(self) == *final(handle.context),
    {
        Device { context: self }
    }
}

/// What passes these checks passes the wire's: a request that was accepted here
/// is never refused for what it says when it is sent.
pub proof fn law_accepted_requests_are_sendable(
    first: Seq<char>,
    second: Seq<char>,
    language: Option<Seq<char>>,
)
    ensures
        device::app_id_ok(first) ==> device_request::device_request_refusal(
            DeviceRequestModel::InstallApp { id: first },
        ) is None && device_request::device_request_refusal(
            DeviceRequestModel::UninstallApp { id: first },
        ) is None,
        bluetooth_address_ok(first) ==> device_request::device_request_refusal(
            DeviceRequestModel::PairBluetooth { address: first },
        ) is None && device_request::device_request_refusal(
            DeviceRequestModel::ConnectBluetooth { address: first },
        ) is None && device_request::device_request_refusal(
            DeviceRequestModel::DisconnectBluetooth { address: first },
        ) is None && device_request::device_request_refusal(
            DeviceRequestModel::ForgetBluetooth { address: first },
        ) is None,
        device::wifi_credentials_ok(first, second) ==> device_request::device_request_refusal(
            DeviceRequestModel::JoinWifi { ssid: first, password: second },
        ) is None,
        store::key_ok(first) ==> device_request::device_request_refusal(
            DeviceRequestModel::LoadAudio { source: AudioSourceModel::Shelf(first) },
        ) is None,
        device::secure_address(first) ==> device_request::device_request_refusal(
            DeviceRequestModel::LoadAudio { source: AudioSourceModel::Stream(first) },
        ) is None,
        device::secure_address(first) && device::digest_ok(second)
            ==> device_request::device_request_refusal(
            DeviceRequestModel::Update { url: first, sha256: second },
        ) is None,
        device::lookup_ok(first, language) ==> device_request::device_request_refusal(
            DeviceRequestModel::LookupWord { word: first, language },
        ) is None,
{
    reveal(device_request::device_request_refusal);
    if bluetooth_address_ok(first) {
        assert forall|i: int| 0 <= i < first.len() implies '\0' <= #[trigger] first[i] <= '\u{7f}' by {
            if i % 3 == 2 {
                assert(first[i] == ':');
            } else {
                assert(is_hex(first[i]));
            }
        }
        is_ascii_chars_encode_utf8(first);
    }
}

} // verus!
