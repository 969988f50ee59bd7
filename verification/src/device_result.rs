//! Device results on the wire.

use vstd::prelude::*;

use crate::device;
use crate::device::{
    is_lookup, is_ssid, valid_app_id, AppInfo, AppInfoModel, AppLinkState, AppLinkStateModel,
    AudioPlaybackState,
    BatteryDetail, BatteryDetailModel, BluetoothDevice, BluetoothDeviceKind, BluetoothDeviceModel,
    DenyReason, DeviceError, DeviceResult, DeviceResultModel, DictionaryEntry,
    DictionaryEntryModel, RemoteInstallOutcome, RemoteInstallOutcomeModel, WifiNetwork,
    WifiNetworkModel,
};
use crate::device_request;
use crate::device_request::{
    optional_string, push_optional_string, radio_string, read_app_id, wifi_ssid,
};
use crate::error::ProtocolError;
use crate::glyph;
use crate::glyph::encode_glyph;
use crate::item;
use crate::item::{add_all_len, read_all, write_all, Wire};
use crate::leaf_codec;
use crate::limits::{
    MAX_APP_CAPABILITIES, MAX_APP_CATALOG_ENTRIES, MAX_DICTIONARY_ENTRIES, MAX_FRAME_LEN,
    MAX_RADIO_DEVICES, MAX_RADIO_NAME, MAX_STRING_LEN,
};
use crate::parts;
use crate::parts::read_glyph;
use crate::wire;
use crate::wire::{
    add_encoded_len, add_text_len, byte_len, half_bits, push_flag, push_text, push_u16, push_u32,
    push_u8, signed_half, signed_word, word_bits, Reader,
};

verus! {

// ---------------------------------------------------------------------------
// Two flags in one byte.

pub open spec fn flags_byte(first: bool, second: bool) -> u8 {
    match (first, second) {
        (false, false) => 0,
        (true, false) => 1,
        (false, true) => 2,
        (true, true) => 3,
    }
}

pub open spec fn parse_flags(s: Seq<u8>, name: &'static str) -> wire::Parsed<(bool, bool)> {
    match wire::parse_u8(s) {
        Err(e) => Err(e),
        Ok((flags, s)) => if flags > 3 {
            Err(ProtocolError::InvalidValue(name))
        } else {
            Ok(((flags == 1 || flags == 3, flags == 2 || flags == 3), s))
        },
    }
}

fn radio_flags(first: bool, second: bool) -> (byte: u8)
    ensures
        byte == flags_byte(first, second),
{
    if first {
        if second {
            3
        } else {
            1
        }
    } else if second {
        2
    } else {
        0
    }
}

fn read_flags(reader: &mut Reader<'_>, name: &'static str) -> (result: Result<
    (bool, bool),
    ProtocolError,
>)
    ensures
        wire::yields(result, final(reader)@, parse_flags(old(reader)@, name)),
{
    let flags: u8 = reader.u8()?;
    if flags > 3 {
        return Err(ProtocolError::InvalidValue(name));
    }
    Ok((flags == 1 || flags == 3, flags == 2 || flags == 3))
}

// ---------------------------------------------------------------------------
// Radio peers.

pub open spec fn device_ok(device: BluetoothDeviceModel) -> bool {
    wire::utf8_len(device.address) <= MAX_RADIO_NAME && wire::utf8_len(device.name)
        <= MAX_RADIO_NAME
}

impl Wire for BluetoothDevice {
    open spec fn bytes(model: BluetoothDeviceModel) -> Seq<u8> {
        wire::text_bytes(model.address) + wire::text_bytes(model.name) + seq![model.kind.tag()]
            + seq![flags_byte(model.paired, model.connected)]
    }

    open spec fn fits(model: BluetoothDeviceModel) -> bool {
        wire::text_fits(model.address) && wire::text_fits(model.name)
    }

    open spec fn grown(model: BluetoothDeviceModel, total: int) -> Result<int, ProtocolError> {
        wire::grown(
            wire::grown_text(wire::grown_text(Ok(total), model.address), model.name),
            2,
        )
    }

    open spec fn parse(s: Seq<u8>) -> wire::Parsed<BluetoothDeviceModel> {
        match device_request::parse_radio(s) {
            Err(e) => Err(e),
            Ok((address, s)) => match device_request::parse_radio(s) {
                Err(e) => Err(e),
                Ok((name, s)) => match wire::parse_u8(s) {
                    Err(e) => Err(e),
                    Ok((tag, s)) => match BluetoothDeviceKind::of_tag(tag) {
                        Err(e) => Err(e),
                        Ok(kind) => match parse_flags(s, "Bluetooth device flags") {
                            Err(e) => Err(e),
                            Ok(((paired, connected), s)) => Ok(
                                (
                                    BluetoothDeviceModel {
                                        address,
                                        name,
                                        kind,
                                        paired,
                                        connected,
                                    },
                                    s,
                                ),
                            ),
                        },
                    },
                },
            },
        }
    }

    open spec fn faithful(model: BluetoothDeviceModel) -> bool {
        device_ok(model)
    }

    proof fn lemma_counted(model: BluetoothDeviceModel, total: int) {
        broadcast use wire::group_lengths;

    }

    proof fn lemma_read_back(model: BluetoothDeviceModel, rest: Seq<u8>) {
        broadcast use wire::group_reading;

    }

    fn add_len(&self, total: usize) -> (result: Result<usize, ProtocolError>) {
        let mut so_far: usize = add_text_len(total, self.address.as_str())?;
        so_far = add_text_len(so_far, self.name.as_str())?;
        add_encoded_len(so_far, 2)
    }

    fn write(&self, output: &mut Vec<u8>) {
        broadcast use wire::group_writing;

        push_text(output, self.address.as_str());
        push_text(output, self.name.as_str());
        push_u8(output, self.kind.to_tag());
        push_u8(output, radio_flags(self.paired, self.connected));
    }

    fn read(reader: &mut Reader<'_>) -> (result: Result<Self, ProtocolError>) {
        let address = radio_string(reader)?;
        let name = radio_string(reader)?;
        let kind = BluetoothDeviceKind::from_tag(reader.u8()?)?;
        let (paired, connected) = read_flags(reader, "Bluetooth device flags")?;
        Ok(BluetoothDevice { address, name, kind, paired, connected })
    }
}

// ---------------------------------------------------------------------------
// Networks.

pub open spec fn network_ok(network: WifiNetworkModel) -> bool {
    device::sized(network.ssid, 32)
}

impl Wire for WifiNetwork {
    open spec fn bytes(model: WifiNetworkModel) -> Seq<u8> {
        wire::text_bytes(model.ssid) + wire::be16(wire::bits_of_i16(model.signal_dbm)) + seq![
            flags_byte(model.secured, model.connected),
        ]
    }

    open spec fn fits(model: WifiNetworkModel) -> bool {
        wire::text_fits(model.ssid)
    }

    open spec fn grown(model: WifiNetworkModel, total: int) -> Result<int, ProtocolError> {
        wire::grown(wire::grown_text(Ok(total), model.ssid), 3)
    }

    open spec fn parse(s: Seq<u8>) -> wire::Parsed<WifiNetworkModel> {
        match device_request::parse_ssid(s) {
            Err(e) => Err(e),
            Ok((ssid, s)) => match wire::parse_u16(s) {
                Err(e) => Err(e),
                Ok((bits, s)) => match parse_flags(s, "Wi-Fi network flags") {
                    Err(e) => Err(e),
                    Ok(((secured, connected), s)) => Ok(
                        (
                            WifiNetworkModel {
                                ssid,
                                signal_dbm: wire::i16_of_bits(bits),
                                secured,
                                connected,
                            },
                            s,
                        ),
                    ),
                },
            },
        }
    }

    open spec fn faithful(model: WifiNetworkModel) -> bool {
        network_ok(model)
    }

    proof fn lemma_counted(model: WifiNetworkModel, total: int) {
        broadcast use wire::group_lengths;

    }

    proof fn lemma_read_back(model: WifiNetworkModel, rest: Seq<u8>) {
        broadcast use wire::group_reading;

    }

    fn add_len(&self, total: usize) -> (result: Result<usize, ProtocolError>) {
        let so_far: usize = add_text_len(total, self.ssid.as_str())?;
        add_encoded_len(so_far, 3)
    }

    fn write(&self, output: &mut Vec<u8>) {
        broadcast use wire::group_writing;

        push_text(output, self.ssid.as_str());
        push_u16(output, half_bits(self.signal_dbm));
        push_u8(output, radio_flags(self.secured, self.connected));
    }

    fn read(reader: &mut Reader<'_>) -> (result: Result<Self, ProtocolError>) {
        let ssid = wifi_ssid(reader)?;
        let signal_dbm: i16 = signed_half(reader.u16()?);
        let (secured, connected) = read_flags(reader, "Wi-Fi network flags")?;
        Ok(WifiNetwork { ssid, signal_dbm, secured, connected })
    }
}

// ---------------------------------------------------------------------------
// Dictionary entries.

impl Wire for DictionaryEntry {
    open spec fn bytes(model: DictionaryEntryModel) -> Seq<u8> {
        wire::text_bytes(model.dictionary) + wire::text_bytes(model.language) + wire::text_bytes(
            model.headword,
        ) + wire::text_bytes(model.definition)
    }

    open spec fn fits(model: DictionaryEntryModel) -> bool {
        wire::text_fits(model.dictionary) && wire::text_fits(model.language) && wire::text_fits(
            model.headword,
        ) && wire::text_fits(model.definition)
    }

    open spec fn grown(model: DictionaryEntryModel, total: int) -> Result<int, ProtocolError> {
        wire::grown_text(
            wire::grown_text(
                wire::grown_text(wire::grown_text(Ok(total), model.dictionary), model.language),
                model.headword,
            ),
            model.definition,
        )
    }

    open spec fn parse(s: Seq<u8>) -> wire::Parsed<DictionaryEntryModel> {
        match wire::parse_text(s) {
            Err(e) => Err(e),
            Ok((dictionary, s)) => match wire::parse_text(s) {
                Err(e) => Err(e),
                Ok((language, s)) => match wire::parse_text(s) {
                    Err(e) => Err(e),
                    Ok((headword, s)) => match wire::parse_text(s) {
                        Err(e) => Err(e),
                        Ok((definition, s)) => {
                            let entry = DictionaryEntryModel {
                                dictionary,
                                language,
                                headword,
                                definition,
                            };
                            if device::dictionary_entry_ok(entry) {
                                Ok((entry, s))
                            } else {
                                Err(ProtocolError::InvalidValue("dictionary entry"))
                            }
                        },
                    },
                },
            },
        }
    }

    open spec fn faithful(model: DictionaryEntryModel) -> bool {
        device::dictionary_entry_ok(model)
    }

    proof fn lemma_counted(model: DictionaryEntryModel, total: int) {
        broadcast use wire::group_lengths;

    }

    proof fn lemma_read_back(model: DictionaryEntryModel, rest: Seq<u8>) {
        broadcast use wire::group_reading;

    }

    fn add_len(&self, total: usize) -> (result: Result<usize, ProtocolError>) {
        let mut so_far: usize = add_text_len(total, self.dictionary.as_str())?;
        so_far = add_text_len(so_far, self.language.as_str())?;
        so_far = add_text_len(so_far, self.headword.as_str())?;
        add_text_len(so_far, self.definition.as_str())
    }

    fn write(&self, output: &mut Vec<u8>) {
        broadcast use wire::group_writing;

        push_text(output, self.dictionary.as_str());
        push_text(output, self.language.as_str());
        push_text(output, self.headword.as_str());
        push_text(output, self.definition.as_str());
    }

    fn read(reader: &mut Reader<'_>) -> (result: Result<Self, ProtocolError>) {
        let dictionary = reader.string()?;
        let language = reader.string()?;
        let headword = reader.string()?;
        let definition = reader.string()?;
        let entry = DictionaryEntry { dictionary, language, headword, definition };
        if !entry.is_well_formed() {
            return Err(ProtocolError::InvalidValue("dictionary entry"));
        }
        Ok(entry)
    }
}

// ---------------------------------------------------------------------------
// Applications in the catalogue.

pub open spec fn parse_installed(s: Seq<u8>) -> wire::Parsed<Option<Seq<char>>> {
    match wire::parse_u8(s) {
        Err(e) => Err(e),
        Ok((flag, s)) => if flag == 0 {
            Ok((None, s))
        } else if flag == 1 {
            match wire::parse_text(s) {
                Err(e) => Err(e),
                Ok((version, s)) => Ok((Some(version), s)),
            }
        } else {
            Err(ProtocolError::InvalidValue("installed application flag"))
        },
    }
}

pub open spec fn parse_capabilities(s: Seq<u8>) -> wire::Parsed<Seq<Seq<char>>> {
    match wire::parse_u8(s) {
        Err(e) => Err(e),
        Ok((count, s)) => if count > MAX_APP_CAPABILITIES {
            Err(ProtocolError::InvalidValue("too many application capabilities"))
        } else {
            item::parse_all::<String>(s, count as nat)
        },
    }
}

impl Wire for AppInfo {
    open spec fn bytes(model: AppInfoModel) -> Seq<u8> {
        wire::text_bytes(model.id) + wire::text_bytes(model.title) + wire::text_bytes(model.label)
            + wire::text_bytes(model.summary) + wire::text_bytes(model.version) + seq![
            glyph::glyph_tag(model.glyph),
        ] + seq![model.capabilities.len() as u8] + item::bytes_of_all::<String>(model.capabilities)
            + device_request::option_bytes(model.installed_version)
    }

    open spec fn fits(model: AppInfoModel) -> bool {
        &&& wire::text_fits(model.id)
        &&& wire::text_fits(model.title)
        &&& wire::text_fits(model.label)
        &&& wire::text_fits(model.summary)
        &&& wire::text_fits(model.version)
        &&& model.capabilities.len() <= u8::MAX
        &&& item::all_fit::<String>(model.capabilities)
        &&& model.installed_version is Some ==> wire::text_fits(model.installed_version->0)
    }

    open spec fn grown(model: AppInfoModel, total: int) -> Result<int, ProtocolError> {
        let named = wire::grown_text(wire::grown_text(Ok(total), model.id), model.title);
        let told = wire::grown_text(wire::grown_text(named, model.label), model.summary);
        let marked = wire::grown(wire::grown_text(told, model.version), 2);
        let listed = if marked is Ok && model.capabilities.len() > u8::MAX {
            Err(ProtocolError::FrameTooLarge)
        } else {
            item::grown_by_all::<String>(model.capabilities, marked)
        };
        wire::grown_optional_text(wire::grown(listed, 1), model.installed_version)
    }

    open spec fn parse(s: Seq<u8>) -> wire::Parsed<AppInfoModel> {
        match wire::parse_text(s) {
            Err(e) => Err(e),
            Ok((id, s)) => match wire::parse_text(s) {
                Err(e) => Err(e),
                Ok((title, s)) => match wire::parse_text(s) {
                    Err(e) => Err(e),
                    Ok((label, s)) => match wire::parse_text(s) {
                        Err(e) => Err(e),
                        Ok((summary, s)) => match wire::parse_text(s) {
                            Err(e) => Err(e),
                            Ok((version, s)) => parse_rest_of_app_info(
                                id,
                                title,
                                label,
                                summary,
                                version,
                                s,
                            ),
                        },
                    },
                },
            },
        }
    }

    open spec fn faithful(model: AppInfoModel) -> bool {
        device::app_info_ok(model)
    }

    proof fn lemma_counted(model: AppInfoModel, total: int) {
        broadcast use wire::group_lengths;

        let named = wire::grown_text(wire::grown_text(Ok(total), model.id), model.title);
        let told = wire::grown_text(wire::grown_text(named, model.label), model.summary);
        let marked = wire::grown(wire::grown_text(told, model.version), 2);
        reveal_with_fuel(item::grown_by_all, 1);
        item::lemma_all_counted::<String>(model.capabilities, marked->Ok_0);
    }

    proof fn lemma_read_back(model: AppInfoModel, rest: Seq<u8>) {
        let last = device_request::option_bytes(model.installed_version) + rest;
        let after_count = item::bytes_of_all::<String>(model.capabilities) + last;
        let after_glyph = seq![model.capabilities.len() as u8] + after_count;
        let after_version = seq![glyph::glyph_tag(model.glyph)] + after_glyph;
        let after_summary = wire::text_bytes(model.version) + after_version;
        let after_label = wire::text_bytes(model.summary) + after_summary;
        let after_title = wire::text_bytes(model.label) + after_label;
        let after_id = wire::text_bytes(model.title) + after_title;
        assert(Self::bytes(model) + rest == wire::text_bytes(model.id) + after_id) by {
            broadcast use wire::lemma_concat_to_the_right;

        }
        wire::lemma_parse_text(model.id, after_id);
        wire::lemma_parse_text(model.title, after_title);
        wire::lemma_parse_text(model.label, after_label);
        wire::lemma_parse_text(model.summary, after_summary);
        wire::lemma_parse_text(model.version, after_version);
        wire::lemma_parse_u8(glyph::glyph_tag(model.glyph), after_glyph);
        glyph::lemma_glyph_read_back(model.glyph);
        wire::lemma_parse_u8(model.capabilities.len() as u8, after_count);
        item::lemma_all_read_back::<String>(model.capabilities, last);
        assert(parse_installed(last) == Ok::<_, ProtocolError>((model.installed_version, rest)))
            by {
            broadcast use wire::group_reading;

        }
    }

    fn add_len(&self, total: usize) -> (result: Result<usize, ProtocolError>) {
        let mut so_far: usize = add_text_len(total, self.id.as_str())?;
        so_far = add_text_len(so_far, self.title.as_str())?;
        so_far = add_text_len(so_far, self.label.as_str())?;
        so_far = add_text_len(so_far, self.summary.as_str())?;
        so_far = add_text_len(so_far, self.version.as_str())?;
        so_far = add_encoded_len(so_far, 2)?;
        if self.capabilities.len() > u8::MAX as usize {
            return Err(ProtocolError::FrameTooLarge);
        }
        so_far = add_all_len(&self.capabilities, so_far)?;
        so_far = add_encoded_len(so_far, 1)?;
        match &self.installed_version {
            None => Ok(so_far),
            Some(version) => add_text_len(so_far, version.as_str()),
        }
    }

    fn write(&self, output: &mut Vec<u8>) {
        broadcast use wire::group_writing;

        push_text(output, self.id.as_str());
        push_text(output, self.title.as_str());
        push_text(output, self.label.as_str());
        push_text(output, self.summary.as_str());
        push_text(output, self.version.as_str());
        push_u8(output, encode_glyph(self.glyph));
        push_u8(output, self.capabilities.len() as u8);
        write_all(output, &self.capabilities);
        push_optional_string(output, &self.installed_version);
    }

    fn read(reader: &mut Reader<'_>) -> (result: Result<Self, ProtocolError>) {
        let id = reader.string()?;
        let title = reader.string()?;
        let label = reader.string()?;
        let summary = reader.string()?;
        let version = reader.string()?;
        let glyph = read_glyph(reader, "application glyph")?;
        let count: u8 = reader.u8()?;
        if count as usize > MAX_APP_CAPABILITIES {
            return Err(ProtocolError::InvalidValue("too many application capabilities"));
        }
        let capabilities = read_all::<String>(reader, count as usize)?;
        let flag: u8 = reader.u8()?;
        let installed_version = match flag {
            0 => None,
            1 => Some(reader.string()?),
            _ => return Err(ProtocolError::InvalidValue("installed application flag")),
        };
        let entry = AppInfo {
            id,
            title,
            label,
            summary,
            version,
            glyph,
            capabilities,
            installed_version,
        };
        if !entry.is_well_formed() {
            return Err(ProtocolError::InvalidValue("application metadata"));
        }
        Ok(entry)
    }
}

pub open spec fn parse_rest_of_app_info(
    id: Seq<char>,
    title: Seq<char>,
    label: Seq<char>,
    summary: Seq<char>,
    version: Seq<char>,
    s: Seq<u8>,
) -> wire::Parsed<AppInfoModel> {
    match parts::parse_glyph(s, "application glyph") {
        Err(e) => Err(e),
        Ok((glyph, s)) => match parse_capabilities(s) {
            Err(e) => Err(e),
            Ok((capabilities, s)) => match parse_installed(s) {
                Err(e) => Err(e),
                Ok((installed_version, s)) => {
                    let entry = AppInfoModel {
                        id,
                        title,
                        label,
                        summary,
                        version,
                        glyph,
                        capabilities,
                        installed_version,
                    };
                    if device::app_info_ok(entry) {
                        Ok((entry, s))
                    } else {
                        Err(ProtocolError::InvalidValue("application metadata"))
                    }
                },
            },
        },
    }
}

// ---------------------------------------------------------------------------
// What the gauge says. A number keeps its place when it is missing.

pub open spec fn share_bytes(value: Option<u8>) -> Seq<u8> {
    match value {
        None => seq![0u8] + seq![0u8],
        Some(value) => seq![1u8] + seq![value],
    }
}

pub open spec fn reading_bytes(value: Option<i32>) -> Seq<u8> {
    match value {
        None => seq![0u8] + wire::be32(0),
        Some(value) => seq![1u8] + wire::be32(wire::bits_of_i32(value)),
    }
}

pub open spec fn parse_share(s: Seq<u8>) -> wire::Parsed<Option<u8>> {
    match wire::parse_flag(s, "optional field flag") {
        Err(e) => Err(e),
        Ok((present, s)) => match wire::parse_u8(s) {
            Err(e) => Err(e),
            Ok((value, s)) => if !present {
                Ok((None, s))
            } else if value > 100 {
                Err(ProtocolError::InvalidValue("battery percent"))
            } else {
                Ok((Some(value), s))
            },
        },
    }
}

pub open spec fn parse_reading(s: Seq<u8>) -> wire::Parsed<Option<i32>> {
    match wire::parse_flag(s, "optional field flag") {
        Err(e) => Err(e),
        Ok((present, s)) => match wire::parse_u32(s) {
            Err(e) => Err(e),
            Ok((bits, s)) => if present {
                Ok((Some(wire::i32_of_bits(bits)), s))
            } else {
                Ok((None, s))
            },
        },
    }
}

#[verifier::opaque]
pub open spec fn detail_bytes(detail: BatteryDetailModel) -> Seq<u8> {
    share_bytes(detail.percent) + device_request::option_bytes(detail.status)
        + device_request::option_bytes(detail.health) + device_request::option_bytes(
        detail.technology,
    ) + reading_bytes(detail.decidegrees) + reading_bytes(detail.microvolts) + reading_bytes(
        detail.microamps,
    ) + reading_bytes(detail.charge_now) + reading_bytes(detail.charge_full) + reading_bytes(
        detail.charge_full_design,
    )
}

pub open spec fn detail_fits(detail: BatteryDetailModel) -> bool {
    &&& detail.status is Some ==> wire::text_fits(detail.status->0)
    &&& detail.health is Some ==> wire::text_fits(detail.health->0)
    &&& detail.technology is Some ==> wire::text_fits(detail.technology->0)
}

/// The six numbers of a gauge, in the order they are sent.
pub open spec fn parse_readings(s: Seq<u8>) -> wire::Parsed<Seq<Option<i32>>> {
    match parse_reading(s) {
        Err(e) => Err(e),
        Ok((a, s)) => match parse_reading(s) {
            Err(e) => Err(e),
            Ok((b, s)) => match parse_reading(s) {
                Err(e) => Err(e),
                Ok((c, s)) => match parse_reading(s) {
                    Err(e) => Err(e),
                    Ok((d, s)) => match parse_reading(s) {
                        Err(e) => Err(e),
                        Ok((f, s)) => match parse_reading(s) {
                            Err(e) => Err(e),
                            Ok((g, s)) => Ok((seq![a, b, c, d, f, g], s)),
                        },
                    },
                },
            },
        },
    }
}

#[verifier::opaque]
pub open spec fn parse_detail(s: Seq<u8>) -> wire::Parsed<BatteryDetailModel> {
    match parse_share(s) {
        Err(e) => Err(e),
        Ok((percent, s)) => match device_request::parse_option(s) {
            Err(e) => Err(e),
            Ok((status, s)) => match device_request::parse_option(s) {
                Err(e) => Err(e),
                Ok((health, s)) => match device_request::parse_option(s) {
                    Err(e) => Err(e),
                    Ok((technology, s)) => match parse_readings(s) {
                        Err(e) => Err(e),
                        Ok((numbers, s)) => Ok(
                            (
                                BatteryDetailModel {
                                    percent,
                                    status,
                                    health,
                                    technology,
                                    decidegrees: numbers[0],
                                    microvolts: numbers[1],
                                    microamps: numbers[2],
                                    charge_now: numbers[3],
                                    charge_full: numbers[4],
                                    charge_full_design: numbers[5],
                                },
                                s,
                            ),
                        ),
                    },
                },
            },
        },
    }
}

proof fn lemma_detail_short(detail: BatteryDetailModel)
    requires
        detail_fits(detail),
    ensures
        detail_bytes(detail).len() <= 32 + 3 * (3 + MAX_STRING_LEN),
{
    broadcast use wire::group_lengths;

    reveal(detail_bytes);
}

proof fn lemma_reading_read_back(value: Option<i32>, rest: Seq<u8>)
    ensures
        parse_reading(reading_bytes(value) + rest) == Ok::<_, ProtocolError>((value, rest)),
{
    broadcast use wire::group_reading;

}

proof fn lemma_option_read_back(text: Option<Seq<char>>, rest: Seq<u8>)
    requires
        text is Some ==> wire::text_fits(text->0),
    ensures
        device_request::parse_option(device_request::option_bytes(text) + rest) == Ok::<
            _,
            ProtocolError,
        >((text, rest)),
{
    broadcast use wire::group_reading;

}

proof fn lemma_detail_read_back(detail: BatteryDetailModel, rest: Seq<u8>)
    requires
        detail_fits(detail),
        detail.percent is Some ==> detail.percent->0 <= 100,
    ensures
        parse_detail(detail_bytes(detail) + rest) == Ok::<_, ProtocolError>((detail, rest)),
{
    reveal(parse_detail);
    let after_full = reading_bytes(detail.charge_full_design) + rest;
    let after_now = reading_bytes(detail.charge_full) + after_full;
    let after_amps = reading_bytes(detail.charge_now) + after_now;
    let after_volts = reading_bytes(detail.microamps) + after_amps;
    let after_degrees = reading_bytes(detail.microvolts) + after_volts;
    let after_technology = reading_bytes(detail.decidegrees) + after_degrees;
    let after_health = device_request::option_bytes(detail.technology) + after_technology;
    let after_status = device_request::option_bytes(detail.health) + after_health;
    let after_percent = device_request::option_bytes(detail.status) + after_status;
    assert(detail_bytes(detail) + rest == share_bytes(detail.percent) + after_percent) by {
        reveal(detail_bytes);
        broadcast use wire::lemma_concat_to_the_right;

    }
    assert(parse_share(share_bytes(detail.percent) + after_percent) == Ok::<_, ProtocolError>(
        (detail.percent, after_percent),
    )) by {
        broadcast use wire::group_reading;

    }
    lemma_option_read_back(detail.status, after_status);
    lemma_option_read_back(detail.health, after_health);
    lemma_option_read_back(detail.technology, after_technology);
    lemma_reading_read_back(detail.decidegrees, after_degrees);
    lemma_reading_read_back(detail.microvolts, after_volts);
    lemma_reading_read_back(detail.microamps, after_amps);
    lemma_reading_read_back(detail.charge_now, after_now);
    lemma_reading_read_back(detail.charge_full, after_full);
    lemma_reading_read_back(detail.charge_full_design, rest);
}

fn push_reading(output: &mut Vec<u8>, value: Option<i32>)
    ensures
        final(output)@ == old(output)@ + reading_bytes(value),
{
    broadcast use wire::group_writing;

    match value {
        None => {
            push_u8(output, 0);
            push_u32(output, 0);
        },
        Some(value) => {
            push_u8(output, 1);
            push_u32(output, word_bits(value));
        },
    }
}

fn read_reading(reader: &mut Reader<'_>) -> (result: Result<Option<i32>, ProtocolError>)
    ensures
        wire::yields(result, final(reader)@, parse_reading(old(reader)@)),
{
    let present = reader.flag("optional field flag")?;
    let bits: u32 = reader.u32()?;
    if present {
        Ok(Some(signed_word(bits)))
    } else {
        Ok(None)
    }
}

fn absent_or_short(text: &Option<String>) -> (short: bool)
    ensures
        short == (text is Some ==> wire::text_fits(text->0@)),
{
    match text {
        None => true,
        Some(text) => byte_len(text.as_str()) <= MAX_STRING_LEN,
    }
}

fn push_battery_detail(output: &mut Vec<u8>, detail: &BatteryDetail)
    requires
        detail_fits(detail@),
    ensures
        final(output)@ == old(output)@ + detail_bytes(detail@),
{
    broadcast use wire::group_writing;

    reveal(detail_bytes);
    match detail.percent {
        None => {
            push_u8(output, 0);
            push_u8(output, 0);
        },
        Some(percent) => {
            push_u8(output, 1);
            push_u8(output, percent);
        },
    }
    push_optional_string(output, &detail.status);
    push_optional_string(output, &detail.health);
    push_optional_string(output, &detail.technology);
    push_reading(output, detail.decidegrees);
    push_reading(output, detail.microvolts);
    push_reading(output, detail.microamps);
    push_reading(output, detail.charge_now);
    push_reading(output, detail.charge_full);
    push_reading(output, detail.charge_full_design);
}

fn read_share(reader: &mut Reader<'_>) -> (result: Result<Option<u8>, ProtocolError>)
    ensures
        wire::yields(result, final(reader)@, parse_share(old(reader)@)),
{
    let present = reader.flag("optional field flag")?;
    let value: u8 = reader.u8()?;
    if !present {
        Ok(None)
    } else if value > 100 {
        Err(ProtocolError::InvalidValue("battery percent"))
    } else {
        Ok(Some(value))
    }
}

fn battery_detail(reader: &mut Reader<'_>) -> (result: Result<BatteryDetail, ProtocolError>)
    ensures
        wire::reads(result, final(reader)@, parse_detail(old(reader)@)),
{
    reveal(parse_detail);
    let percent = read_share(reader)?;
    let status = optional_string(reader)?;
    let health = optional_string(reader)?;
    let technology = optional_string(reader)?;
    let decidegrees = read_reading(reader)?;
    let microvolts = read_reading(reader)?;
    let microamps = read_reading(reader)?;
    let charge_now = read_reading(reader)?;
    let charge_full = read_reading(reader)?;
    let charge_full_design = read_reading(reader)?;
    Ok(
        BatteryDetail {
            percent,
            status,
            health,
            technology,
            decidegrees,
            microvolts,
            microamps,
            charge_now,
            charge_full,
            charge_full_design,
        },
    )
}

// ---------------------------------------------------------------------------
// Lists that can be sent.

/// Whether every peer can be named.
pub open spec fn devices_ok_spec(list: Seq<BluetoothDeviceModel>) -> bool {
    forall|i: int| 0 <= i < list.len() ==> device_ok(#[trigger] list[i])
}

/// Whether every network can be named.
pub open spec fn networks_ok_spec(list: Seq<WifiNetworkModel>) -> bool {
    forall|i: int| 0 <= i < list.len() ==> network_ok(#[trigger] list[i])
}

/// Whether every definition can be shown.
pub open spec fn entries_ok_spec(list: Seq<DictionaryEntryModel>) -> bool {
    forall|i: int| 0 <= i < list.len() ==> device::dictionary_entry_ok(#[trigger] list[i])
}

/// Whether every application can be shown.
pub open spec fn apps_ok_spec(list: Seq<AppInfoModel>) -> bool {
    forall|i: int| 0 <= i < list.len() ==> device::app_info_ok(#[trigger] list[i])
}

fn devices_ok(list: &Vec<BluetoothDevice>) -> (ok: bool)
    ensures
        ok == devices_ok_spec(item::models(list@)),
{
    let mut index: usize = 0;
    while index < list.len()
        invariant
            index <= list@.len(),
            forall|i: int| 0 <= i < index ==> device_ok(#[trigger] item::models(list@)[i]),
        decreases list@.len() - index,
    {
        if !(byte_len(list[index].address.as_str()) <= MAX_RADIO_NAME && byte_len(
            list[index].name.as_str(),
        ) <= MAX_RADIO_NAME) {
            assert(!device_ok(item::models(list@)[index as int]));
            return false;
        }
        index = index + 1;
    }
    true
}

fn networks_ok(list: &Vec<WifiNetwork>) -> (ok: bool)
    ensures
        ok == networks_ok_spec(item::models(list@)),
{
    let mut index: usize = 0;
    while index < list.len()
        invariant
            index <= list@.len(),
            forall|i: int| 0 <= i < index ==> network_ok(#[trigger] item::models(list@)[i]),
        decreases list@.len() - index,
    {
        if !is_ssid(list[index].ssid.as_str()) {
            assert(!network_ok(item::models(list@)[index as int]));
            return false;
        }
        index = index + 1;
    }
    true
}

fn entries_ok(list: &Vec<DictionaryEntry>) -> (ok: bool)
    ensures
        ok == entries_ok_spec(item::models(list@)),
{
    let mut index: usize = 0;
    while index < list.len()
        invariant
            index <= list@.len(),
            forall|i: int| 0 <= i < index ==>
                device::dictionary_entry_ok(#[trigger] item::models(list@)[i]),
        decreases list@.len() - index,
    {
        if !list[index].is_well_formed() {
            assert(!device::dictionary_entry_ok(item::models(list@)[index as int]));
            return false;
        }
        index = index + 1;
    }
    true
}

fn apps_ok(list: &Vec<AppInfo>) -> (ok: bool)
    ensures
        ok == apps_ok_spec(item::models(list@)),
{
    let mut index: usize = 0;
    while index < list.len()
        invariant
            index <= list@.len(),
            forall|i: int| 0 <= i < index ==>
                device::app_info_ok(#[trigger] item::models(list@)[i]),
        decreases list@.len() - index,
    {
        if !list[index].is_well_formed() {
            assert(!device::app_info_ok(item::models(list@)[index as int]));
            return false;
        }
        index = index + 1;
    }
    true
}

// ---------------------------------------------------------------------------
// Pairing, and what a browser sent.

pub open spec fn link_bytes(state: AppLinkStateModel) -> Seq<u8> {
    match state {
        AppLinkStateModel::Unpaired => seq![1u8],
        AppLinkStateModel::Pairing { code, url, expires_in } => seq![2u8] + wire::text_bytes(code)
            + wire::text_bytes(url) + wire::be32(expires_in),
        AppLinkStateModel::Paired { browsers } => seq![3u8] + seq![browsers],
    }
}

pub open spec fn parse_any_link(s: Seq<u8>) -> wire::Parsed<AppLinkStateModel> {
    match wire::parse_u8(s) {
        Err(e) => Err(e),
        Ok((tag, s)) => if tag == 1 {
            Ok((AppLinkStateModel::Unpaired, s))
        } else if tag == 2 {
            match wire::parse_text(s) {
                Err(e) => Err(e),
                Ok((code, s)) => match wire::parse_text(s) {
                    Err(e) => Err(e),
                    Ok((url, s)) => match wire::parse_u32(s) {
                        Err(e) => Err(e),
                        Ok((expires_in, s)) => Ok(
                            (AppLinkStateModel::Pairing { code, url, expires_in }, s),
                        ),
                    },
                },
            }
        } else if tag == 3 {
            match wire::parse_u8(s) {
                Err(e) => Err(e),
                Ok((browsers, s)) => Ok((AppLinkStateModel::Paired { browsers }, s)),
            }
        } else {
            Err(ProtocolError::InvalidValue("application link"))
        },
    }
}

pub open spec fn parse_link(s: Seq<u8>) -> wire::Parsed<AppLinkStateModel> {
    match parse_any_link(s) {
        Err(e) => Err(e),
        Ok((state, s)) => if device::app_link_ok(state) {
            Ok((state, s))
        } else {
            Err(ProtocolError::InvalidValue("application link"))
        },
    }
}

pub open spec fn remote_id(outcome: RemoteInstallOutcomeModel) -> Option<Seq<char>> {
    match outcome {
        RemoteInstallOutcomeModel::Nothing => None,
        RemoteInstallOutcomeModel::Installed { id } => Some(id),
        RemoteInstallOutcomeModel::Updated { id } => Some(id),
        RemoteInstallOutcomeModel::AlreadyInstalled { id } => Some(id),
        RemoteInstallOutcomeModel::Included { id } => Some(id),
        RemoteInstallOutcomeModel::Unavailable { id } => Some(id),
    }
}

pub open spec fn remote_tag(outcome: RemoteInstallOutcomeModel) -> u8 {
    match outcome {
        RemoteInstallOutcomeModel::Nothing => 1,
        RemoteInstallOutcomeModel::Installed { id } => 2,
        RemoteInstallOutcomeModel::Updated { id } => 3,
        RemoteInstallOutcomeModel::AlreadyInstalled { id } => 4,
        RemoteInstallOutcomeModel::Included { id } => 5,
        RemoteInstallOutcomeModel::Unavailable { id } => 6,
    }
}

pub open spec fn remote_bytes(outcome: RemoteInstallOutcomeModel) -> Seq<u8> {
    match remote_id(outcome) {
        None => seq![remote_tag(outcome)],
        Some(id) => seq![remote_tag(outcome)] + wire::text_bytes(id),
    }
}

pub open spec fn remote_ok(outcome: RemoteInstallOutcomeModel) -> bool {
    match remote_id(outcome) {
        None => true,
        Some(id) => device::app_id_ok(id),
    }
}

pub open spec fn parse_remote(s: Seq<u8>) -> wire::Parsed<RemoteInstallOutcomeModel> {
    match wire::parse_u8(s) {
        Err(e) => Err(e),
        Ok((tag, s)) => if tag == 1 {
            Ok((RemoteInstallOutcomeModel::Nothing, s))
        } else if 2 <= tag <= 6 {
            match device_request::parse_app_id(s) {
                Err(e) => Err(e),
                Ok((id, s)) => Ok(
                    (
                        if tag == 2 {
                            RemoteInstallOutcomeModel::Installed { id }
                        } else if tag == 3 {
                            RemoteInstallOutcomeModel::Updated { id }
                        } else if tag == 4 {
                            RemoteInstallOutcomeModel::AlreadyInstalled { id }
                        } else if tag == 5 {
                            RemoteInstallOutcomeModel::Included { id }
                        } else {
                            RemoteInstallOutcomeModel::Unavailable { id }
                        },
                        s,
                    ),
                ),
            }
        } else {
            Err(ProtocolError::InvalidValue("remote install outcome"))
        },
    }
}

fn encode_app_link(output: &mut Vec<u8>, state: &AppLinkState)
    requires
        device::app_link_ok(state@),
    ensures
        final(output)@ == old(output)@ + link_bytes(state@),
{
    broadcast use wire::group_writing;

    match state {
        AppLinkState::Unpaired => push_u8(output, 1),
        AppLinkState::Pairing { code, url, expires_in } => {
            push_u8(output, 2);
            push_text(output, code.as_str());
            push_text(output, url.as_str());
            push_u32(output, *expires_in);
        },
        AppLinkState::Paired { browsers } => {
            push_u8(output, 3);
            push_u8(output, *browsers);
        },
    }
}

fn decode_app_link(reader: &mut Reader<'_>) -> (result: Result<AppLinkState, ProtocolError>)
    ensures
        wire::reads(result, final(reader)@, parse_link(old(reader)@)),
{
    let tag: u8 = reader.u8()?;
    let state = match tag {
        1 => AppLinkState::Unpaired,
        2 => {
            let code = reader.string()?;
            let url = reader.string()?;
            let expires_in: u32 = reader.u32()?;
            AppLinkState::Pairing { code, url, expires_in }
        },
        3 => {
            let browsers: u8 = reader.u8()?;
            AppLinkState::Paired { browsers }
        },
        _ => return Err(ProtocolError::InvalidValue("application link")),
    };
    if !state.is_well_formed() {
        return Err(ProtocolError::InvalidValue("application link"));
    }
    Ok(state)
}

fn encode_remote_install(output: &mut Vec<u8>, outcome: &RemoteInstallOutcome) -> (result: Result<
    (),
    ProtocolError,
>)
    ensures
        leaf_codec::writes(
            result,
            old(output)@,
            final(output)@,
            if remote_ok(outcome@) {
                None
            } else {
                Some(ProtocolError::InvalidValue("application id"))
            },
            remote_bytes(outcome@),
        ),
{
    broadcast use wire::group_writing;

    let (tag, id): (u8, &String) = match outcome {
        RemoteInstallOutcome::Nothing => {
            push_u8(output, 1);
            return Ok(());
        },
        RemoteInstallOutcome::Installed { id } => (2, id),
        RemoteInstallOutcome::Updated { id } => (3, id),
        RemoteInstallOutcome::AlreadyInstalled { id } => (4, id),
        RemoteInstallOutcome::Included { id } => (5, id),
        RemoteInstallOutcome::Unavailable { id } => (6, id),
    };
    if !valid_app_id(id.as_str()) {
        return Err(ProtocolError::InvalidValue("application id"));
    }
    push_u8(output, tag);
    push_text(output, id.as_str());
    Ok(())
}

fn decode_remote_install(reader: &mut Reader<'_>) -> (result: Result<
    RemoteInstallOutcome,
    ProtocolError,
>)
    ensures
        wire::reads(result, final(reader)@, parse_remote(old(reader)@)),
{
    let tag: u8 = reader.u8()?;
    if tag == 1 {
        return Ok(RemoteInstallOutcome::Nothing);
    }
    if tag < 2 || tag > 6 {
        return Err(ProtocolError::InvalidValue("remote install outcome"));
    }
    let id = read_app_id(reader)?;
    Ok(
        match tag {
            2 => RemoteInstallOutcome::Installed { id },
            3 => RemoteInstallOutcome::Updated { id },
            4 => RemoteInstallOutcome::AlreadyInstalled { id },
            5 => RemoteInstallOutcome::Included { id },
            _ => RemoteInstallOutcome::Unavailable { id },
        },
    )
}

// ---------------------------------------------------------------------------
// Results.

#[verifier::opaque]
pub open spec fn device_result_bytes(result: DeviceResultModel) -> Seq<u8> {
    match result {
        DeviceResultModel::Done => seq![1u8],
        DeviceResultModel::Granted { seconds } => seq![2u8] + wire::be32(seconds),
        DeviceResultModel::Battery { percent, charging } => seq![3u8] + seq![percent] + seq![
            wire::flag_byte(charging),
        ],
        DeviceResultModel::Frontlight { percent } => seq![4u8] + seq![percent],
        DeviceResultModel::Denied(reason) => seq![5u8] + seq![reason.tag()],
        DeviceResultModel::Bluetooth { available, enabled, devices, restart_on_exit } => seq![6u8]
            + seq![flags_byte(available, enabled)] + seq![devices.len() as u8]
            + item::bytes_of_all::<BluetoothDevice>(devices) + seq![
            wire::flag_byte(restart_on_exit),
        ],
        DeviceResultModel::Wifi { available, enabled, connected_ssid, networks } => seq![7u8]
            + seq![flags_byte(available, enabled)] + device_request::option_bytes(connected_ssid)
            + seq![networks.len() as u8] + item::bytes_of_all::<WifiNetwork>(networks),
        DeviceResultModel::Failed(error) => seq![8u8] + seq![error.tag()],
        DeviceResultModel::Audio { available, state, position_ms, duration_ms, volume } => seq![9u8]
            + seq![wire::flag_byte(available)] + seq![state.tag()] + wire::be32(position_ms)
            + wire::be32(duration_ms) + seq![volume],
        DeviceResultModel::BatteryDetail(detail) => seq![10u8] + detail_bytes(detail),
        DeviceResultModel::Cover { available, magnet_present } => seq![11u8] + seq![
            wire::flag_byte(available),
        ] + seq![wire::flag_byte(magnet_present)],
        DeviceResultModel::Apps { entries } => seq![12u8] + wire::be16(entries.len() as u16)
            + item::bytes_of_all::<AppInfo>(entries),
        DeviceResultModel::Dictionary { word, entries } => seq![13u8] + wire::text_bytes(word)
            + seq![entries.len() as u8] + item::bytes_of_all::<DictionaryEntry>(entries),
        DeviceResultModel::AppLink(state) => seq![14u8] + link_bytes(state),
        DeviceResultModel::RemoteInstall(outcome) => seq![15u8] + remote_bytes(outcome),
    }
}

/// Why a result cannot be sent.
#[verifier::opaque]
pub open spec fn device_result_refusal(result: DeviceResultModel) -> Option<ProtocolError> {
    match result {
        DeviceResultModel::BatteryDetail(detail) => if detail_fits(detail) {
            None
        } else {
            Some(ProtocolError::StringTooLarge)
        },
        DeviceResultModel::Bluetooth {
            available,
            enabled,
            devices,
            restart_on_exit,
        } => if devices.len()
            > MAX_RADIO_DEVICES {
            Some(ProtocolError::InvalidValue("too many Bluetooth devices"))
        } else if !devices_ok_spec(devices) {
            Some(ProtocolError::InvalidValue("radio string"))
        } else {
            None
        },
        DeviceResultModel::Wifi {
            available,
            enabled,
            connected_ssid,
            networks,
        } => if networks.len()
            > MAX_RADIO_DEVICES {
            Some(ProtocolError::InvalidValue("too many Wi-Fi networks"))
        } else if connected_ssid is Some && !device::sized(connected_ssid->0, 32) {
            Some(ProtocolError::InvalidValue("Wi-Fi SSID"))
        } else if !networks_ok_spec(networks) {
            Some(ProtocolError::InvalidValue("Wi-Fi SSID"))
        } else {
            None
        },
        DeviceResultModel::Audio { available, state, position_ms, duration_ms, volume } => if volume
            > 100 {
            Some(ProtocolError::InvalidValue("audio volume"))
        } else {
            None
        },
        DeviceResultModel::Apps { entries } => if entries.len() > MAX_APP_CATALOG_ENTRIES {
            Some(ProtocolError::InvalidValue("too many applications"))
        } else if !apps_ok_spec(entries) {
            Some(ProtocolError::InvalidValue("application metadata"))
        } else {
            None
        },
        DeviceResultModel::Dictionary { word, entries } => if !device::lookup_ok(word, None) {
            Some(ProtocolError::InvalidValue("dictionary lookup"))
        } else if entries.len() > MAX_DICTIONARY_ENTRIES {
            Some(ProtocolError::InvalidValue("too many dictionary entries"))
        } else if !entries_ok_spec(entries) {
            Some(ProtocolError::InvalidValue("dictionary entry"))
        } else {
            None
        },
        DeviceResultModel::AppLink(state) => if device::app_link_ok(state) {
            None
        } else {
            Some(ProtocolError::InvalidValue("application link"))
        },
        DeviceResultModel::RemoteInstall(outcome) => if remote_ok(outcome) {
            None
        } else {
            Some(ProtocolError::InvalidValue("application id"))
        },
        _ => None,
    }
}

/// Whether a result says nothing that reading would refuse: no share above a
/// hundred, and no place past the end of what is playing.
pub open spec fn device_result_faithful(result: DeviceResultModel) -> bool {
    match result {
        DeviceResultModel::Battery { percent, charging } => percent <= 100,
        DeviceResultModel::Frontlight { percent } => percent <= 100,
        DeviceResultModel::BatteryDetail(detail) => detail.percent is Some ==> detail.percent->0
            <= 100,
        DeviceResultModel::Audio { available, state, position_ms, duration_ms, volume } =>
            position_ms <= duration_ms || duration_ms == 0,
        _ => true,
    }
}

pub open spec fn parse_battery(s: Seq<u8>) -> wire::Parsed<DeviceResultModel> {
    match wire::parse_u8(s) {
        Err(e) => Err(e),
        Ok((percent, s)) => if percent > 100 {
            Err(ProtocolError::InvalidValue("battery percent"))
        } else {
            match wire::parse_flag(s, "charging flag") {
                Err(e) => Err(e),
                Ok((charging, s)) => Ok((DeviceResultModel::Battery { percent, charging }, s)),
            }
        },
    }
}

pub open spec fn parse_cover(s: Seq<u8>) -> wire::Parsed<DeviceResultModel> {
    match wire::parse_flag(s, "cover sensor available") {
        Err(e) => Err(e),
        Ok((available, s)) => match wire::parse_flag(s, "cover magnet present") {
            Err(e) => Err(e),
            Ok((magnet_present, s)) => Ok(
                (DeviceResultModel::Cover { available, magnet_present }, s),
            ),
        },
    }
}

pub open spec fn parse_bluetooth(s: Seq<u8>) -> wire::Parsed<DeviceResultModel> {
    match parse_flags(s, "Bluetooth state flags") {
        Err(e) => Err(e),
        Ok(((available, enabled), s)) => match wire::parse_u8(s) {
            Err(e) => Err(e),
            Ok((count, s)) => if count > MAX_RADIO_DEVICES {
                Err(ProtocolError::InvalidValue("too many Bluetooth devices"))
            } else {
                match item::parse_all::<BluetoothDevice>(s, count as nat) {
                    Err(e) => Err(e),
                    Ok((devices, s)) => match wire::parse_flag(s, "Bluetooth restart flag") {
                        Err(e) => Err(e),
                        Ok((restart_on_exit, s)) => Ok(
                            (
                                DeviceResultModel::Bluetooth {
                                    available,
                                    enabled,
                                    devices,
                                    restart_on_exit,
                                },
                                s,
                            ),
                        ),
                    },
                }
            },
        },
    }
}

pub open spec fn parse_connected(s: Seq<u8>) -> wire::Parsed<Option<Seq<char>>> {
    match wire::parse_u8(s) {
        Err(e) => Err(e),
        Ok((flag, s)) => if flag == 0 {
            Ok((None, s))
        } else if flag == 1 {
            match device_request::parse_ssid(s) {
                Err(e) => Err(e),
                Ok((ssid, s)) => Ok((Some(ssid), s)),
            }
        } else {
            Err(ProtocolError::InvalidValue("Wi-Fi connection flag"))
        },
    }
}

pub open spec fn parse_wifi(s: Seq<u8>) -> wire::Parsed<DeviceResultModel> {
    match parse_flags(s, "Wi-Fi state flags") {
        Err(e) => Err(e),
        Ok(((available, enabled), s)) => match parse_connected(s) {
            Err(e) => Err(e),
            Ok((connected_ssid, s)) => match wire::parse_u8(s) {
                Err(e) => Err(e),
                Ok((count, s)) => if count > MAX_RADIO_DEVICES {
                    Err(ProtocolError::InvalidValue("too many Wi-Fi networks"))
                } else {
                    match item::parse_all::<WifiNetwork>(s, count as nat) {
                        Err(e) => Err(e),
                        Ok((networks, s)) => Ok(
                            (
                                DeviceResultModel::Wifi {
                                    available,
                                    enabled,
                                    connected_ssid,
                                    networks,
                                },
                                s,
                            ),
                        ),
                    }
                },
            },
        },
    }
}

pub open spec fn parse_audio(s: Seq<u8>) -> wire::Parsed<DeviceResultModel> {
    match wire::parse_flag(s, "audio available") {
        Err(e) => Err(e),
        Ok((available, s)) => match wire::parse_u8(s) {
            Err(e) => Err(e),
            Ok((tag, s)) => match AudioPlaybackState::of_tag(tag) {
                Err(e) => Err(e),
                Ok(state) => match wire::parse_u32(s) {
                    Err(e) => Err(e),
                    Ok((position_ms, s)) => match wire::parse_u32(s) {
                        Err(e) => Err(e),
                        Ok((duration_ms, s)) => match wire::parse_u8(s) {
                            Err(e) => Err(e),
                            Ok((volume, s)) => if volume > 100 || (position_ms > duration_ms
                                && duration_ms != 0) {
                                Err(ProtocolError::InvalidValue("audio state"))
                            } else {
                                Ok(
                                    (
                                        DeviceResultModel::Audio {
                                            available,
                                            state,
                                            position_ms,
                                            duration_ms,
                                            volume,
                                        },
                                        s,
                                    ),
                                )
                            },
                        },
                    },
                },
            },
        },
    }
}

pub open spec fn parse_apps(s: Seq<u8>) -> wire::Parsed<DeviceResultModel> {
    match wire::parse_u16(s) {
        Err(e) => Err(e),
        Ok((count, s)) => if count > MAX_APP_CATALOG_ENTRIES {
            Err(ProtocolError::InvalidValue("too many applications"))
        } else {
            match item::parse_all::<AppInfo>(s, count as nat) {
                Err(e) => Err(e),
                Ok((entries, s)) => Ok((DeviceResultModel::Apps { entries }, s)),
            }
        },
    }
}

pub open spec fn parse_dictionary(s: Seq<u8>) -> wire::Parsed<DeviceResultModel> {
    match wire::parse_text(s) {
        Err(e) => Err(e),
        Ok((word, s)) => if !device::lookup_ok(word, None) {
            Err(ProtocolError::InvalidValue("dictionary lookup"))
        } else {
            match wire::parse_u8(s) {
                Err(e) => Err(e),
                Ok((count, s)) => if count > MAX_DICTIONARY_ENTRIES {
                    Err(ProtocolError::InvalidValue("too many dictionary entries"))
                } else {
                    match item::parse_all::<DictionaryEntry>(s, count as nat) {
                        Err(e) => Err(e),
                        Ok((entries, s)) => Ok(
                            (DeviceResultModel::Dictionary { word, entries }, s),
                        ),
                    }
                },
            }
        },
    }
}

#[verifier::opaque]
pub open spec fn parse_device_result(s: Seq<u8>) -> wire::Parsed<DeviceResultModel> {
    match wire::parse_u8(s) {
        Err(e) => Err(e),
        Ok((tag, s)) => if tag == 1 {
            Ok((DeviceResultModel::Done, s))
        } else if tag == 2 {
            match wire::parse_u32(s) {
                Err(e) => Err(e),
                Ok((seconds, s)) => Ok((DeviceResultModel::Granted { seconds }, s)),
            }
        } else if tag == 3 {
            parse_battery(s)
        } else if tag == 4 {
            match wire::parse_u8(s) {
                Err(e) => Err(e),
                Ok((percent, s)) => if percent > 100 {
                    Err(ProtocolError::InvalidValue("frontlight percent"))
                } else {
                    Ok((DeviceResultModel::Frontlight { percent }, s))
                },
            }
        } else if tag == 5 {
            match wire::parse_u8(s) {
                Err(e) => Err(e),
                Ok((tag, s)) => match DenyReason::of_tag(tag) {
                    Err(e) => Err(e),
                    Ok(reason) => Ok((DeviceResultModel::Denied(reason), s)),
                },
            }
        } else if tag == 6 {
            parse_bluetooth(s)
        } else if tag == 7 {
            parse_wifi(s)
        } else if tag == 8 {
            match wire::parse_u8(s) {
                Err(e) => Err(e),
                Ok((tag, s)) => match DeviceError::of_tag(tag) {
                    Err(e) => Err(e),
                    Ok(error) => Ok((DeviceResultModel::Failed(error), s)),
                },
            }
        } else if tag == 9 {
            parse_audio(s)
        } else if tag == 10 {
            match parse_detail(s) {
                Err(e) => Err(e),
                Ok((detail, s)) => Ok((DeviceResultModel::BatteryDetail(detail), s)),
            }
        } else if tag == 11 {
            parse_cover(s)
        } else if tag == 12 {
            parse_apps(s)
        } else if tag == 13 {
            parse_dictionary(s)
        } else if tag == 14 {
            match parse_link(s) {
                Err(e) => Err(e),
                Ok((state, s)) => Ok((DeviceResultModel::AppLink(state), s)),
            }
        } else if tag == 15 {
            match parse_remote(s) {
                Err(e) => Err(e),
                Ok((outcome, s)) => Ok((DeviceResultModel::RemoteInstall(outcome), s)),
            }
        } else {
            Err(ProtocolError::InvalidValue("device result"))
        },
    }
}

// ---------------------------------------------------------------------------
// A result that can be sent is short.

/// A run of short items is short.
proof fn lemma_all_short<T: Wire>(list: Seq<T::V>, limit: int)
    requires
        limit >= 0,
        forall|i: int| 0 <= i < list.len() ==> T::bytes(#[trigger] list[i]).len() <= limit,
    ensures
        item::bytes_of_all::<T>(list).len() <= limit * list.len(),
    decreases list.len(),
{
    if list.len() > 0 {
        let tail = list.drop_first();
        assert forall|i: int| 0 <= i < tail.len() implies T::bytes(#[trigger] tail[i]).len()
            <= limit by {
            assert(tail[i] == list[i + 1]);
        }
        lemma_all_short::<T>(tail, limit);
        assert(limit * list.len() == limit * tail.len() + limit) by (nonlinear_arith)
            requires
                list.len() == tail.len() + 1,
        ;
    }
}

proof fn lemma_app_info_short(entry: AppInfoModel)
    requires
        device::app_info_ok(entry),
    ensures
        AppInfo::bytes(entry).len() <= 2048,
{
    broadcast use wire::group_lengths;

    let capabilities = entry.capabilities;
    assert forall|i: int| 0 <= i < capabilities.len() implies String::bytes(
        #[trigger] capabilities[i],
    ).len() <= 34 by {
        assert(device::sized(capabilities[i], 32));
    }
    lemma_all_short::<String>(capabilities, 34);
}

/// What can be sent of a list fits.
proof fn lemma_lists_fit(result: DeviceResultModel)
    requires
        device_result_refusal(result) is None,
    ensures
        match result {
            DeviceResultModel::Bluetooth { available, enabled, devices, restart_on_exit } =>
                item::all_fit::<BluetoothDevice>(devices) && item::all_faithful::<
                    BluetoothDevice,
                >(devices),
            DeviceResultModel::Wifi { available, enabled, connected_ssid, networks } =>
                item::all_fit::<WifiNetwork>(networks) && item::all_faithful::<WifiNetwork>(
                    networks,
                ),
            DeviceResultModel::Apps { entries } => item::all_fit::<AppInfo>(entries)
                && item::all_faithful::<AppInfo>(entries),
            DeviceResultModel::Dictionary { word, entries } => item::all_fit::<DictionaryEntry>(
                entries,
            ) && item::all_faithful::<DictionaryEntry>(entries),
            _ => true,
        },
{
    reveal(device_result_refusal);
    match result {
        DeviceResultModel::Bluetooth { available, enabled, devices, restart_on_exit } => {
            assert forall|i: int| 0 <= i < devices.len() implies BluetoothDevice::fits(
                #[trigger] devices[i],
            ) by {
                assert(device_ok(devices[i]));
            }
        },
        DeviceResultModel::Wifi { available, enabled, connected_ssid, networks } => {
            assert forall|i: int| 0 <= i < networks.len() implies WifiNetwork::fits(
                #[trigger] networks[i],
            ) by {
                assert(network_ok(networks[i]));
            }
        },
        DeviceResultModel::Apps { entries } => {
            assert forall|i: int| 0 <= i < entries.len() implies AppInfo::fits(
                #[trigger] entries[i],
            ) by {
                assert(device::app_info_ok(entries[i]));
                let capabilities = entries[i].capabilities;
                assert forall|j: int| 0 <= j < capabilities.len() implies String::fits(
                    #[trigger] capabilities[j],
                ) by {
                    assert(device::sized(capabilities[j], 32));
                }
            }
        },
        DeviceResultModel::Dictionary { word, entries } => {
            assert forall|i: int| 0 <= i < entries.len() implies DictionaryEntry::fits(
                #[trigger] entries[i],
            ) by {
                assert(device::dictionary_entry_ok(entries[i]));
            }
        },
        _ => {},
    }
}

pub proof fn lemma_device_result_short(result: DeviceResultModel)
    requires
        device_result_refusal(result) is None,
    ensures
        0 < device_result_bytes(result).len() <= MAX_FRAME_LEN,
{
    broadcast use wire::group_lengths;

    reveal(device_result_bytes);
    reveal(device_result_refusal);
    match result {
        DeviceResultModel::BatteryDetail(detail) => lemma_detail_short(detail),
        DeviceResultModel::Bluetooth { available, enabled, devices, restart_on_exit } => {
            assert forall|i: int| 0 <= i < devices.len() implies BluetoothDevice::bytes(
                #[trigger] devices[i],
            ).len() <= 256 by {
                assert(device_ok(devices[i]));
            }
            lemma_all_short::<BluetoothDevice>(devices, 256);
        },
        DeviceResultModel::Wifi { available, enabled, connected_ssid, networks } => {
            assert forall|i: int| 0 <= i < networks.len() implies WifiNetwork::bytes(
                #[trigger] networks[i],
            ).len() <= 256 by {
                assert(network_ok(networks[i]));
            }
            lemma_all_short::<WifiNetwork>(networks, 256);
        },
        DeviceResultModel::Apps { entries } => {
            assert forall|i: int| 0 <= i < entries.len() implies AppInfo::bytes(
                #[trigger] entries[i],
            ).len() <= 2048 by {
                assert(device::app_info_ok(entries[i]));
                lemma_app_info_short(entries[i]);
            }
            lemma_all_short::<AppInfo>(entries, 2048);
        },
        DeviceResultModel::Dictionary { word, entries } => {
            assert forall|i: int| 0 <= i < entries.len() implies DictionaryEntry::bytes(
                #[trigger] entries[i],
            ).len() <= 8192 by {
                assert(device::dictionary_entry_ok(entries[i]));
            }
            lemma_all_short::<DictionaryEntry>(entries, 8192);
        },
        _ => {},
    }
}

// ---------------------------------------------------------------------------
// Reading gives back what was written.

proof fn lemma_bluetooth_read_back(result: DeviceResultModel, rest: Seq<u8>)
    requires
        result is Bluetooth,
        device_result_refusal(result) is None,
    ensures
        parse_device_result(device_result_bytes(result) + rest) == Ok::<_, ProtocolError>(
            (result, rest),
        ),
{
    lemma_lists_fit(result);
    reveal(device_result_bytes);
    reveal(device_result_refusal);
    reveal(parse_device_result);
    if let DeviceResultModel::Bluetooth { available, enabled, devices, restart_on_exit } = result {
        let last = seq![wire::flag_byte(restart_on_exit)] + rest;
        item::lemma_all_read_back::<BluetoothDevice>(devices, last);
        let list = item::bytes_of_all::<BluetoothDevice>(devices) + last;
        let counted = seq![devices.len() as u8] + list;
        let flagged = seq![flags_byte(available, enabled)] + counted;
        assert(device_result_bytes(result) + rest == seq![6u8] + flagged) by {
            broadcast use wire::lemma_concat_to_the_right;

        }
        wire::lemma_parse_u8(6u8, flagged);
        wire::lemma_parse_u8(flags_byte(available, enabled), counted);
        wire::lemma_parse_u8(devices.len() as u8, list);
        wire::lemma_parse_u8(wire::flag_byte(restart_on_exit), rest);
    }
}

proof fn lemma_wifi_read_back(result: DeviceResultModel, rest: Seq<u8>)
    requires
        result is Wifi,
        device_result_refusal(result) is None,
    ensures
        parse_device_result(device_result_bytes(result) + rest) == Ok::<_, ProtocolError>(
            (result, rest),
        ),
{
    lemma_lists_fit(result);
    reveal(device_result_bytes);
    reveal(device_result_refusal);
    reveal(parse_device_result);
    if let DeviceResultModel::Wifi { available, enabled, connected_ssid, networks } = result {
        item::lemma_all_read_back::<WifiNetwork>(networks, rest);
        let list = item::bytes_of_all::<WifiNetwork>(networks) + rest;
        let counted = seq![networks.len() as u8] + list;
        let connected = device_request::option_bytes(connected_ssid) + counted;
        let flagged = seq![flags_byte(available, enabled)] + connected;
        assert(device_result_bytes(result) + rest == seq![7u8] + flagged) by {
            broadcast use wire::lemma_concat_to_the_right;

        }
        wire::lemma_parse_u8(7u8, flagged);
        wire::lemma_parse_u8(flags_byte(available, enabled), connected);
        assert(parse_connected(connected) == Ok::<_, ProtocolError>((connected_ssid, counted))) by {
            broadcast use wire::group_reading;

        }
        wire::lemma_parse_u8(networks.len() as u8, list);
    }
}

proof fn lemma_apps_read_back(result: DeviceResultModel, rest: Seq<u8>)
    requires
        result is Apps,
        device_result_refusal(result) is None,
    ensures
        parse_device_result(device_result_bytes(result) + rest) == Ok::<_, ProtocolError>(
            (result, rest),
        ),
{
    lemma_lists_fit(result);
    reveal(device_result_bytes);
    reveal(device_result_refusal);
    reveal(parse_device_result);
    if let DeviceResultModel::Apps { entries } = result {
        item::lemma_all_read_back::<AppInfo>(entries, rest);
        let list = item::bytes_of_all::<AppInfo>(entries) + rest;
        let counted = wire::be16(entries.len() as u16) + list;
        assert(device_result_bytes(result) + rest == seq![12u8] + counted) by {
            broadcast use wire::lemma_concat_to_the_right;

        }
        wire::lemma_parse_u8(12u8, counted);
        wire::lemma_parse_u16(entries.len() as u16, list);
    }
}

proof fn lemma_dictionary_read_back(result: DeviceResultModel, rest: Seq<u8>)
    requires
        result is Dictionary,
        device_result_refusal(result) is None,
    ensures
        parse_device_result(device_result_bytes(result) + rest) == Ok::<_, ProtocolError>(
            (result, rest),
        ),
{
    lemma_lists_fit(result);
    reveal(device_result_bytes);
    reveal(device_result_refusal);
    reveal(parse_device_result);
    if let DeviceResultModel::Dictionary { word, entries } = result {
        item::lemma_all_read_back::<DictionaryEntry>(entries, rest);
        let list = item::bytes_of_all::<DictionaryEntry>(entries) + rest;
        let counted = seq![entries.len() as u8] + list;
        let worded = wire::text_bytes(word) + counted;
        assert(device_result_bytes(result) + rest == seq![13u8] + worded) by {
            broadcast use wire::lemma_concat_to_the_right;

        }
        wire::lemma_parse_u8(13u8, worded);
        wire::lemma_parse_text(word, counted);
        wire::lemma_parse_u8(entries.len() as u8, list);
    }
}

/// A result that can be sent and says nothing out of range is read back as it
/// was.
#[verifier::rlimit(40)]
pub proof fn lemma_device_result_read_back(result: DeviceResultModel, rest: Seq<u8>)
    requires
        device_result_refusal(result) is None,
        device_result_faithful(result),
    ensures
        parse_device_result(device_result_bytes(result) + rest) == Ok::<_, ProtocolError>(
            (result, rest),
        ),
{
    match result {
        DeviceResultModel::Bluetooth { .. } => lemma_bluetooth_read_back(result, rest),
        DeviceResultModel::Wifi { .. } => lemma_wifi_read_back(result, rest),
        DeviceResultModel::Apps { .. } => lemma_apps_read_back(result, rest),
        DeviceResultModel::Dictionary { .. } => lemma_dictionary_read_back(result, rest),
        _ => {
            broadcast use wire::group_reading;

            reveal(device_result_bytes);
            reveal(device_result_refusal);
            reveal(parse_device_result);
            if let DeviceResultModel::BatteryDetail(detail) = result {
                lemma_detail_read_back(detail, rest);
            }
        },
    }
}

// ---------------------------------------------------------------------------
// Writing and reading.

/// Writes a result with a list in it.
fn encode_listing(output: &mut Vec<u8>, answer: &DeviceResult) -> (result: Result<
    (),
    ProtocolError,
>)
    requires
        answer@ is Bluetooth || answer@ is Wifi || answer@ is Apps || answer@ is Dictionary,
    ensures
        leaf_codec::writes(
            result,
            old(output)@,
            final(output)@,
            device_result_refusal(answer@),
            device_result_bytes(answer@),
        ),
        refused_unwritten(answer@) ==> final(output)@ == old(output)@,
{
    broadcast use wire::group_writing;

    reveal(device_result_bytes);
    proof {
        if device_result_refusal(answer@) is None {
            lemma_lists_fit(answer@);
        }
    }
    reveal(device_result_refusal);
    match answer {
        DeviceResult::Bluetooth { available, enabled, devices, restart_on_exit } => {
            if devices.len() > MAX_RADIO_DEVICES {
                return Err(ProtocolError::InvalidValue("too many Bluetooth devices"));
            }
            if !devices_ok(devices) {
                return Err(ProtocolError::InvalidValue("radio string"));
            }
            push_u8(output, 6);
            push_u8(output, radio_flags(*available, *enabled));
            push_u8(output, devices.len() as u8);
            write_all(output, devices);
            push_flag(output, *restart_on_exit);
        },
        DeviceResult::Wifi { available, enabled, connected_ssid, networks } => {
            if networks.len() > MAX_RADIO_DEVICES {
                return Err(ProtocolError::InvalidValue("too many Wi-Fi networks"));
            }
            if let Some(ssid) = connected_ssid {
                if !is_ssid(ssid.as_str()) {
                    return Err(ProtocolError::InvalidValue("Wi-Fi SSID"));
                }
            }
            if !networks_ok(networks) {
                return Err(ProtocolError::InvalidValue("Wi-Fi SSID"));
            }
            push_u8(output, 7);
            push_u8(output, radio_flags(*available, *enabled));
            push_optional_string(output, connected_ssid);
            push_u8(output, networks.len() as u8);
            write_all(output, networks);
        },
        DeviceResult::Apps { entries } => {
            if entries.len() > MAX_APP_CATALOG_ENTRIES {
                return Err(ProtocolError::InvalidValue("too many applications"));
            }
            if !apps_ok(entries) {
                return Err(ProtocolError::InvalidValue("application metadata"));
            }
            push_u8(output, 12);
            push_u16(output, entries.len() as u16);
            write_all(output, entries);
        },
        DeviceResult::Dictionary { word, entries } => {
            if !is_lookup(word.as_str(), &None) {
                return Err(ProtocolError::InvalidValue("dictionary lookup"));
            }
            if entries.len() > MAX_DICTIONARY_ENTRIES {
                return Err(ProtocolError::InvalidValue("too many dictionary entries"));
            }
            if !entries_ok(entries) {
                return Err(ProtocolError::InvalidValue("dictionary entry"));
            }
            push_u8(output, 13);
            push_text(output, word.as_str());
            push_u8(output, entries.len() as u8);
            write_all(output, entries);
        },
        _ => {},
    }
    Ok(())
}

/// Whether a result is refused for what stands at its head, before a byte of
/// it is written.
pub open spec fn refused_unwritten(result: DeviceResultModel) -> bool {
    match result {
        DeviceResultModel::Bluetooth { available, enabled, devices, restart_on_exit } =>
            devices.len() > MAX_RADIO_DEVICES,
        DeviceResultModel::Wifi { available, enabled, connected_ssid, networks } =>
            networks.len() > MAX_RADIO_DEVICES,
        DeviceResultModel::Audio { available, state, position_ms, duration_ms, volume } => volume
            > 100,
        DeviceResultModel::Apps { entries } => entries.len() > MAX_APP_CATALOG_ENTRIES,
        DeviceResultModel::Dictionary { word, entries } => !device::lookup_ok(word, None)
            || entries.len() > MAX_DICTIONARY_ENTRIES,
        _ => false,
    }
}

/// Writes a result, refusing one that the other side would not take.
pub fn encode_device_result(output: &mut Vec<u8>, answer: &DeviceResult) -> (result: Result<
    (),
    ProtocolError,
>)
    ensures
        leaf_codec::writes(
            result,
            old(output)@,
            final(output)@,
            device_result_refusal(answer@),
            device_result_bytes(answer@),
        ),
        refused_unwritten(answer@) ==> final(output)@ == old(output)@,
{
    broadcast use wire::group_writing;

    reveal(device_result_bytes);
    reveal(device_result_refusal);
    match answer {
        DeviceResult::Done => push_u8(output, 1),
        DeviceResult::Granted { seconds } => {
            push_u8(output, 2);
            push_u32(output, *seconds);
        },
        DeviceResult::Battery { percent, charging } => {
            push_u8(output, 3);
            push_u8(output, *percent);
            push_flag(output, *charging);
        },
        DeviceResult::BatteryDetail(detail) => {
            if !absent_or_short(&detail.status) || !absent_or_short(&detail.health)
                || !absent_or_short(&detail.technology) {
                return Err(ProtocolError::StringTooLarge);
            }
            push_u8(output, 10);
            push_battery_detail(output, detail);
        },
        DeviceResult::Cover { available, magnet_present } => {
            push_u8(output, 11);
            push_flag(output, *available);
            push_flag(output, *magnet_present);
        },
        DeviceResult::Frontlight { percent } => {
            push_u8(output, 4);
            push_u8(output, *percent);
        },
        DeviceResult::Denied(reason) => {
            push_u8(output, 5);
            push_u8(output, reason.to_tag());
        },
        DeviceResult::Failed(error) => {
            push_u8(output, 8);
            push_u8(output, error.to_tag());
        },
        DeviceResult::Audio { available, state, position_ms, duration_ms, volume } => {
            if *volume > 100 {
                return Err(ProtocolError::InvalidValue("audio volume"));
            }
            push_u8(output, 9);
            push_flag(output, *available);
            push_u8(output, state.to_tag());
            push_u32(output, *position_ms);
            push_u32(output, *duration_ms);
            push_u8(output, *volume);
        },
        DeviceResult::AppLink(state) => {
            if !state.is_well_formed() {
                return Err(ProtocolError::InvalidValue("application link"));
            }
            push_u8(output, 14);
            encode_app_link(output, state);
        },
        DeviceResult::RemoteInstall(outcome) => {
            push_u8(output, 15);
            encode_remote_install(output, outcome)?;
        },
        DeviceResult::Bluetooth { .. }
        | DeviceResult::Wifi { .. }
        | DeviceResult::Apps { .. }
        | DeviceResult::Dictionary { .. } => return encode_listing(output, answer),
    }
    Ok(())
}

/// The length of a result, or why it cannot be sent.
pub open spec fn device_result_size(result: DeviceResultModel) -> Result<int, ProtocolError> {
    match device_result_refusal(result) {
        Some(e) => Err(e),
        None => Ok(device_result_bytes(result).len() as int),
    }
}

pub fn device_result_len(answer: &DeviceResult) -> (result: Result<usize, ProtocolError>)
    ensures
        wire::counts(result, device_result_size(answer@)),
{
    let mut encoded: Vec<u8> = Vec::new();
    encode_device_result(&mut encoded, answer)?;
    proof {
        lemma_device_result_short(answer@);
        assert(encoded@ =~= device_result_bytes(answer@));
    }
    Ok(encoded.len())
}

fn read_bluetooth(reader: &mut Reader<'_>) -> (result: Result<DeviceResult, ProtocolError>)
    ensures
        wire::reads(result, final(reader)@, parse_bluetooth(old(reader)@)),
{
    let (available, enabled) = read_flags(reader, "Bluetooth state flags")?;
    let count: u8 = reader.u8()?;
    if count as usize > MAX_RADIO_DEVICES {
        return Err(ProtocolError::InvalidValue("too many Bluetooth devices"));
    }
    let devices = read_all::<BluetoothDevice>(reader, count as usize)?;
    let restart_on_exit = reader.flag("Bluetooth restart flag")?;
    Ok(DeviceResult::Bluetooth { available, enabled, devices, restart_on_exit })
}

fn read_wifi(reader: &mut Reader<'_>) -> (result: Result<DeviceResult, ProtocolError>)
    ensures
        wire::reads(result, final(reader)@, parse_wifi(old(reader)@)),
{
    let (available, enabled) = read_flags(reader, "Wi-Fi state flags")?;
    let flag: u8 = reader.u8()?;
    let connected_ssid = match flag {
        0 => None,
        1 => Some(wifi_ssid(reader)?),
        _ => return Err(ProtocolError::InvalidValue("Wi-Fi connection flag")),
    };
    let count: u8 = reader.u8()?;
    if count as usize > MAX_RADIO_DEVICES {
        return Err(ProtocolError::InvalidValue("too many Wi-Fi networks"));
    }
    let networks = read_all::<WifiNetwork>(reader, count as usize)?;
    Ok(DeviceResult::Wifi { available, enabled, connected_ssid, networks })
}

fn decode_audio_result(reader: &mut Reader<'_>) -> (result: Result<DeviceResult, ProtocolError>)
    ensures
        wire::reads(result, final(reader)@, parse_audio(old(reader)@)),
{
    let available = reader.flag("audio available")?;
    let state = AudioPlaybackState::from_tag(reader.u8()?)?;
    let position_ms: u32 = reader.u32()?;
    let duration_ms: u32 = reader.u32()?;
    let volume: u8 = reader.u8()?;
    if volume > 100 || (position_ms > duration_ms && duration_ms != 0) {
        return Err(ProtocolError::InvalidValue("audio state"));
    }
    Ok(DeviceResult::Audio { available, state, position_ms, duration_ms, volume })
}

fn decode_apps_result(reader: &mut Reader<'_>) -> (result: Result<DeviceResult, ProtocolError>)
    ensures
        wire::reads(result, final(reader)@, parse_apps(old(reader)@)),
{
    let count: u16 = reader.u16()?;
    if count as usize > MAX_APP_CATALOG_ENTRIES {
        return Err(ProtocolError::InvalidValue("too many applications"));
    }
    let entries = read_all::<AppInfo>(reader, count as usize)?;
    Ok(DeviceResult::Apps { entries })
}

fn decode_dictionary_result(reader: &mut Reader<'_>) -> (result: Result<
    DeviceResult,
    ProtocolError,
>)
    ensures
        wire::reads(result, final(reader)@, parse_dictionary(old(reader)@)),
{
    let word = reader.string()?;
    if !is_lookup(word.as_str(), &None) {
        return Err(ProtocolError::InvalidValue("dictionary lookup"));
    }
    let count: u8 = reader.u8()?;
    if count as usize > MAX_DICTIONARY_ENTRIES {
        return Err(ProtocolError::InvalidValue("too many dictionary entries"));
    }
    let entries = read_all::<DictionaryEntry>(reader, count as usize)?;
    Ok(DeviceResult::Dictionary { word, entries })
}

/// Reads a result.
pub fn decode_device_result(reader: &mut Reader<'_>) -> (result: Result<
    DeviceResult,
    ProtocolError,
>)
    ensures
        wire::reads(result, final(reader)@, parse_device_result(old(reader)@)),
{
    reveal(parse_device_result);
    let tag: u8 = reader.u8()?;
    match tag {
        1 => Ok(DeviceResult::Done),
        2 => {
            let seconds: u32 = reader.u32()?;
            Ok(DeviceResult::Granted { seconds })
        },
        3 => {
            let percent: u8 = reader.u8()?;
            if percent > 100 {
                return Err(ProtocolError::InvalidValue("battery percent"));
            }
            let charging = reader.flag("charging flag")?;
            Ok(DeviceResult::Battery { percent, charging })
        },
        4 => {
            let percent: u8 = reader.u8()?;
            if percent > 100 {
                return Err(ProtocolError::InvalidValue("frontlight percent"));
            }
            Ok(DeviceResult::Frontlight { percent })
        },
        5 => {
            let reason = DenyReason::from_tag(reader.u8()?)?;
            Ok(DeviceResult::Denied(reason))
        },
        6 => read_bluetooth(reader),
        7 => read_wifi(reader),
        8 => {
            let error = DeviceError::from_tag(reader.u8()?)?;
            Ok(DeviceResult::Failed(error))
        },
        9 => decode_audio_result(reader),
        10 => {
            let detail = battery_detail(reader)?;
            Ok(DeviceResult::BatteryDetail(detail))
        },
        11 => {
            let available = reader.flag("cover sensor available")?;
            let magnet_present = reader.flag("cover magnet present")?;
            Ok(DeviceResult::Cover { available, magnet_present })
        },
        12 => decode_apps_result(reader),
        13 => decode_dictionary_result(reader),
        14 => {
            let state = decode_app_link(reader)?;
            Ok(DeviceResult::AppLink(state))
        },
        15 => {
            let outcome = decode_remote_install(reader)?;
            Ok(DeviceResult::RemoteInstall(outcome))
        },
        _ => Err(ProtocolError::InvalidValue("device result")),
    }
}

} // verus!
