//! What an application asks of the reader it runs on, and what it is told.

use vstd::prelude::*;

use crate::error::ProtocolError;
use crate::glyph::Glyph;
use crate::item;
use crate::limits::{
    MAX_APP_CAPABILITIES, MAX_APP_ID_LEN, MAX_APP_LINK_BROWSERS, MAX_APP_LINK_EXPIRES_IN,
    MAX_APP_VERSION_LEN, MAX_DICTIONARY_DEFINITION_BYTES, MAX_LOOKUP_WORD_BYTES, MAX_URL_LEN,
};
use crate::text;
use crate::text::{begins_with, drawn_from, says_nothing, Alphabet};
use crate::wire;
use crate::wire::byte_len;

verus! {

/// Where a player stands.
#[derive(Clone, Copy, Debug, PartialEq, Eq, Structural)]
pub enum AudioPlaybackState {
    Idle,
    Loading,
    Ready,
    Playing,
    Paused,
    Finished,
}

impl AudioPlaybackState {
    pub open spec fn tag(self) -> u8 {
        match self {
            AudioPlaybackState::Idle => 1,
            AudioPlaybackState::Loading => 2,
            AudioPlaybackState::Ready => 3,
            AudioPlaybackState::Playing => 4,
            AudioPlaybackState::Paused => 5,
            AudioPlaybackState::Finished => 6,
        }
    }

    /// What a tag means.
    pub open spec fn of_tag(tag: u8) -> Result<AudioPlaybackState, ProtocolError> {
        if tag == 1 {
            Ok(AudioPlaybackState::Idle)
        } else if tag == 2 {
            Ok(AudioPlaybackState::Loading)
        } else if tag == 3 {
            Ok(AudioPlaybackState::Ready)
        } else if tag == 4 {
            Ok(AudioPlaybackState::Playing)
        } else if tag == 5 {
            Ok(AudioPlaybackState::Paused)
        } else if tag == 6 {
            Ok(AudioPlaybackState::Finished)
        } else {
            Err(ProtocolError::InvalidValue("audio playback state"))
        }
    }

    pub fn to_tag(self) -> (tag: u8)
        ensures
            tag == self.tag(),
    {
        match self {
            AudioPlaybackState::Idle => 1,
            AudioPlaybackState::Loading => 2,
            AudioPlaybackState::Ready => 3,
            AudioPlaybackState::Playing => 4,
            AudioPlaybackState::Paused => 5,
            AudioPlaybackState::Finished => 6,
        }
    }

    pub fn from_tag(tag: u8) -> (result: Result<AudioPlaybackState, ProtocolError>)
        ensures
            result == Self::of_tag(tag),
    {
        match tag {
            1 => Ok(AudioPlaybackState::Idle),
            2 => Ok(AudioPlaybackState::Loading),
            3 => Ok(AudioPlaybackState::Ready),
            4 => Ok(AudioPlaybackState::Playing),
            5 => Ok(AudioPlaybackState::Paused),
            6 => Ok(AudioPlaybackState::Finished),
            _ => Err(ProtocolError::InvalidValue("audio playback state")),
        }
    }
}

impl TryFrom<u8> for AudioPlaybackState {
    type Error = ProtocolError;

    fn try_from(tag: u8) -> (result: Result<AudioPlaybackState, ProtocolError>) {
        AudioPlaybackState::from_tag(tag)
    }
}

impl vstd::std_specs::convert::TryFromSpecImpl<u8> for AudioPlaybackState {
    open spec fn obeys_try_from_spec() -> bool {
        true
    }

    open spec fn try_from_spec(tag: u8) -> Result<AudioPlaybackState, ProtocolError> {
        AudioPlaybackState::of_tag(tag)
    }
}

/// What a radio peer is for.
#[derive(Clone, Copy, Debug, PartialEq, Eq, Structural)]
pub enum BluetoothDeviceKind {
    Audio,
    Keyboard,
    Input,
    Other,
}

impl BluetoothDeviceKind {
    pub open spec fn tag(self) -> u8 {
        match self {
            BluetoothDeviceKind::Audio => 1,
            BluetoothDeviceKind::Keyboard => 2,
            BluetoothDeviceKind::Input => 3,
            BluetoothDeviceKind::Other => 4,
        }
    }

    /// What a tag means.
    pub open spec fn of_tag(tag: u8) -> Result<BluetoothDeviceKind, ProtocolError> {
        if tag == 1 {
            Ok(BluetoothDeviceKind::Audio)
        } else if tag == 2 {
            Ok(BluetoothDeviceKind::Keyboard)
        } else if tag == 3 {
            Ok(BluetoothDeviceKind::Input)
        } else if tag == 4 {
            Ok(BluetoothDeviceKind::Other)
        } else {
            Err(ProtocolError::InvalidValue("Bluetooth device kind"))
        }
    }

    pub fn to_tag(self) -> (tag: u8)
        ensures
            tag == self.tag(),
    {
        match self {
            BluetoothDeviceKind::Audio => 1,
            BluetoothDeviceKind::Keyboard => 2,
            BluetoothDeviceKind::Input => 3,
            BluetoothDeviceKind::Other => 4,
        }
    }

    pub fn from_tag(tag: u8) -> (result: Result<BluetoothDeviceKind, ProtocolError>)
        ensures
            result == Self::of_tag(tag),
    {
        match tag {
            1 => Ok(BluetoothDeviceKind::Audio),
            2 => Ok(BluetoothDeviceKind::Keyboard),
            3 => Ok(BluetoothDeviceKind::Input),
            4 => Ok(BluetoothDeviceKind::Other),
            _ => Err(ProtocolError::InvalidValue("Bluetooth device kind")),
        }
    }
}

impl TryFrom<u8> for BluetoothDeviceKind {
    type Error = ProtocolError;

    fn try_from(tag: u8) -> (result: Result<BluetoothDeviceKind, ProtocolError>) {
        BluetoothDeviceKind::from_tag(tag)
    }
}

impl vstd::std_specs::convert::TryFromSpecImpl<u8> for BluetoothDeviceKind {
    open spec fn obeys_try_from_spec() -> bool {
        true
    }

    open spec fn try_from_spec(tag: u8) -> Result<BluetoothDeviceKind, ProtocolError> {
        BluetoothDeviceKind::of_tag(tag)
    }
}

/// Why a device operation failed.
#[derive(Clone, Copy, Debug, PartialEq, Eq, Structural)]
pub enum DeviceError {
    NotFound,
    Authentication,
    TimedOut,
    Unreachable,
    InvalidInput,
    Backend,
    Integrity,
}

impl DeviceError {
    pub open spec fn tag(self) -> u8 {
        match self {
            DeviceError::NotFound => 1,
            DeviceError::Authentication => 2,
            DeviceError::TimedOut => 3,
            DeviceError::Unreachable => 4,
            DeviceError::InvalidInput => 5,
            DeviceError::Backend => 6,
            DeviceError::Integrity => 7,
        }
    }

    /// What a tag means.
    pub open spec fn of_tag(tag: u8) -> Result<DeviceError, ProtocolError> {
        if tag == 1 {
            Ok(DeviceError::NotFound)
        } else if tag == 2 {
            Ok(DeviceError::Authentication)
        } else if tag == 3 {
            Ok(DeviceError::TimedOut)
        } else if tag == 4 {
            Ok(DeviceError::Unreachable)
        } else if tag == 5 {
            Ok(DeviceError::InvalidInput)
        } else if tag == 6 {
            Ok(DeviceError::Backend)
        } else if tag == 7 {
            Ok(DeviceError::Integrity)
        } else {
            Err(ProtocolError::InvalidValue("device error"))
        }
    }

    pub fn to_tag(self) -> (tag: u8)
        ensures
            tag == self.tag(),
    {
        match self {
            DeviceError::NotFound => 1,
            DeviceError::Authentication => 2,
            DeviceError::TimedOut => 3,
            DeviceError::Unreachable => 4,
            DeviceError::InvalidInput => 5,
            DeviceError::Backend => 6,
            DeviceError::Integrity => 7,
        }
    }

    pub fn from_tag(tag: u8) -> (result: Result<DeviceError, ProtocolError>)
        ensures
            result == Self::of_tag(tag),
    {
        match tag {
            1 => Ok(DeviceError::NotFound),
            2 => Ok(DeviceError::Authentication),
            3 => Ok(DeviceError::TimedOut),
            4 => Ok(DeviceError::Unreachable),
            5 => Ok(DeviceError::InvalidInput),
            6 => Ok(DeviceError::Backend),
            7 => Ok(DeviceError::Integrity),
            _ => Err(ProtocolError::InvalidValue("device error")),
        }
    }
}

impl TryFrom<u8> for DeviceError {
    type Error = ProtocolError;

    fn try_from(tag: u8) -> (result: Result<DeviceError, ProtocolError>) {
        DeviceError::from_tag(tag)
    }
}

impl vstd::std_specs::convert::TryFromSpecImpl<u8> for DeviceError {
    open spec fn obeys_try_from_spec() -> bool {
        true
    }

    open spec fn try_from_spec(tag: u8) -> Result<DeviceError, ProtocolError> {
        DeviceError::of_tag(tag)
    }
}

impl DeviceError {
    /// The sentence for a reader.
    pub open spec fn sentence(self) -> Seq<char> {
        match self {
            DeviceError::NotFound => "the device or network was not found"@,
            DeviceError::Authentication => "authentication failed"@,
            DeviceError::TimedOut => "the radio operation timed out"@,
            DeviceError::Unreachable => "the device or network is unreachable"@,
            DeviceError::InvalidInput => "the address or credentials are invalid"@,
            DeviceError::Backend => "the system radio service failed"@,
            DeviceError::Integrity => "the download did not match its published digest"@,
        }
    }

    /// The sentence for a reader.
    pub fn describe(self) -> (words: &'static str)
        ensures
            words@ == self.sentence(),
    {
        match self {
            DeviceError::NotFound => "the device or network was not found",
            DeviceError::Authentication => "authentication failed",
            DeviceError::TimedOut => "the radio operation timed out",
            DeviceError::Unreachable => "the device or network is unreachable",
            DeviceError::InvalidInput => "the address or credentials are invalid",
            DeviceError::Backend => "the system radio service failed",
            DeviceError::Integrity => "the download did not match its published digest",
        }
    }

    pub fn to_string(self) -> (text: String)
        ensures
            text@ == self.sentence(),
    {
        self.describe().to_owned()
    }
}

/// Why a device request was refused.
#[derive(Clone, Copy, Debug, PartialEq, Eq, Structural)]
pub enum DenyReason {
    NotDeclared,
    WithheldForBattery,
    Unsupported,
    PolicyRejected,
    Busy,
}

impl DenyReason {
    pub open spec fn tag(self) -> u8 {
        match self {
            DenyReason::NotDeclared => 1,
            DenyReason::WithheldForBattery => 2,
            DenyReason::Unsupported => 3,
            DenyReason::PolicyRejected => 4,
            DenyReason::Busy => 5,
        }
    }

    /// What a tag means.
    pub open spec fn of_tag(tag: u8) -> Result<DenyReason, ProtocolError> {
        if tag == 1 {
            Ok(DenyReason::NotDeclared)
        } else if tag == 2 {
            Ok(DenyReason::WithheldForBattery)
        } else if tag == 3 {
            Ok(DenyReason::Unsupported)
        } else if tag == 4 {
            Ok(DenyReason::PolicyRejected)
        } else if tag == 5 {
            Ok(DenyReason::Busy)
        } else {
            Err(ProtocolError::InvalidValue("deny reason"))
        }
    }

    pub fn to_tag(self) -> (tag: u8)
        ensures
            tag == self.tag(),
    {
        match self {
            DenyReason::NotDeclared => 1,
            DenyReason::WithheldForBattery => 2,
            DenyReason::Unsupported => 3,
            DenyReason::PolicyRejected => 4,
            DenyReason::Busy => 5,
        }
    }

    pub fn from_tag(tag: u8) -> (result: Result<DenyReason, ProtocolError>)
        ensures
            result == Self::of_tag(tag),
    {
        match tag {
            1 => Ok(DenyReason::NotDeclared),
            2 => Ok(DenyReason::WithheldForBattery),
            3 => Ok(DenyReason::Unsupported),
            4 => Ok(DenyReason::PolicyRejected),
            5 => Ok(DenyReason::Busy),
            _ => Err(ProtocolError::InvalidValue("deny reason")),
        }
    }
}

impl TryFrom<u8> for DenyReason {
    type Error = ProtocolError;

    fn try_from(tag: u8) -> (result: Result<DenyReason, ProtocolError>) {
        DenyReason::from_tag(tag)
    }
}

impl vstd::std_specs::convert::TryFromSpecImpl<u8> for DenyReason {
    open spec fn obeys_try_from_spec() -> bool {
        true
    }

    open spec fn try_from_spec(tag: u8) -> Result<DenyReason, ProtocolError> {
        DenyReason::of_tag(tag)
    }
}

impl DenyReason {
    /// The sentence for a reader.
    pub open spec fn sentence(self) -> Seq<char> {
        match self {
            DenyReason::NotDeclared => "the application did not declare this capability"@,
            DenyReason::WithheldForBattery => "withheld because the battery is low"@,
            DenyReason::Unsupported => "not supported by this runtime on this hardware"@,
            DenyReason::PolicyRejected => "refused by system policy"@,
            DenyReason::Busy => "another application holds this resource"@,
        }
    }

    /// The sentence for a reader.
    pub fn describe(self) -> (words: &'static str)
        ensures
            words@ == self.sentence(),
    {
        match self {
            DenyReason::NotDeclared => "the application did not declare this capability",
            DenyReason::WithheldForBattery => "withheld because the battery is low",
            DenyReason::Unsupported => "not supported by this runtime on this hardware",
            DenyReason::PolicyRejected => "refused by system policy",
            DenyReason::Busy => "another application holds this resource",
        }
    }

    pub fn to_string(self) -> (text: String)
        ensures
            text@ == self.sentence(),
    {
        self.describe().to_owned()
    }
}

/// How much a line in the log matters.
#[derive(Clone, Copy, Debug, PartialEq, Eq, Structural)]
pub enum LogLevel {
    Debug,
    Info,
    Warn,
    Error,
}

impl LogLevel {
    pub open spec fn tag(self) -> u8 {
        match self {
            LogLevel::Debug => 1,
            LogLevel::Info => 2,
            LogLevel::Warn => 3,
            LogLevel::Error => 4,
        }
    }

    /// What a tag means.
    pub open spec fn of_tag(tag: u8) -> Result<LogLevel, ProtocolError> {
        if tag == 1 {
            Ok(LogLevel::Debug)
        } else if tag == 2 {
            Ok(LogLevel::Info)
        } else if tag == 3 {
            Ok(LogLevel::Warn)
        } else if tag == 4 {
            Ok(LogLevel::Error)
        } else {
            Err(ProtocolError::InvalidValue("log level"))
        }
    }

    pub fn to_tag(self) -> (tag: u8)
        ensures
            tag == self.tag(),
    {
        match self {
            LogLevel::Debug => 1,
            LogLevel::Info => 2,
            LogLevel::Warn => 3,
            LogLevel::Error => 4,
        }
    }

    pub fn from_tag(tag: u8) -> (result: Result<LogLevel, ProtocolError>)
        ensures
            result == Self::of_tag(tag),
    {
        match tag {
            1 => Ok(LogLevel::Debug),
            2 => Ok(LogLevel::Info),
            3 => Ok(LogLevel::Warn),
            4 => Ok(LogLevel::Error),
            _ => Err(ProtocolError::InvalidValue("log level")),
        }
    }
}

impl TryFrom<u8> for LogLevel {
    type Error = ProtocolError;

    fn try_from(tag: u8) -> (result: Result<LogLevel, ProtocolError>) {
        LogLevel::from_tag(tag)
    }
}

impl vstd::std_specs::convert::TryFromSpecImpl<u8> for LogLevel {
    open spec fn obeys_try_from_spec() -> bool {
        true
    }

    open spec fn try_from_spec(tag: u8) -> Result<LogLevel, ProtocolError> {
        LogLevel::of_tag(tag)
    }
}

/// Where audio comes from.
#[derive(Debug, PartialEq, Eq)]
pub enum AudioSource {
    /// A finished blob of this application.
    Shelf(String),
    /// An address to stream from.
    Stream(String),
}

/// What a [`AudioSource`] says.
pub enum AudioSourceModel {
    Shelf(Seq<char>),
    Stream(Seq<char>),
}

impl View for AudioSource {
    type V = AudioSourceModel;

    open spec fn view(&self) -> AudioSourceModel {
        match *self {
            AudioSource::Shelf(inner) => AudioSourceModel::Shelf(inner@),
            AudioSource::Stream(inner) => AudioSourceModel::Stream(inner@),
        }
    }
}

impl Clone for AudioSource {
    fn clone(&self) -> (copy: Self)
        ensures
            copy@ == self@,
    {
        match self {
            AudioSource::Shelf(inner) => AudioSource::Shelf(inner.clone()),
            AudioSource::Stream(inner) => AudioSource::Stream(inner.clone()),
        }
    }
}

/// Something an application asks of the device.
#[derive(Debug, PartialEq, Eq)]
pub enum DeviceRequest {
    ReadBattery,
    ReadBatteryDetail,
    ReadCover,
    HoldWifi { seconds: u32 },
    ReleaseWifi,
    KeepAwake { seconds: u32 },
    AllowSleep,
    ScheduleWake { seconds: u32 },
    CancelWake,
    SetFrontlight { percent: u8 },
    ReadFrontlight,
    ReadBluetooth,
    SetBluetooth { enabled: bool },
    ScanBluetooth,
    PairBluetooth { address: String },
    ConnectBluetooth { address: String },
    DisconnectBluetooth { address: String },
    ForgetBluetooth { address: String },
    ReadWifi,
    SetWifi { enabled: bool },
    ScanWifi,
    JoinWifi { ssid: String, password: String },
    DisconnectWifi,
    ReadAudio,
    LoadAudio { source: AudioSource },
    PlayAudio,
    PauseAudio,
    SeekAudio { position_ms: u32 },
    StopAudio,
    SetAudioVolume { percent: u8 },
    Update { url: String, sha256: String },
    ListInstalledApps,
    ReadAppCatalog,
    RefreshAppCatalog,
    InstallApp { id: String },
    UninstallApp { id: String },
    LookupWord { word: String, language: Option<String> },
    ReadAppLink,
    BeginAppLink,
    PollAppLink,
    DisconnectAppLink,
}

/// What a [`DeviceRequest`] says.
pub enum DeviceRequestModel {
    ReadBattery,
    ReadBatteryDetail,
    ReadCover,
    HoldWifi { seconds: u32 },
    ReleaseWifi,
    KeepAwake { seconds: u32 },
    AllowSleep,
    ScheduleWake { seconds: u32 },
    CancelWake,
    SetFrontlight { percent: u8 },
    ReadFrontlight,
    ReadBluetooth,
    SetBluetooth { enabled: bool },
    ScanBluetooth,
    PairBluetooth { address: Seq<char> },
    ConnectBluetooth { address: Seq<char> },
    DisconnectBluetooth { address: Seq<char> },
    ForgetBluetooth { address: Seq<char> },
    ReadWifi,
    SetWifi { enabled: bool },
    ScanWifi,
    JoinWifi { ssid: Seq<char>, password: Seq<char> },
    DisconnectWifi,
    ReadAudio,
    LoadAudio { source: AudioSourceModel },
    PlayAudio,
    PauseAudio,
    SeekAudio { position_ms: u32 },
    StopAudio,
    SetAudioVolume { percent: u8 },
    Update { url: Seq<char>, sha256: Seq<char> },
    ListInstalledApps,
    ReadAppCatalog,
    RefreshAppCatalog,
    InstallApp { id: Seq<char> },
    UninstallApp { id: Seq<char> },
    LookupWord { word: Seq<char>, language: Option<Seq<char>> },
    ReadAppLink,
    BeginAppLink,
    PollAppLink,
    DisconnectAppLink,
}

impl View for DeviceRequest {
    type V = DeviceRequestModel;

    open spec fn view(&self) -> DeviceRequestModel {
        match *self {
            DeviceRequest::ReadBattery => DeviceRequestModel::ReadBattery,
            DeviceRequest::ReadBatteryDetail => DeviceRequestModel::ReadBatteryDetail,
            DeviceRequest::ReadCover => DeviceRequestModel::ReadCover,
            DeviceRequest::HoldWifi { seconds } => DeviceRequestModel::HoldWifi {
                seconds,
            },
            DeviceRequest::ReleaseWifi => DeviceRequestModel::ReleaseWifi,
            DeviceRequest::KeepAwake { seconds } => DeviceRequestModel::KeepAwake {
                seconds,
            },
            DeviceRequest::AllowSleep => DeviceRequestModel::AllowSleep,
            DeviceRequest::ScheduleWake { seconds } => DeviceRequestModel::ScheduleWake {
                seconds,
            },
            DeviceRequest::CancelWake => DeviceRequestModel::CancelWake,
            DeviceRequest::SetFrontlight { percent } => DeviceRequestModel::SetFrontlight {
                percent,
            },
            DeviceRequest::ReadFrontlight => DeviceRequestModel::ReadFrontlight,
            DeviceRequest::ReadBluetooth => DeviceRequestModel::ReadBluetooth,
            DeviceRequest::SetBluetooth { enabled } => DeviceRequestModel::SetBluetooth {
                enabled,
            },
            DeviceRequest::ScanBluetooth => DeviceRequestModel::ScanBluetooth,
            DeviceRequest::PairBluetooth { address } => DeviceRequestModel::PairBluetooth {
                address: address@,
            },
            DeviceRequest::ConnectBluetooth { address } => DeviceRequestModel::ConnectBluetooth {
                address: address@,
            },
            DeviceRequest::DisconnectBluetooth { address } => DeviceRequestModel::DisconnectBluetooth {
                address: address@,
            },
            DeviceRequest::ForgetBluetooth { address } => DeviceRequestModel::ForgetBluetooth {
                address: address@,
            },
            DeviceRequest::ReadWifi => DeviceRequestModel::ReadWifi,
            DeviceRequest::SetWifi { enabled } => DeviceRequestModel::SetWifi {
                enabled,
            },
            DeviceRequest::ScanWifi => DeviceRequestModel::ScanWifi,
            DeviceRequest::JoinWifi { ssid, password } => DeviceRequestModel::JoinWifi {
                ssid: ssid@,
                password: password@,
            },
            DeviceRequest::DisconnectWifi => DeviceRequestModel::DisconnectWifi,
            DeviceRequest::ReadAudio => DeviceRequestModel::ReadAudio,
            DeviceRequest::LoadAudio { source } => DeviceRequestModel::LoadAudio {
                source: source@,
            },
            DeviceRequest::PlayAudio => DeviceRequestModel::PlayAudio,
            DeviceRequest::PauseAudio => DeviceRequestModel::PauseAudio,
            DeviceRequest::SeekAudio { position_ms } => DeviceRequestModel::SeekAudio {
                position_ms,
            },
            DeviceRequest::StopAudio => DeviceRequestModel::StopAudio,
            DeviceRequest::SetAudioVolume { percent } => DeviceRequestModel::SetAudioVolume {
                percent,
            },
            DeviceRequest::Update { url, sha256 } => DeviceRequestModel::Update {
                url: url@,
                sha256: sha256@,
            },
            DeviceRequest::ListInstalledApps => DeviceRequestModel::ListInstalledApps,
            DeviceRequest::ReadAppCatalog => DeviceRequestModel::ReadAppCatalog,
            DeviceRequest::RefreshAppCatalog => DeviceRequestModel::RefreshAppCatalog,
            DeviceRequest::InstallApp { id } => DeviceRequestModel::InstallApp {
                id: id@,
            },
            DeviceRequest::UninstallApp { id } => DeviceRequestModel::UninstallApp {
                id: id@,
            },
            DeviceRequest::LookupWord { word, language } => DeviceRequestModel::LookupWord {
                word: word@,
                language: match language { None => None, Some(inner) => Some(inner@) },
            },
            DeviceRequest::ReadAppLink => DeviceRequestModel::ReadAppLink,
            DeviceRequest::BeginAppLink => DeviceRequestModel::BeginAppLink,
            DeviceRequest::PollAppLink => DeviceRequestModel::PollAppLink,
            DeviceRequest::DisconnectAppLink => DeviceRequestModel::DisconnectAppLink,
        }
    }
}

impl Clone for DeviceRequest {
    fn clone(&self) -> (copy: Self)
        ensures
            copy@ == self@,
    {
        match self {
            DeviceRequest::ReadBattery => DeviceRequest::ReadBattery,
            DeviceRequest::ReadBatteryDetail => DeviceRequest::ReadBatteryDetail,
            DeviceRequest::ReadCover => DeviceRequest::ReadCover,
            DeviceRequest::HoldWifi { seconds } => {
                DeviceRequest::HoldWifi {
                    seconds: *seconds,
                }
            },
            DeviceRequest::ReleaseWifi => DeviceRequest::ReleaseWifi,
            DeviceRequest::KeepAwake { seconds } => {
                DeviceRequest::KeepAwake {
                    seconds: *seconds,
                }
            },
            DeviceRequest::AllowSleep => DeviceRequest::AllowSleep,
            DeviceRequest::ScheduleWake { seconds } => {
                DeviceRequest::ScheduleWake {
                    seconds: *seconds,
                }
            },
            DeviceRequest::CancelWake => DeviceRequest::CancelWake,
            DeviceRequest::SetFrontlight { percent } => {
                DeviceRequest::SetFrontlight {
                    percent: *percent,
                }
            },
            DeviceRequest::ReadFrontlight => DeviceRequest::ReadFrontlight,
            DeviceRequest::ReadBluetooth => DeviceRequest::ReadBluetooth,
            DeviceRequest::SetBluetooth { enabled } => {
                DeviceRequest::SetBluetooth {
                    enabled: *enabled,
                }
            },
            DeviceRequest::ScanBluetooth => DeviceRequest::ScanBluetooth,
            DeviceRequest::PairBluetooth { address } => {
                DeviceRequest::PairBluetooth {
                    address: address.clone(),
                }
            },
            DeviceRequest::ConnectBluetooth { address } => {
                DeviceRequest::ConnectBluetooth {
                    address: address.clone(),
                }
            },
            DeviceRequest::DisconnectBluetooth { address } => {
                DeviceRequest::DisconnectBluetooth {
                    address: address.clone(),
                }
            },
            DeviceRequest::ForgetBluetooth { address } => {
                DeviceRequest::ForgetBluetooth {
                    address: address.clone(),
                }
            },
            DeviceRequest::ReadWifi => DeviceRequest::ReadWifi,
            DeviceRequest::SetWifi { enabled } => {
                DeviceRequest::SetWifi {
                    enabled: *enabled,
                }
            },
            DeviceRequest::ScanWifi => DeviceRequest::ScanWifi,
            DeviceRequest::JoinWifi { ssid, password } => {
                DeviceRequest::JoinWifi {
                    ssid: ssid.clone(),
                    password: password.clone(),
                }
            },
            DeviceRequest::DisconnectWifi => DeviceRequest::DisconnectWifi,
            DeviceRequest::ReadAudio => DeviceRequest::ReadAudio,
            DeviceRequest::LoadAudio { source } => {
                DeviceRequest::LoadAudio {
                    source: source.clone(),
                }
            },
            DeviceRequest::PlayAudio => DeviceRequest::PlayAudio,
            DeviceRequest::PauseAudio => DeviceRequest::PauseAudio,
            DeviceRequest::SeekAudio { position_ms } => {
                DeviceRequest::SeekAudio {
                    position_ms: *position_ms,
                }
            },
            DeviceRequest::StopAudio => DeviceRequest::StopAudio,
            DeviceRequest::SetAudioVolume { percent } => {
                DeviceRequest::SetAudioVolume {
                    percent: *percent,
                }
            },
            DeviceRequest::Update { url, sha256 } => {
                DeviceRequest::Update {
                    url: url.clone(),
                    sha256: sha256.clone(),
                }
            },
            DeviceRequest::ListInstalledApps => DeviceRequest::ListInstalledApps,
            DeviceRequest::ReadAppCatalog => DeviceRequest::ReadAppCatalog,
            DeviceRequest::RefreshAppCatalog => DeviceRequest::RefreshAppCatalog,
            DeviceRequest::InstallApp { id } => {
                DeviceRequest::InstallApp {
                    id: id.clone(),
                }
            },
            DeviceRequest::UninstallApp { id } => {
                DeviceRequest::UninstallApp {
                    id: id.clone(),
                }
            },
            DeviceRequest::LookupWord { word, language } => {
                DeviceRequest::LookupWord {
                    word: word.clone(),
                    language: match language { None => None, Some(inner) => Some(inner.clone()) },
                }
            },
            DeviceRequest::ReadAppLink => DeviceRequest::ReadAppLink,
            DeviceRequest::BeginAppLink => DeviceRequest::BeginAppLink,
            DeviceRequest::PollAppLink => DeviceRequest::PollAppLink,
            DeviceRequest::DisconnectAppLink => DeviceRequest::DisconnectAppLink,
        }
    }
}

/// Whether a browser may send applications to this reader.
#[derive(Debug, PartialEq, Eq)]
pub enum AppLinkState {
    Unpaired,
    Pairing { code: String, url: String, expires_in: u32 },
    Paired { browsers: u8 },
}

/// What a [`AppLinkState`] says.
pub enum AppLinkStateModel {
    Unpaired,
    Pairing { code: Seq<char>, url: Seq<char>, expires_in: u32 },
    Paired { browsers: u8 },
}

impl View for AppLinkState {
    type V = AppLinkStateModel;

    open spec fn view(&self) -> AppLinkStateModel {
        match *self {
            AppLinkState::Unpaired => AppLinkStateModel::Unpaired,
            AppLinkState::Pairing { code, url, expires_in } => AppLinkStateModel::Pairing {
                code: code@,
                url: url@,
                expires_in,
            },
            AppLinkState::Paired { browsers } => AppLinkStateModel::Paired {
                browsers,
            },
        }
    }
}

impl Clone for AppLinkState {
    fn clone(&self) -> (copy: Self)
        ensures
            copy@ == self@,
    {
        match self {
            AppLinkState::Unpaired => AppLinkState::Unpaired,
            AppLinkState::Pairing { code, url, expires_in } => {
                AppLinkState::Pairing {
                    code: code.clone(),
                    url: url.clone(),
                    expires_in: *expires_in,
                }
            },
            AppLinkState::Paired { browsers } => {
                AppLinkState::Paired {
                    browsers: *browsers,
                }
            },
        }
    }
}

/// What became of an application a browser sent.
#[derive(Debug, PartialEq, Eq)]
pub enum RemoteInstallOutcome {
    Nothing,
    Installed { id: String },
    Updated { id: String },
    AlreadyInstalled { id: String },
    Included { id: String },
    Unavailable { id: String },
}

/// What a [`RemoteInstallOutcome`] says.
pub enum RemoteInstallOutcomeModel {
    Nothing,
    Installed { id: Seq<char> },
    Updated { id: Seq<char> },
    AlreadyInstalled { id: Seq<char> },
    Included { id: Seq<char> },
    Unavailable { id: Seq<char> },
}

impl View for RemoteInstallOutcome {
    type V = RemoteInstallOutcomeModel;

    open spec fn view(&self) -> RemoteInstallOutcomeModel {
        match *self {
            RemoteInstallOutcome::Nothing => RemoteInstallOutcomeModel::Nothing,
            RemoteInstallOutcome::Installed { id } => RemoteInstallOutcomeModel::Installed {
                id: id@,
            },
            RemoteInstallOutcome::Updated { id } => RemoteInstallOutcomeModel::Updated {
                id: id@,
            },
            RemoteInstallOutcome::AlreadyInstalled { id } => RemoteInstallOutcomeModel::AlreadyInstalled {
                id: id@,
            },
            RemoteInstallOutcome::Included { id } => RemoteInstallOutcomeModel::Included {
                id: id@,
            },
            RemoteInstallOutcome::Unavailable { id } => RemoteInstallOutcomeModel::Unavailable {
                id: id@,
            },
        }
    }
}

impl Clone for RemoteInstallOutcome {
    fn clone(&self) -> (copy: Self)
        ensures
            copy@ == self@,
    {
        match self {
            RemoteInstallOutcome::Nothing => RemoteInstallOutcome::Nothing,
            RemoteInstallOutcome::Installed { id } => {
                RemoteInstallOutcome::Installed {
                    id: id.clone(),
                }
            },
            RemoteInstallOutcome::Updated { id } => {
                RemoteInstallOutcome::Updated {
                    id: id.clone(),
                }
            },
            RemoteInstallOutcome::AlreadyInstalled { id } => {
                RemoteInstallOutcome::AlreadyInstalled {
                    id: id.clone(),
                }
            },
            RemoteInstallOutcome::Included { id } => {
                RemoteInstallOutcome::Included {
                    id: id.clone(),
                }
            },
            RemoteInstallOutcome::Unavailable { id } => {
                RemoteInstallOutcome::Unavailable {
                    id: id.clone(),
                }
            },
        }
    }
}

/// One definition.
#[derive(Debug, PartialEq, Eq)]
pub struct DictionaryEntry {
    pub dictionary: String,
    pub language: String,
    pub headword: String,
    pub definition: String,
}

/// What a [`DictionaryEntry`] says.
pub struct DictionaryEntryModel {
    pub dictionary: Seq<char>,
    pub language: Seq<char>,
    pub headword: Seq<char>,
    pub definition: Seq<char>,
}

impl View for DictionaryEntry {
    type V = DictionaryEntryModel;

    open spec fn view(&self) -> DictionaryEntryModel {
        DictionaryEntryModel {
            dictionary: self.dictionary@,
            language: self.language@,
            headword: self.headword@,
            definition: self.definition@,
        }
    }
}

impl Clone for DictionaryEntry {
    fn clone(&self) -> (copy: Self)
        ensures
            copy@ == self@,
    {
        DictionaryEntry {
            dictionary: self.dictionary.clone(),
            language: self.language.clone(),
            headword: self.headword.clone(),
            definition: self.definition.clone(),
        }
    }
}

/// Everything the gauge says. A reading that is missing was not offered.
#[derive(Debug, PartialEq, Eq)]
pub struct BatteryDetail {
    pub percent: Option<u8>,
    pub status: Option<String>,
    pub health: Option<String>,
    pub technology: Option<String>,
    pub decidegrees: Option<i32>,
    pub microvolts: Option<i32>,
    pub microamps: Option<i32>,
    pub charge_now: Option<i32>,
    pub charge_full: Option<i32>,
    pub charge_full_design: Option<i32>,
}

/// What a [`BatteryDetail`] says.
pub struct BatteryDetailModel {
    pub percent: Option<u8>,
    pub status: Option<Seq<char>>,
    pub health: Option<Seq<char>>,
    pub technology: Option<Seq<char>>,
    pub decidegrees: Option<i32>,
    pub microvolts: Option<i32>,
    pub microamps: Option<i32>,
    pub charge_now: Option<i32>,
    pub charge_full: Option<i32>,
    pub charge_full_design: Option<i32>,
}

impl Default for BatteryDetail {
    /// A gauge that knows nothing.
    fn default() -> (detail: BatteryDetail)
        ensures
            detail@ == (BatteryDetailModel {
                percent: None,
                status: None,
                health: None,
                technology: None,
                decidegrees: None,
                microvolts: None,
                microamps: None,
                charge_now: None,
                charge_full: None,
                charge_full_design: None,
            }),
    {
        BatteryDetail {
            percent: None,
            status: None,
            health: None,
            technology: None,
            decidegrees: None,
            microvolts: None,
            microamps: None,
            charge_now: None,
            charge_full: None,
            charge_full_design: None,
        }
    }
}

impl View for BatteryDetail {
    type V = BatteryDetailModel;

    open spec fn view(&self) -> BatteryDetailModel {
        BatteryDetailModel {
            percent: self.percent,
            status: match self.status { None => None, Some(inner) => Some(inner@) },
            health: match self.health { None => None, Some(inner) => Some(inner@) },
            technology: match self.technology { None => None, Some(inner) => Some(inner@) },
            decidegrees: self.decidegrees,
            microvolts: self.microvolts,
            microamps: self.microamps,
            charge_now: self.charge_now,
            charge_full: self.charge_full,
            charge_full_design: self.charge_full_design,
        }
    }
}

impl Clone for BatteryDetail {
    fn clone(&self) -> (copy: Self)
        ensures
            copy@ == self@,
    {
        BatteryDetail {
            percent: self.percent,
            status: match &self.status { None => None, Some(inner) => Some(inner.clone()) },
            health: match &self.health { None => None, Some(inner) => Some(inner.clone()) },
            technology: match &self.technology { None => None, Some(inner) => Some(inner.clone()) },
            decidegrees: self.decidegrees,
            microvolts: self.microvolts,
            microamps: self.microamps,
            charge_now: self.charge_now,
            charge_full: self.charge_full,
            charge_full_design: self.charge_full_design,
        }
    }
}

/// One radio peer.
#[derive(Debug, PartialEq, Eq)]
pub struct BluetoothDevice {
    pub address: String,
    pub name: String,
    pub kind: BluetoothDeviceKind,
    pub paired: bool,
    pub connected: bool,
}

/// What a [`BluetoothDevice`] says.
pub struct BluetoothDeviceModel {
    pub address: Seq<char>,
    pub name: Seq<char>,
    pub kind: BluetoothDeviceKind,
    pub paired: bool,
    pub connected: bool,
}

impl View for BluetoothDevice {
    type V = BluetoothDeviceModel;

    open spec fn view(&self) -> BluetoothDeviceModel {
        BluetoothDeviceModel {
            address: self.address@,
            name: self.name@,
            kind: self.kind,
            paired: self.paired,
            connected: self.connected,
        }
    }
}

impl Clone for BluetoothDevice {
    fn clone(&self) -> (copy: Self)
        ensures
            copy@ == self@,
    {
        BluetoothDevice {
            address: self.address.clone(),
            name: self.name.clone(),
            kind: self.kind,
            paired: self.paired,
            connected: self.connected,
        }
    }
}

/// One network.
#[derive(Debug, PartialEq, Eq)]
pub struct WifiNetwork {
    pub ssid: String,
    pub signal_dbm: i16,
    pub secured: bool,
    pub connected: bool,
}

/// What a [`WifiNetwork`] says.
pub struct WifiNetworkModel {
    pub ssid: Seq<char>,
    pub signal_dbm: i16,
    pub secured: bool,
    pub connected: bool,
}

impl View for WifiNetwork {
    type V = WifiNetworkModel;

    open spec fn view(&self) -> WifiNetworkModel {
        WifiNetworkModel {
            ssid: self.ssid@,
            signal_dbm: self.signal_dbm,
            secured: self.secured,
            connected: self.connected,
        }
    }
}

impl Clone for WifiNetwork {
    fn clone(&self) -> (copy: Self)
        ensures
            copy@ == self@,
    {
        WifiNetwork {
            ssid: self.ssid.clone(),
            signal_dbm: self.signal_dbm,
            secured: self.secured,
            connected: self.connected,
        }
    }
}

/// One application in the catalogue.
#[derive(Debug, PartialEq, Eq)]
pub struct AppInfo {
    pub id: String,
    pub title: String,
    pub label: String,
    pub summary: String,
    pub version: String,
    pub glyph: Glyph,
    pub capabilities: Vec<String>,
    pub installed_version: Option<String>,
}

/// What a [`AppInfo`] says.
pub struct AppInfoModel {
    pub id: Seq<char>,
    pub title: Seq<char>,
    pub label: Seq<char>,
    pub summary: Seq<char>,
    pub version: Seq<char>,
    pub glyph: Glyph,
    pub capabilities: Seq<Seq<char>>,
    pub installed_version: Option<Seq<char>>,
}

impl View for AppInfo {
    type V = AppInfoModel;

    open spec fn view(&self) -> AppInfoModel {
        AppInfoModel {
            id: self.id@,
            title: self.title@,
            label: self.label@,
            summary: self.summary@,
            version: self.version@,
            glyph: self.glyph,
            capabilities: item::models(self.capabilities@),
            installed_version: match self.installed_version {
                None => None,
                Some(inner) => Some(inner@),
            },
        }
    }
}

impl Clone for AppInfo {
    fn clone(&self) -> (copy: Self)
        ensures
            copy@ == self@,
    {
        let capabilities = self.capabilities.clone();
        assert(item::models(capabilities@) =~= item::models(self.capabilities@));
        AppInfo {
            id: self.id.clone(),
            title: self.title.clone(),
            label: self.label.clone(),
            summary: self.summary.clone(),
            version: self.version.clone(),
            glyph: self.glyph,
            capabilities,
            installed_version: match &self.installed_version {
                None => None,
                Some(inner) => Some(inner.clone()),
            },
        }
    }
}

/// The runtime's answer to one device request.
#[allow(inconsistent_fields)]
#[derive(Debug, PartialEq, Eq)]
pub enum DeviceResult {
    Done,
    Granted { seconds: u32 },
    Battery { percent: u8, charging: bool },
    BatteryDetail(BatteryDetail),
    Cover { available: bool, magnet_present: bool },
    Frontlight { percent: u8 },
    Bluetooth {
        available: bool,
        enabled: bool,
        devices: Vec<BluetoothDevice>,
        restart_on_exit: bool,
    },
    Wifi {
        available: bool,
        enabled: bool,
        connected_ssid: Option<String>,
        networks: Vec<WifiNetwork>,
    },
    Audio {
        available: bool,
        state: AudioPlaybackState,
        position_ms: u32,
        duration_ms: u32,
        volume: u8,
    },
    Apps { entries: Vec<AppInfo> },
    Dictionary { word: String, entries: Vec<DictionaryEntry> },
    AppLink(AppLinkState),
    RemoteInstall(RemoteInstallOutcome),
    Failed(DeviceError),
    Denied(DenyReason),
}

/// What a [`DeviceResult`] says.
#[allow(inconsistent_fields)]
pub enum DeviceResultModel {
    Done,
    Granted { seconds: u32 },
    Battery { percent: u8, charging: bool },
    BatteryDetail(BatteryDetailModel),
    Cover { available: bool, magnet_present: bool },
    Frontlight { percent: u8 },
    Bluetooth {
        available: bool,
        enabled: bool,
        devices: Seq<BluetoothDeviceModel>,
        restart_on_exit: bool,
    },
    Wifi {
        available: bool,
        enabled: bool,
        connected_ssid: Option<Seq<char>>,
        networks: Seq<WifiNetworkModel>,
    },
    Audio {
        available: bool,
        state: AudioPlaybackState,
        position_ms: u32,
        duration_ms: u32,
        volume: u8,
    },
    Apps { entries: Seq<AppInfoModel> },
    Dictionary { word: Seq<char>, entries: Seq<DictionaryEntryModel> },
    AppLink(AppLinkStateModel),
    RemoteInstall(RemoteInstallOutcomeModel),
    Failed(DeviceError),
    Denied(DenyReason),
}

impl View for DeviceResult {
    type V = DeviceResultModel;

    open spec fn view(&self) -> DeviceResultModel {
        match *self {
            DeviceResult::Done => DeviceResultModel::Done,
            DeviceResult::Granted { seconds } => DeviceResultModel::Granted {
                seconds,
            },
            DeviceResult::Battery { percent, charging } => DeviceResultModel::Battery {
                percent,
                charging,
            },
            DeviceResult::BatteryDetail(inner) => DeviceResultModel::BatteryDetail(inner@),
            DeviceResult::Cover { available, magnet_present } => DeviceResultModel::Cover {
                available,
                magnet_present,
            },
            DeviceResult::Frontlight { percent } => DeviceResultModel::Frontlight {
                percent,
            },
            DeviceResult::Bluetooth {
                available,
                enabled,
                devices,
                restart_on_exit,
            } => DeviceResultModel::Bluetooth {
                available,
                enabled,
                devices: item::models(devices@),
                restart_on_exit,
            },
            DeviceResult::Wifi {
                available,
                enabled,
                connected_ssid,
                networks,
            } => DeviceResultModel::Wifi {
                available,
                enabled,
                connected_ssid: match connected_ssid { None => None, Some(inner) => Some(inner@) },
                networks: item::models(networks@),
            },
            DeviceResult::Audio {
                available,
                state,
                position_ms,
                duration_ms,
                volume,
            } => DeviceResultModel::Audio {
                available,
                state,
                position_ms,
                duration_ms,
                volume,
            },
            DeviceResult::Apps { entries } => DeviceResultModel::Apps {
                entries: item::models(entries@),
            },
            DeviceResult::Dictionary { word, entries } => DeviceResultModel::Dictionary {
                word: word@,
                entries: item::models(entries@),
            },
            DeviceResult::AppLink(inner) => DeviceResultModel::AppLink(inner@),
            DeviceResult::RemoteInstall(inner) => DeviceResultModel::RemoteInstall(inner@),
            DeviceResult::Failed(inner) => DeviceResultModel::Failed(inner),
            DeviceResult::Denied(inner) => DeviceResultModel::Denied(inner),
        }
    }
}

impl Clone for DeviceResult {
    fn clone(&self) -> (copy: Self)
        ensures
            copy@ == self@,
    {
        match self {
            DeviceResult::Done => DeviceResult::Done,
            DeviceResult::Granted { seconds } => {
                DeviceResult::Granted {
                    seconds: *seconds,
                }
            },
            DeviceResult::Battery { percent, charging } => {
                DeviceResult::Battery {
                    percent: *percent,
                    charging: *charging,
                }
            },
            DeviceResult::BatteryDetail(inner) => DeviceResult::BatteryDetail(inner.clone()),
            DeviceResult::Cover { available, magnet_present } => {
                DeviceResult::Cover {
                    available: *available,
                    magnet_present: *magnet_present,
                }
            },
            DeviceResult::Frontlight { percent } => {
                DeviceResult::Frontlight {
                    percent: *percent,
                }
            },
            DeviceResult::Bluetooth { available, enabled, devices, restart_on_exit } => {
                let copy_of_devices = devices.clone();
                assert(item::models(copy_of_devices@) =~= item::models(devices@));
                DeviceResult::Bluetooth {
                    available: *available,
                    enabled: *enabled,
                    devices: copy_of_devices,
                    restart_on_exit: *restart_on_exit,
                }
            },
            DeviceResult::Wifi { available, enabled, connected_ssid, networks } => {
                let copy_of_networks = networks.clone();
                assert(item::models(copy_of_networks@) =~= item::models(networks@));
                DeviceResult::Wifi {
                    available: *available,
                    enabled: *enabled,
                    connected_ssid: match connected_ssid {
                        None => None,
                        Some(inner) => Some(inner.clone()),
                    },
                    networks: copy_of_networks,
                }
            },
            DeviceResult::Audio { available, state, position_ms, duration_ms, volume } => {
                DeviceResult::Audio {
                    available: *available,
                    state: *state,
                    position_ms: *position_ms,
                    duration_ms: *duration_ms,
                    volume: *volume,
                }
            },
            DeviceResult::Apps { entries } => {
                let copy_of_entries = entries.clone();
                assert(item::models(copy_of_entries@) =~= item::models(entries@));
                DeviceResult::Apps {
                    entries: copy_of_entries,
                }
            },
            DeviceResult::Dictionary { word, entries } => {
                let copy_of_entries = entries.clone();
                assert(item::models(copy_of_entries@) =~= item::models(entries@));
                DeviceResult::Dictionary {
                    word: word.clone(),
                    entries: copy_of_entries,
                }
            },
            DeviceResult::AppLink(inner) => DeviceResult::AppLink(inner.clone()),
            DeviceResult::RemoteInstall(inner) => DeviceResult::RemoteInstall(inner.clone()),
            DeviceResult::Failed(inner) => DeviceResult::Failed(*inner),
            DeviceResult::Denied(inner) => DeviceResult::Denied(*inner),
        }
    }
}

// ---------------------------------------------------------------------------
// Rules.

/// Whether a text is not empty and takes at most so many bytes.
pub open spec fn sized(text: Seq<char>, limit: int) -> bool {
    0 < wire::utf8_len(text) <= limit
}

fn is_sized(text: &str, limit: usize) -> (ok: bool)
    ensures
        ok == sized(text@, limit as int),
{
    let length: usize = byte_len(text);
    length > 0 && length <= limit
}

/// The scheme a secure address starts with.
pub open spec fn secure_scheme() -> Seq<char> {
    "https://"@
}

/// Whether an address is secure and no longer than one may be.
pub open spec fn secure_address(url: Seq<char>) -> bool {
    text::has_prefix(url, secure_scheme()) && wire::utf8_len(url) <= MAX_URL_LEN
}

pub fn is_secure_address(url: &str) -> (ok: bool)
    ensures
        ok == secure_address(url@),
{
    begins_with(url, "https://") && byte_len(url) <= MAX_URL_LEN
}

pub open spec fn digest_ok(digest: Seq<char>) -> bool {
    wire::utf8_len(digest) == 64 && text::is_drawn_from(digest, Alphabet::Hex)
}

pub fn is_hex_digest(digest: &str) -> (ok: bool)
    ensures
        ok == digest_ok(digest@),
{
    byte_len(digest) == 64 && drawn_from(digest, Alphabet::Hex)
}

/// Whether a text is an application's identity: lowercase letters, digits and
/// single hyphens, starting with a letter and not ending in a hyphen.
pub open spec fn app_id_ok(id: Seq<char>) -> bool {
    &&& sized(id, MAX_APP_ID_LEN as int)
    &&& text::is_lower(id[0])
    &&& id.last() != '-'
    &&& forall|i: int| 0 < i < id.len() ==> !(id[i - 1] == '-' && #[trigger] id[i] == '-')
    &&& text::is_drawn_from(id, Alphabet::AppId)
}

/// Whether a text is an application's identity.
pub fn valid_app_id(id: &str) -> (valid: bool)
    ensures
        valid == app_id_ok(id@),
{
    if !is_sized(id, MAX_APP_ID_LEN) || !drawn_from(id, Alphabet::AppId) {
        return false;
    }
    proof {
        wire::lemma_nonempty(id@);
    }
    let first = id.get_char(0);
    if !('a' <= first && first <= 'z') {
        return false;
    }
    let mut hyphen = false;
    for c in letters: id.chars()
        invariant
            letters.seq() == id@,
            letters.index() > 0 ==> hyphen == (id@[letters.index() - 1] == '-'),
            letters.index() == 0 ==> !hyphen,
            forall|i: int|
                0 < i < letters.index() ==> !(id@[i - 1] == '-' && #[trigger] id@[i] == '-'),
    {
        if c == '-' && hyphen {
            assert(id@[letters.index() - 1] == '-' && id@[letters.index() as int] == '-');
            return false;
        }
        hyphen = c == '-';
    }
    !hyphen
}

pub open spec fn version_ok(version: Seq<char>) -> bool {
    sized(version, MAX_APP_VERSION_LEN as int) && text::is_drawn_from(version, Alphabet::Version)
}

pub fn valid_version(version: &str) -> (valid: bool)
    ensures
        valid == version_ok(version@),
{
    is_sized(version, MAX_APP_VERSION_LEN) && drawn_from(version, Alphabet::Version)
}

pub open spec fn language_ok(language: Seq<char>) -> bool {
    sized(language, 16) && text::is_drawn_from(language, Alphabet::Language)
}

/// Whether a word can be looked up, in a language if one is named.
pub open spec fn lookup_ok(word: Seq<char>, language: Option<Seq<char>>) -> bool {
    &&& !text::all_blank(word)
    &&& wire::utf8_len(word) <= MAX_LOOKUP_WORD_BYTES
    &&& language is Some ==> language_ok(language->0)
}

pub fn is_lookup(word: &str, language: &Option<String>) -> (ok: bool)
    ensures
        ok == lookup_ok(word@, wire::model_of(*language)),
{
    if says_nothing(word) || byte_len(word) > MAX_LOOKUP_WORD_BYTES {
        return false;
    }
    match language {
        None => true,
        Some(language) => is_sized(language.as_str(), 16) && drawn_from(
            language.as_str(),
            Alphabet::Language,
        ),
    }
}

pub open spec fn dictionary_entry_ok(entry: DictionaryEntryModel) -> bool {
    &&& sized(entry.dictionary, 96)
    &&& sized(entry.language, 16)
    &&& sized(entry.headword, MAX_LOOKUP_WORD_BYTES as int)
    &&& sized(entry.definition, MAX_DICTIONARY_DEFINITION_BYTES as int)
}

impl DictionaryEntry {
    pub fn is_well_formed(&self) -> (ok: bool)
        ensures
            ok == dictionary_entry_ok(self@),
    {
        is_sized(self.dictionary.as_str(), 96) && is_sized(self.language.as_str(), 16) && is_sized(
            self.headword.as_str(),
            MAX_LOOKUP_WORD_BYTES,
        ) && is_sized(self.definition.as_str(), MAX_DICTIONARY_DEFINITION_BYTES)
    }
}

pub open spec fn capabilities_ok(capabilities: Seq<Seq<char>>) -> bool {
    forall|i: int| 0 <= i < capabilities.len() ==> sized(#[trigger] capabilities[i], 32)
}

/// Whether an application's description can be shown.
pub open spec fn app_info_ok(entry: AppInfoModel) -> bool {
    &&& app_id_ok(entry.id)
    &&& sized(entry.title, 96)
    &&& sized(entry.label, 32)
    &&& sized(entry.summary, 512)
    &&& version_ok(entry.version)
    &&& entry.installed_version is Some ==> version_ok(entry.installed_version->0)
    &&& entry.capabilities.len() <= MAX_APP_CAPABILITIES
    &&& capabilities_ok(entry.capabilities)
}

fn are_capabilities(capabilities: &Vec<String>) -> (ok: bool)
    ensures
        ok == capabilities_ok(item::models(capabilities@)),
{
    let mut index: usize = 0;
    while index < capabilities.len()
        invariant
            index <= capabilities@.len(),
            forall|i: int|
                0 <= i < index ==> sized(#[trigger] item::models(capabilities@)[i], 32),
        decreases capabilities@.len() - index,
    {
        if !is_sized(capabilities[index].as_str(), 32) {
            assert(!sized(item::models(capabilities@)[index as int], 32));
            return false;
        }
        index = index + 1;
    }
    true
}

impl AppInfo {
    pub fn is_well_formed(&self) -> (ok: bool)
        ensures
            ok == app_info_ok(self@),
    {
        let installed = match &self.installed_version {
            None => true,
            Some(version) => valid_version(version.as_str()),
        };
        valid_app_id(self.id.as_str()) && is_sized(self.title.as_str(), 96) && is_sized(
            self.label.as_str(),
            32,
        ) && is_sized(self.summary.as_str(), 512) && valid_version(self.version.as_str())
            && installed && self.capabilities.len() <= MAX_APP_CAPABILITIES && are_capabilities(
            &self.capabilities,
        )
    }

    pub fn is_installed(&self) -> (installed: bool)
        ensures
            installed == (self@.installed_version is Some),
    {
        self.installed_version.is_some()
    }

    /// Whether the catalogue has another version than the one installed.
    pub fn has_update(&self) -> (update: bool)
        ensures
            update == (self@.installed_version is Some && self@.installed_version->0
                != self@.version),
    {
        match &self.installed_version {
            None => false,
            Some(installed) => *installed != self.version,
        }
    }
}

/// Whether a pairing can be shown.
pub open spec fn pairing_ok(code: Seq<char>, url: Seq<char>, expires_in: u32) -> bool {
    &&& wire::utf8_len(code) == 8
    &&& text::is_drawn_from(code, Alphabet::LinkCode)
    &&& secure_address(url)
    &&& expires_in <= MAX_APP_LINK_EXPIRES_IN
}

pub open spec fn app_link_ok(state: AppLinkStateModel) -> bool {
    match state {
        AppLinkStateModel::Unpaired => true,
        AppLinkStateModel::Pairing { code, url, expires_in } => pairing_ok(code, url, expires_in),
        AppLinkStateModel::Paired { browsers } => browsers <= MAX_APP_LINK_BROWSERS,
    }
}

impl AppLinkState {
    pub fn is_well_formed(&self) -> (ok: bool)
        ensures
            ok == app_link_ok(self@),
    {
        match self {
            AppLinkState::Unpaired => true,
            AppLinkState::Pairing { code, url, expires_in } => byte_len(code.as_str()) == 8
                && drawn_from(code.as_str(), Alphabet::LinkCode) && is_secure_address(url.as_str())
                && *expires_in <= MAX_APP_LINK_EXPIRES_IN,
            AppLinkState::Paired { browsers } => *browsers <= MAX_APP_LINK_BROWSERS,
        }
    }
}

/// Whether a network can be joined: a name, and a passphrase of the length
/// the radio takes or none at all.
pub open spec fn wifi_credentials_ok(ssid: Seq<char>, password: Seq<char>) -> bool {
    sized(ssid, 32) && passphrase_ok(password)
}

pub open spec fn passphrase_ok(password: Seq<char>) -> bool {
    wire::utf8_len(password) == 0 || 8 <= wire::utf8_len(password) <= 63
}

pub fn is_ssid(ssid: &str) -> (ok: bool)
    ensures
        ok == sized(ssid@, 32),
{
    is_sized(ssid, 32)
}

pub fn is_passphrase(password: &str) -> (ok: bool)
    ensures
        ok == passphrase_ok(password@),
{
    let length: usize = byte_len(password);
    length == 0 || (8 <= length && length <= 63)
}

// ---------------------------------------------------------------------------
// The battery.

/// A difference, held within a signed word.
pub open spec fn saturated(value: int) -> int {
    if value > i32::MAX {
        i32::MAX as int
    } else if value < i32::MIN {
        i32::MIN as int
    } else {
        value
    }
}

/// How much of the battery's first capacity it still has, in a hundred.
pub open spec fn health_of(full: Option<i32>, design: Option<i32>) -> Option<u8> {
    match (full, design) {
        (Some(full), Some(design)) => if design <= 0 || full <= 0 {
            None
        } else if full * 100 / (design as int) > 100 {
            Some(100)
        } else {
            Some((full * 100 / (design as int)) as u8)
        },
        _ => None,
    }
}

/// What is still to go, in microamp hours: up to full while charging, down to
/// empty otherwise.
pub open spec fn charge_to_go(current: i32, held: i32, full: Option<i32>) -> Option<int> {
    if current > 0 {
        match full {
            None => None,
            Some(full) => Some(saturated(full - held)),
        }
    } else {
        Some(held as int)
    }
}

/// How many minutes the battery has to go at the current it carries now.
pub open spec fn minutes_of(
    current: Option<i32>,
    held: Option<i32>,
    full: Option<i32>,
) -> Option<u32> {
    match (current, held) {
        (Some(current), Some(held)) => if current == 0 {
            None
        } else {
            match charge_to_go(current, held, full) {
                None => None,
                Some(charge) => {
                    let draw = if current > 0 {
                        current as int
                    } else {
                        -current
                    };
                    if charge <= 0 || charge * 60 / draw > u32::MAX {
                        None
                    } else {
                        Some((charge * 60 / draw) as u32)
                    }
                },
            }
        },
        _ => None,
    }
}

impl BatteryDetail {
    /// How much of its first capacity the battery still has, in a hundred.
    pub fn health_percent(&self) -> (percent: Option<u8>)
        ensures
            percent == health_of(self.charge_full, self.charge_full_design),
    {
        let full: i32 = self.charge_full?;
        let design: i32 = self.charge_full_design?;
        if design <= 0 || full <= 0 {
            return None;
        }
        let percent: i64 = (full as i64) * 100 / (design as i64);
        proof {
            vstd::arithmetic::div_mod::lemma_div_pos_is_pos(full * 100, design as int);
        }
        if percent > 100 {
            Some(100)
        } else {
            Some(percent as u8)
        }
    }

    /// How many minutes the battery has to go: until it is full while it
    /// charges, until it is empty otherwise.
    pub fn minutes_remaining(&self) -> (minutes: Option<u32>)
        ensures
            minutes == minutes_of(self.microamps, self.charge_now, self.charge_full),
    {
        let current: i32 = self.microamps?;
        if current == 0 {
            return None;
        }
        let held: i32 = self.charge_now?;
        let charge: i64 = if current > 0 {
            let full: i32 = self.charge_full?;
            let difference: i64 = (full as i64) - (held as i64);
            if difference > i32::MAX as i64 {
                i32::MAX as i64
            } else if difference < i32::MIN as i64 {
                i32::MIN as i64
            } else {
                difference
            }
        } else {
            held as i64
        };
        if charge <= 0 {
            return None;
        }
        let draw: i64 = if current > 0 {
            current as i64
        } else {
            -(current as i64)
        };
        let minutes: i64 = charge * 60 / draw;
        proof {
            vstd::arithmetic::div_mod::lemma_div_pos_is_pos(charge * 60, draw as int);
        }
        if minutes > u32::MAX as i64 {
            None
        } else {
            Some(minutes as u32)
        }
    }
}

} // verus!
