//! What the questions that the library answers mean: each is told by what is
//! asked and what is answered.

use vstd::prelude::*;

use crate::area::{Position, ProseArea, Strips};
use crate::command::Command;
use crate::context::Context;
use crate::device;
use crate::device::{
    AppInfo, AppLinkState, AudioPlaybackState, BatteryDetail, BluetoothDeviceKind, DenyReason,
    DeviceError, DictionaryEntry, LogLevel,
};
use crate::error::ProtocolError;
use crate::glyph;
use crate::glyph::Glyph;
use crate::handles;
use crate::hardware;
use crate::item;
use crate::name;
use crate::rule_laws;
use crate::shell::ShellError;
use crate::span;
use crate::span::Span;
use crate::store;
use crate::store::StoreError;
use crate::task;
use crate::task::{Credential, Header, Task, TaskError};
use crate::task_codec;
use crate::text;
use crate::text::Alphabet;
use crate::ui::ActionId;
use crate::wire;

verus! {

// ---------------------------------------------------------------------------
// Tags.

/// A tag of one of the playback states is read back as what it was made of, and no tag
/// stands for two of them.
pub proof fn law_audio_playback_state_tags_read_back(
    one: AudioPlaybackState,
    other: AudioPlaybackState,
    tag: u8,
    same: u8,
    back: Result<AudioPlaybackState, ProtocolError>,
)
    ensures
        call_ensures(AudioPlaybackState::to_tag, (one,), tag) && call_ensures(
            AudioPlaybackState::from_tag,
            (tag,),
            back,
        ) ==> back == Ok::<AudioPlaybackState, ProtocolError>(one),
        call_ensures(AudioPlaybackState::to_tag, (one,), tag) && call_ensures(
            AudioPlaybackState::to_tag,
            (other,),
            same,
        ) && one != other ==> tag != same,
        call_ensures(AudioPlaybackState::from_tag, (tag,), back) && back is Ok && call_ensures(
            AudioPlaybackState::to_tag,
            (back->Ok_0,),
            same,
        ) ==> same == tag,
        call_ensures(AudioPlaybackState::from_tag, (tag,), back) && back is Err ==> back->Err_0
            == ProtocolError::InvalidValue("audio playback state"),
        call_ensures(AudioPlaybackState::to_tag, (one,), tag) ==> tag == one.tag(),
        call_ensures(AudioPlaybackState::from_tag, (tag,), back) ==>
            back == AudioPlaybackState::of_tag(tag),
{
}

/// A tag of one of the kinds of radio is read back as what it was made of, and no tag
/// stands for two of them.
pub proof fn law_bluetooth_device_kind_tags_read_back(
    one: BluetoothDeviceKind,
    other: BluetoothDeviceKind,
    tag: u8,
    same: u8,
    back: Result<BluetoothDeviceKind, ProtocolError>,
)
    ensures
        call_ensures(BluetoothDeviceKind::to_tag, (one,), tag) && call_ensures(
            BluetoothDeviceKind::from_tag,
            (tag,),
            back,
        ) ==> back == Ok::<BluetoothDeviceKind, ProtocolError>(one),
        call_ensures(BluetoothDeviceKind::to_tag, (one,), tag) && call_ensures(
            BluetoothDeviceKind::to_tag,
            (other,),
            same,
        ) && one != other ==> tag != same,
        call_ensures(BluetoothDeviceKind::from_tag, (tag,), back) && back is Ok && call_ensures(
            BluetoothDeviceKind::to_tag,
            (back->Ok_0,),
            same,
        ) ==> same == tag,
        call_ensures(BluetoothDeviceKind::from_tag, (tag,), back) && back is Err ==> back->Err_0
            == ProtocolError::InvalidValue("Bluetooth device kind"),
        call_ensures(BluetoothDeviceKind::to_tag, (one,), tag) ==> tag == one.tag(),
        call_ensures(BluetoothDeviceKind::from_tag, (tag,), back) ==>
            back == BluetoothDeviceKind::of_tag(tag),
{
}

/// A tag of one of the device errors is read back as what it was made of, and no tag
/// stands for two of them.
pub proof fn law_device_error_tags_read_back(
    one: DeviceError,
    other: DeviceError,
    tag: u8,
    same: u8,
    back: Result<DeviceError, ProtocolError>,
)
    ensures
        call_ensures(DeviceError::to_tag, (one,), tag) && call_ensures(
            DeviceError::from_tag,
            (tag,),
            back,
        ) ==> back == Ok::<DeviceError, ProtocolError>(one),
        call_ensures(DeviceError::to_tag, (one,), tag) && call_ensures(
            DeviceError::to_tag,
            (other,),
            same,
        ) && one != other ==> tag != same,
        call_ensures(DeviceError::from_tag, (tag,), back) && back is Ok && call_ensures(
            DeviceError::to_tag,
            (back->Ok_0,),
            same,
        ) ==> same == tag,
        call_ensures(DeviceError::from_tag, (tag,), back) && back is Err ==> back->Err_0
            == ProtocolError::InvalidValue("device error"),
        call_ensures(DeviceError::to_tag, (one,), tag) ==> tag == one.tag(),
        call_ensures(DeviceError::from_tag, (tag,), back) ==> back == DeviceError::of_tag(tag),
{
}

/// A tag of one of the reasons for a refusal is read back as what it was made of, and no tag
/// stands for two of them.
pub proof fn law_deny_reason_tags_read_back(
    one: DenyReason,
    other: DenyReason,
    tag: u8,
    same: u8,
    back: Result<DenyReason, ProtocolError>,
)
    ensures
        call_ensures(DenyReason::to_tag, (one,), tag) && call_ensures(
            DenyReason::from_tag,
            (tag,),
            back,
        ) ==> back == Ok::<DenyReason, ProtocolError>(one),
        call_ensures(DenyReason::to_tag, (one,), tag) && call_ensures(
            DenyReason::to_tag,
            (other,),
            same,
        ) && one != other ==> tag != same,
        call_ensures(DenyReason::from_tag, (tag,), back) && back is Ok && call_ensures(
            DenyReason::to_tag,
            (back->Ok_0,),
            same,
        ) ==> same == tag,
        call_ensures(DenyReason::from_tag, (tag,), back) && back is Err ==> back->Err_0
            == ProtocolError::InvalidValue("deny reason"),
        call_ensures(DenyReason::to_tag, (one,), tag) ==> tag == one.tag(),
        call_ensures(DenyReason::from_tag, (tag,), back) ==> back == DenyReason::of_tag(tag),
{
}

/// A tag of one of the log levels is read back as what it was made of, and no tag
/// stands for two of them.
pub proof fn law_log_level_tags_read_back(
    one: LogLevel,
    other: LogLevel,
    tag: u8,
    same: u8,
    back: Result<LogLevel, ProtocolError>,
)
    ensures
        call_ensures(LogLevel::to_tag, (one,), tag) && call_ensures(
            LogLevel::from_tag,
            (tag,),
            back,
        ) ==> back == Ok::<LogLevel, ProtocolError>(one),
        call_ensures(LogLevel::to_tag, (one,), tag) && call_ensures(
            LogLevel::to_tag,
            (other,),
            same,
        ) && one != other ==> tag != same,
        call_ensures(LogLevel::from_tag, (tag,), back) && back is Ok && call_ensures(
            LogLevel::to_tag,
            (back->Ok_0,),
            same,
        ) ==> same == tag,
        call_ensures(LogLevel::from_tag, (tag,), back) && back is Err ==> back->Err_0
            == ProtocolError::InvalidValue("log level"),
        call_ensures(LogLevel::to_tag, (one,), tag) ==> tag == one.tag(),
        call_ensures(LogLevel::from_tag, (tag,), back) ==> back == LogLevel::of_tag(tag),
{
}

/// A tag of one of the store errors is read back as what it was made of, and no tag
/// stands for two of them.
pub proof fn law_store_error_tags_read_back(
    one: StoreError,
    other: StoreError,
    tag: u8,
    same: u8,
    back: Result<StoreError, ProtocolError>,
)
    ensures
        call_ensures(StoreError::to_tag, (one,), tag) && call_ensures(
            StoreError::from_tag,
            (tag,),
            back,
        ) ==> back == Ok::<StoreError, ProtocolError>(one),
        call_ensures(StoreError::to_tag, (one,), tag) && call_ensures(
            StoreError::to_tag,
            (other,),
            same,
        ) && one != other ==> tag != same,
        call_ensures(StoreError::from_tag, (tag,), back) && back is Ok && call_ensures(
            StoreError::to_tag,
            (back->Ok_0,),
            same,
        ) ==> same == tag,
        call_ensures(StoreError::from_tag, (tag,), back) && back is Err ==> back->Err_0
            == ProtocolError::InvalidValue("store error"),
        call_ensures(StoreError::to_tag, (one,), tag) ==> tag == one.tag(),
        call_ensures(StoreError::from_tag, (tag,), back) ==> back == StoreError::of_tag(tag),
{
}

/// A tag of one of the shell errors is read back as what it was made of, and no tag
/// stands for two of them.
pub proof fn law_shell_error_tags_read_back(
    one: ShellError,
    other: ShellError,
    tag: u8,
    same: u8,
    back: Result<ShellError, ProtocolError>,
)
    ensures
        call_ensures(ShellError::to_tag, (one,), tag) && call_ensures(
            ShellError::from_tag,
            (tag,),
            back,
        ) ==> back == Ok::<ShellError, ProtocolError>(one),
        call_ensures(ShellError::to_tag, (one,), tag) && call_ensures(
            ShellError::to_tag,
            (other,),
            same,
        ) && one != other ==> tag != same,
        call_ensures(ShellError::from_tag, (tag,), back) && back is Ok && call_ensures(
            ShellError::to_tag,
            (back->Ok_0,),
            same,
        ) ==> same == tag,
        call_ensures(ShellError::from_tag, (tag,), back) && back is Err ==> back->Err_0
            == ProtocolError::InvalidValue("shell error"),
        call_ensures(ShellError::to_tag, (one,), tag) ==> tag == one.tag(),
        call_ensures(ShellError::from_tag, (tag,), back) ==> back == ShellError::of_tag(tag),
{
}

// ---------------------------------------------------------------------------
// Sentences.

/// Each of these is put in a sentence of its own.
pub proof fn law_device_errors_are_told_apart(
    one: DeviceError,
    other: DeviceError,
    text: String,
    told: String,
    words: &'static str,
)
    ensures
        call_ensures(DeviceError::to_string, (one,), text) && call_ensures(
            DeviceError::to_string,
            (other,),
            told,
        ) && one != other ==> text@ != told@,
        call_ensures(DeviceError::to_string, (one,), text) ==> match one {
            DeviceError::NotFound => text@ == "the device or network was not found"@,
            DeviceError::Authentication => text@ == "authentication failed"@,
            DeviceError::TimedOut => text@ == "the radio operation timed out"@,
            DeviceError::Unreachable => text@ == "the device or network is unreachable"@,
            DeviceError::InvalidInput => text@ == "the address or credentials are invalid"@,
            DeviceError::Backend => text@ == "the system radio service failed"@,
            DeviceError::Integrity => text@ == "the download did not match its published digest"@,
        },
        call_ensures(DeviceError::to_string, (one,), text) && call_ensures(
            DeviceError::describe,
            (one,),
            words,
        ) ==> text@ == words@,
{
    reveal_strlit("the device or network was not found");
    reveal_strlit("authentication failed");
    reveal_strlit("the radio operation timed out");
    reveal_strlit("the device or network is unreachable");
    reveal_strlit("the address or credentials are invalid");
    reveal_strlit("the system radio service failed");
    reveal_strlit("the download did not match its published digest");
    assert("the device or network was not found"@.len() == 35);
    assert("authentication failed"@.len() == 21);
    assert("the radio operation timed out"@.len() == 29);
    assert("the device or network is unreachable"@.len() == 36);
    assert("the address or credentials are invalid"@.len() == 38);
    assert("the system radio service failed"@.len() == 31);
    assert("the download did not match its published digest"@.len() == 47);
}

/// Each of these is put in a sentence of its own.
pub proof fn law_deny_reasons_are_told_apart(
    one: DenyReason,
    other: DenyReason,
    text: String,
    told: String,
    words: &'static str,
)
    ensures
        call_ensures(DenyReason::to_string, (one,), text) && call_ensures(
            DenyReason::to_string,
            (other,),
            told,
        ) && one != other ==> text@ != told@,
        call_ensures(DenyReason::to_string, (one,), text) ==> match one {
            DenyReason::NotDeclared => text@ == "the application did not declare this capability"@,
            DenyReason::WithheldForBattery => text@ == "withheld because the battery is low"@,
            DenyReason::Unsupported => text@ == "not supported by this runtime on this hardware"@,
            DenyReason::PolicyRejected => text@ == "refused by system policy"@,
            DenyReason::Busy => text@ == "another application holds this resource"@,
        },
        call_ensures(DenyReason::to_string, (one,), text) && call_ensures(
            DenyReason::describe,
            (one,),
            words,
        ) ==> text@ == words@,
{
    reveal_strlit("the application did not declare this capability");
    reveal_strlit("withheld because the battery is low");
    reveal_strlit("not supported by this runtime on this hardware");
    reveal_strlit("refused by system policy");
    reveal_strlit("another application holds this resource");
    assert("the application did not declare this capability"@.len() == 47);
    assert("withheld because the battery is low"@.len() == 35);
    assert("not supported by this runtime on this hardware"@.len() == 46);
    assert("refused by system policy"@.len() == 24);
    assert("another application holds this resource"@.len() == 39);
}

/// Each of these is put in a sentence of its own.
pub proof fn law_store_errors_are_told_apart(
    one: StoreError,
    other: StoreError,
    text: String,
    told: String,
)
    ensures
        call_ensures(StoreError::to_string, (one,), text) && call_ensures(
            StoreError::to_string,
            (other,),
            told,
        ) && one != other ==> text@ != told@,
        call_ensures(StoreError::to_string, (one,), text) ==> match one {
            StoreError::BadKey => text@ == "that is not a usable key"@,
            StoreError::TooFull => text@ == "there is no room for that"@,
            StoreError::Unwritable => text@ == "the store could not be written"@,
            StoreError::NoRoom => text@ == "the card is too nearly full to write that"@,
            StoreError::Missing => text@ == "there is nothing there to read"@,
        },
{
    reveal_strlit("that is not a usable key");
    reveal_strlit("there is no room for that");
    reveal_strlit("the store could not be written");
    reveal_strlit("the card is too nearly full to write that");
    reveal_strlit("there is nothing there to read");
    assert("that is not a usable key"@.len() == 24);
    assert("there is no room for that"@.len() == 25);
    assert("the store could not be written"@.len() == 30);
    assert("the card is too nearly full to write that"@.len() == 41);
    assert("there is nothing there to read"@.len() == 30);
    assert("the store could not be written"@[3] != "there is nothing there to read"@[3]);
}

/// Each of these is put in a sentence of its own.
pub proof fn law_task_errors_are_told_apart(
    one: TaskError,
    other: TaskError,
    text: String,
    told: String,
)
    ensures
        call_ensures(TaskError::to_string, (one,), text) && call_ensures(
            TaskError::to_string,
            (other,),
            told,
        ) && one != other ==> text@ != told@,
        call_ensures(TaskError::to_string, (one,), text) ==> match one {
            TaskError::Denied => text@ == "the application does not hold this permission"@,
            TaskError::NoCredential => text@ == "this reader has no key for that service"@,
            TaskError::Offline => text@ == "this reader is not on a network"@,
            TaskError::Unreachable => text@ == "the host did not answer"@,
            TaskError::TooLarge => text@
                == "the response was larger than the limit the task declared"@,
            TaskError::TimedOut => text@ == "the task ran out of time"@,
            TaskError::NotFound => text@ == "not found"@,
            TaskError::Unauthorized => text@ == "the host will not answer without a credential"@,
            TaskError::LocalStorage => text@
                == "the runtime could not update local credential storage"@,
            TaskError::RevocationUnconfirmed => text@
                == "the account is signed out locally but remote revocation was not confirmed"@,
        },
{
    reveal_strlit("the application does not hold this permission");
    reveal_strlit("this reader has no key for that service");
    reveal_strlit("this reader is not on a network");
    reveal_strlit("the host did not answer");
    reveal_strlit("the response was larger than the limit the task declared");
    reveal_strlit("the task ran out of time");
    reveal_strlit("not found");
    reveal_strlit("the host will not answer without a credential");
    reveal_strlit("the runtime could not update local credential storage");
    reveal_strlit("the account is signed out locally but remote revocation was not confirmed");
    assert("the application does not hold this permission"@.len() == 45);
    assert("this reader has no key for that service"@.len() == 39);
    assert("this reader is not on a network"@.len() == 31);
    assert("the host did not answer"@.len() == 23);
    assert("the response was larger than the limit the task declared"@.len() == 56);
    assert("the task ran out of time"@.len() == 24);
    assert("not found"@.len() == 9);
    assert("the host will not answer without a credential"@.len() == 45);
    assert("the runtime could not update local credential storage"@.len() == 53);
    assert(
        "the account is signed out locally but remote revocation was not confirmed"@.len() == 73
    );
    assert(
        "the application does not hold this permission"@[4] != "the host will not answer without a credential"@[4]
    );
}

/// The tag of a task error is read back as that error, and that of a glyph as
/// that glyph.
pub proof fn law_error_and_glyph_tags_read_back(
    error: TaskError,
    mark: Glyph,
    other: Glyph,
    tag: u8,
    same: u8,
    back: Result<TaskError, ProtocolError>,
    read: Option<Glyph>,
)
    ensures
        call_ensures(task_codec::encode_task_error, (error,), tag) && call_ensures(
            task_codec::decode_task_error,
            (tag,),
            back,
        ) ==> back == Ok::<TaskError, ProtocolError>(error),
        call_ensures(glyph::encode_glyph, (mark,), tag) && call_ensures(
            glyph::decode_glyph,
            (tag,),
            read,
        ) ==> read == Some(mark),
        call_ensures(glyph::encode_glyph, (mark,), tag) && call_ensures(
            glyph::encode_glyph,
            (other,),
            same,
        ) && mark != other ==> tag != same,
{
}

/// Every glyph is listed, once, where its tag says.
pub proof fn law_every_glyph_is_listed_once(all: Vec<Glyph>, mark: Glyph, i: int, j: int)
    requires
        call_ensures(Glyph::all, (), all),
        0 <= i < j < all@.len(),
    ensures
        all@.contains(mark),
        all@[i] != all@[j],
{
    assert(glyph::glyph_tag(all@[i]) == i);
    assert(glyph::glyph_tag(all@[j]) == j);
}

// ---------------------------------------------------------------------------
// Names, addresses and keys.

/// What passes for an address, a digest, an identity, a version or a key is told
/// letter by letter.
pub proof fn law_names_are_checked_letter_by_letter(said: &str, ok: bool)
    ensures
        call_ensures(device::is_hex_digest, (said,), ok) ==> (ok <==> said@.len() == 64 && forall|
            i: int,
        |
            0 <= i < 64 ==> rule_laws::digit(#[trigger] said@[i]) || 97 <= said@[i] as int <= 102),
        call_ensures(device::valid_version, (said,), ok) ==> (ok <==> 1 <= said@.len() <= 64
            && forall|i: int|
            0 <= i < said@.len() ==> rule_laws::digit(#[trigger] said@[i]) || rule_laws::lower(
                said@[i],
            ) || rule_laws::upper(said@[i]) || said@[i] == '.' || said@[i] == '-' || said@[i]
                == '+'),
        call_ensures(store::is_valid_key, (said,), ok) ==> (ok <==> {
            &&& 1 <= said@.len() <= 64
            &&& said@[0] != '.'
            &&& forall|i: int|
                0 <= i < said@.len() ==> rule_laws::digit(#[trigger] said@[i]) || rule_laws::lower(
                    said@[i],
                ) || said@[i] == '.' || said@[i] == '-' || said@[i] == '_'
        }),
        call_ensures(device::valid_app_id, (said,), ok) && ok ==> {
            &&& 1 <= said@.len() <= 32
            &&& rule_laws::lower(said@[0])
            &&& said@[said@.len() - 1] != '-'
        },
        call_ensures(device::valid_app_id, (said,), ok) ==> ok == device::app_id_ok(said@),
        call_ensures(hardware::is_bluetooth_address, (said,), ok) ==> ok
            == hardware::bluetooth_address_ok(said@),
        call_ensures(hardware::is_bluetooth_address, (said,), ok) && ok ==> said@.len() == 17
            && said@[2] == ':',
        call_ensures(device::is_secure_address, (said,), ok) ==> ok == device::secure_address(
            said@,
        ),
        call_ensures(device::is_secure_address, (said,), ok) && ok ==> said@.len() >= 8 && said@[4]
            == 's' && wire::utf8_len(said@) <= 2048,
        call_ensures(device::is_ssid, (said,), ok) ==> (ok <==> 1 <= wire::utf8_len(said@) <= 32),
        call_ensures(device::is_passphrase, (said,), ok) ==> (ok <==> wire::utf8_len(said@) == 0
            || 8 <= wire::utf8_len(said@) <= 63),
{
    rule_laws::law_digests(said@);
    rule_laws::law_versions(said@);
    rule_laws::law_keys(said@);
    rule_laws::law_identities(said@);
    rule_laws::law_radio_addresses(said@);
    rule_laws::law_secure_addresses(said@);
    rule_laws::law_networks(said@, said@);
}

/// A key that was made for the cache is one, says what was given behind its
/// prefix, and no two are the same for different names.
pub proof fn law_cache_keys_are_known(key: &str, other: &str, made: String, also: String)
    requires
        call_ensures(handles::cache_key, (key,), made),
        call_ensures(handles::cache_key, (other,), also),
    ensures
        made@.len() == key@.len() + 6,
        made@.skip(6) == key@,
        forall|said: &str, cache: bool|
            said@ == made@ && #[trigger] call_ensures(store::is_cache_key, (said,), cache) ==>
                cache,
        made@ == also@ ==> key@ == other@,
{
    reveal_strlit("cache.");
    assert("cache."@.len() == 6);
    assert(made@.skip(6) =~= key@);
    assert(also@.skip(6) =~= other@);
    assert(made@.take(6) =~= "cache."@);
}

/// A text begins with another exactly when the letters of the other come first
/// in it, and it is drawn from an alphabet exactly when each letter is.
pub proof fn law_texts_are_read_from_the_front(
    said: &str,
    prefix: &str,
    begins: bool,
    alphabet: Alphabet,
    drawn: bool,
    nothing: bool,
)
    ensures
        call_ensures(text::begins_with, (said, prefix), begins) ==> (begins <==> prefix@.len()
            <= said@.len() && forall|i: int|
            0 <= i < prefix@.len() ==> said@[i] == #[trigger] prefix@[i]),
        call_ensures(text::drawn_from, (said, alphabet), drawn) ==> (drawn <==> forall|i: int|
            0 <= i < said@.len() ==> alphabet.holds(#[trigger] said@[i])),
        call_ensures(text::says_nothing, (said,), nothing) ==> (nothing <==> forall|i: int|
            0 <= i < said@.len() ==> text::is_blank(#[trigger] said@[i])),
{
    let n = prefix@.len() as int;
    if n <= said@.len() {
        if forall|i: int| 0 <= i < n ==> said@[i] == #[trigger] prefix@[i] {
            assert(said@.take(n) =~= prefix@);
        }
        if said@.take(n) == prefix@ {
            assert forall|i: int| 0 <= i < n implies said@[i] == #[trigger] prefix@[i] by {
                assert(said@.take(n)[i] == said@[i]);
            }
        }
    }
}

/// A name is always known by the same number, which is never zero, and an action
/// by that of its name.
pub proof fn law_names_have_numbers(
    said: &str,
    same: &str,
    first: u32,
    second: u32,
    action: ActionId,
)
    ensures
        call_ensures(name::stable_id, (said,), first) ==> first != 0,
        call_ensures(name::stable_id, (said,), first) && call_ensures(
            name::stable_id,
            (same,),
            second,
        ) && said@ == same@ ==> first == second,
        call_ensures(name::stable_id, (said,), first) && call_ensures(
            name::action_id,
            (same,),
            action,
        ) && said@ == same@ ==> action.0 == first,
        call_ensures(name::stable_id, (said,), first) ==> first == name::identifier_of(said@),
{
}

/// A number written out is read back as that number.
pub proof fn law_numbers_are_written_out(value: u128, written: String)
    requires
        call_ensures(name::decimal, (value,), written),
    ensures
        written@.len() >= 1,
        name::number_in(written@) == value,
{
    name::law_spelled_numbers_read_back(value as nat);
}

// ---------------------------------------------------------------------------
// Spans of time.

/// A span holds the time it was made of, and what is told of it is that time:
/// whole thousandths up to what can be said, and seconds to the nearest, never
/// none.
pub proof fn law_spans_hold_their_time(
    amount: u64,
    seconds: Span,
    millis: Span,
    given: Span,
    told: u32,
    rounded: u32,
)
    ensures
        call_ensures(Span::from_secs, (amount,), seconds) ==> seconds.seconds == amount
            && seconds.nanos == 0,
        call_ensures(Span::from_millis, (amount,), millis) ==> millis.seconds * 1000 + millis.nanos
            / 1_000_000 == amount && millis.nanos < 1_000_000_000 && millis.nanos % 1_000_000 == 0,
        call_ensures(Span::wire_millis, (given,), told) ==> {
            let whole = given.seconds * 1000 + given.nanos / 1_000_000;
            &&& whole <= u32::MAX ==> told == whole
            &&& whole > u32::MAX ==> told == u32::MAX
        },
        call_ensures(span::whole_seconds, (given,), rounded) ==> rounded == given.rounded(),
{
}

// ---------------------------------------------------------------------------
// Applications and batteries.

/// An application is installed when a version of it is, and has an update when
/// that version is not the one on offer.
pub proof fn law_updates_are_other_versions(
    entry: &AppInfo,
    installed: bool,
    update: bool,
    ok: bool,
)
    ensures
        call_ensures(AppInfo::is_installed, (entry,), installed) ==> (installed
            <==> entry.installed_version is Some),
        call_ensures(AppInfo::has_update, (entry,), update) ==> (update
            <==> (entry.installed_version matches Some(version) && version@ != entry.version@)),
        call_ensures(AppInfo::is_installed, (entry,), installed) && call_ensures(
            AppInfo::has_update,
            (entry,),
            update,
        ) && update ==> installed,
        call_ensures(AppInfo::is_well_formed, (entry,), ok) ==> ok == device::app_info_ok(entry@),
{
}

/// What is checked before it is sent is what the rules say.
pub proof fn law_parts_are_checked_by_their_rules(
    entry: &DictionaryEntry,
    link: &AppLinkState,
    header: &Header,
    headers: &Vec<Header>,
    credential: &Credential,
    maybe: &Option<Credential>,
    work: &Task,
    word: &str,
    language: &Option<String>,
    ok: bool,
)
    ensures
        call_ensures(DictionaryEntry::is_well_formed, (entry,), ok) ==> ok
            == device::dictionary_entry_ok(entry@),
        call_ensures(AppLinkState::is_well_formed, (link,), ok) ==> ok == device::app_link_ok(
            link@,
        ),
        call_ensures(Header::is_well_formed, (header,), ok) ==> ok == task::header_ok(header@),
        call_ensures(task::all_well_formed, (headers,), ok) ==> ok == task::headers_ok(
            item::models(headers@),
        ),
        call_ensures(Credential::is_well_formed, (credential,), ok) ==> ok == task::credential_ok(
            credential@,
        ),
        call_ensures(task::absent_or_well_formed, (maybe,), ok) ==> (ok <==> (*maybe matches Some(
            inner,
        ) ==> task::credential_ok(inner@))),
        call_ensures(Task::is_sendable, (work,), ok) ==> ok == task::sendable(work@),
        call_ensures(device::is_lookup, (word, language), ok) ==> (ok <==> {
            &&& exists|i: int| 0 <= i < word@.len() && !text::is_blank(#[trigger] word@[i])
            &&& wire::utf8_len(word@) <= 128
            &&& *language matches Some(code) ==> device::language_ok(code@)
        }),
{
    rule_laws::law_lookups(word@, wire::model_of(*language));
}

/// Only a failure that may pass by itself is worth another try: the reader is
/// offline, the host is unreachable or the time ran out.
pub proof fn law_passing_failures_are_worth_a_try(error: TaskError, worth: bool)
    requires
        call_ensures(TaskError::worth_retrying, (error,), worth),
    ensures
        worth <==> error == TaskError::Offline || error == TaskError::Unreachable || error
            == TaskError::TimedOut,
{
}

/// A battery that still holds all it was made for is at a hundred percent, one
/// that holds less is at the whole hundredths that it holds, and nothing is told
/// of one whose capacities are not known.
pub proof fn law_batteries_tell_their_health(detail: &BatteryDetail, percent: Option<u8>)
    requires
        call_ensures(BatteryDetail::health_percent, (detail,), percent),
    ensures
        detail.charge_full is None || detail.charge_full_design is None ==> percent is None,
        ({
            &&& detail.charge_full matches Some(full)
            &&& detail.charge_full_design matches Some(design)
            &&& full > 0 && design > 0
        }) ==> {
            let full = detail.charge_full->0;
            let design = detail.charge_full_design->0;
            &&& percent matches Some(share)
            &&& full >= design ==> share == 100
            &&& full < design ==> share * design <= full * 100 && full * 100 < (share + 1) * design
        },
{
    if detail.charge_full is Some && detail.charge_full_design is Some {
        let full = detail.charge_full->0;
        let design = detail.charge_full_design->0;
        if full > 0 && design > 0 {
            rule_laws::law_health_is_a_whole_share(full, design);
        }
    }
}

/// A battery that charges is full, and one that drains is empty, after the whole
/// minutes in which its current moves what is still to go.
pub proof fn law_batteries_tell_their_minutes(
    detail: &BatteryDetail,
    minutes: Option<u32>,
    expected: u32,
)
    requires
        call_ensures(BatteryDetail::minutes_remaining, (detail,), minutes),
    ensures
        detail.microamps is None || detail.microamps == Some(0i32) || detail.charge_now is None
            ==> minutes is None,
        ({
            &&& detail.microamps matches Some(current)
            &&& detail.charge_now matches Some(held)
            &&& detail.charge_full matches Some(full)
            &&& current > 0
            &&& 0 < full - held <= i32::MAX
            &&& expected * current <= (full - held) * 60
            &&& (full - held) * 60 < (expected + 1) * current
        }) ==> minutes == Some(expected),
        ({
            &&& detail.microamps matches Some(current)
            &&& detail.charge_now matches Some(held)
            &&& detail.charge_full is Some
            &&& current < 0
            &&& held > 0
            &&& expected * -current <= held * 60
            &&& held * 60 < (expected + 1) * -current
        }) ==> minutes == Some(expected),
{
    if detail.microamps is Some && detail.charge_now is Some && detail.charge_full is Some
        && detail.microamps->0 != 0 {
        rule_laws::law_minutes_to_go(
            detail.microamps->0,
            detail.charge_now->0,
            detail.charge_full->0,
            expected,
        );
    }
}

// ---------------------------------------------------------------------------
// Room on the panel.

/// What is taken from an area is taken from its height alone: what is left is
/// the difference where that is a line or more, and one line otherwise.
pub proof fn law_areas_lose_height_alone(area: ProseArea, strips: Strips, left: ProseArea)
    requires
        call_ensures(ProseArea::screen_area, (area, strips), left),
    ensures
        left.width == area.width,
        left.gap == area.gap,
        1 <= area.height - strips.status <= i32::MAX ==> left.height == area.height
            - strips.status,
        area.height - strips.status < 1 ==> left.height == 1,
        area.height - strips.status > i32::MAX ==> left.height == i32::MAX,
{
}

/// A paginated screen gives up the strip at its foot as well, but only where the
/// position is told there.
pub proof fn law_positions_take_their_strip(
    area: ProseArea,
    strips: Strips,
    position: Position,
    on_screen: ProseArea,
    on_page: ProseArea,
    left: ProseArea,
)
    requires
        call_ensures(ProseArea::screen_area, (area, strips), on_screen),
        call_ensures(ProseArea::paged_area, (area, strips), on_page),
        call_ensures(ProseArea::area_for, (area, strips, position), left),
    ensures
        position is AtTheFoot ==> left == on_page,
        position is Elsewhere ==> left == on_screen,
        on_page.width == area.width,
        on_page.gap == area.gap,
        1 <= on_screen.height - strips.position <= i32::MAX ==> on_page.height == on_screen.height
            - strips.position,
        on_screen.height - strips.position < 1 ==> on_page.height == 1,
        on_screen.height - strips.position > i32::MAX ==> on_page.height == i32::MAX,
{
}

/// What stands under a heading, or under anything else that was placed, has the
/// height that is left once that and one gap are taken off.
pub proof fn law_what_is_above_takes_its_height(
    area: ProseArea,
    taken: i32,
    below: ProseArea,
    under: ProseArea,
)
    requires
        call_ensures(ProseArea::after_section, (area, taken), below),
        call_ensures(ProseArea::under, (area, taken), under),
    ensures
        below.width == area.width,
        below.gap == area.gap,
        under.width == area.width,
        under.gap == area.gap,
        i32::MIN <= area.height - taken <= i32::MAX ==> {
            let height = area.height - taken - area.gap;
            &&& 1 <= height <= i32::MAX ==> below.height == height
            &&& height < 1 ==> below.height == 1
            &&& height > i32::MAX ==> below.height == i32::MAX
        },
        i32::MIN <= taken + area.gap <= i32::MAX ==> {
            let height = area.height - taken - area.gap;
            &&& 1 <= height <= i32::MAX ==> under.height == height
            &&& height < 1 ==> under.height == 1
            &&& height > i32::MAX ==> under.height == i32::MAX
        },
{
}

// ---------------------------------------------------------------------------
// Contexts.

/// What was asked for in a context can be looked at without changing it, and is
/// handed out once: after that nothing is asked for.
pub proof fn law_commands_are_handed_out_once(
    context: &Context,
    emptied: &mut Context,
    count: usize,
    commands: &[Command],
    taken: Vec<Command>,
)
    ensures
        call_ensures(Context::tasks_in_flight, (context,), count) ==> count == context@.in_flight,
        call_ensures(Context::commands, (context,), commands) ==> item::models(commands@)
            == context@.commands,
        call_ensures(Context::take_commands, (emptied,), taken) ==> {
            &&& item::models(taken@) == old(emptied)@.commands
            &&& final(emptied)@.commands.len() == 0
            &&& final(emptied)@.next_task == old(emptied)@.next_task
            &&& final(emptied)@.in_flight == old(emptied)@.in_flight
            &&& final(emptied)@.metrics == old(emptied)@.metrics
            &&& final(emptied)@.retrying == old(emptied)@.retrying
        },
{
}

} // verus!
