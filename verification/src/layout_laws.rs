//! Where each part of what is sent stands among its bytes.

use vstd::prelude::*;

use crate::blob;
use crate::device::{
    AppInfo, AppInfoModel, BatteryDetailModel, BluetoothDevice, BluetoothDeviceModel,
    DeviceRequestModel, DeviceResultModel, DictionaryEntry, DictionaryEntryModel, WifiNetwork,
    WifiNetworkModel,
};
use crate::device_request;
use crate::device_result;
use crate::glyph;
use crate::item;
use crate::item::Wire;
use crate::leaf;
use crate::limits::{MAX_BAND_SLOTS, MAX_CHIPS, MAX_FACTS, MAX_TABS, MAX_TEXT_LINKS};
use crate::lists;
use crate::node;
use crate::parts;
use crate::prose;
use crate::screen;
use crate::shell::{ShellEventModel, ShellRequestModel};
use crate::shell_codec;
use crate::store::{StoreRequestModel, StoreResultModel};
use crate::store_codec;
use crate::task::{
    CredentialModel, Header, HeaderModel, SecretHeaderModel, TaskModel, TaskOutcomeModel,
};
use crate::task_codec;
use crate::ui::{
    BandSlotModel, BarAction, BarActionModel, Cell, CellModel, Chip, ChipModel, InlineFormula,
    NavBarModel, NodeModel, OverlayModel, PageTurns, RichTextSpan, Row, RowModel, ScreenModel,
    TableRow, TableRowModel, TextLink, Tile, TileModel, TopBarModel,
};
use crate::wire;

verus! {

/// The bytes of parts, one after another.
pub open spec fn joined(parts: Seq<Seq<u8>>) -> Seq<u8>
    decreases parts.len(),
{
    if parts.len() == 0 {
        Seq::empty()
    } else {
        joined(parts.drop_last()) + parts.last()
    }
}

proof fn lemma_joined2(
    a: Seq<u8>,
    b: Seq<u8>,
)
    ensures
        joined(seq![a, b]) == a + b,
{
    let parts = seq![a, b];
    assert(parts.drop_last() =~= seq![a]);
    assert(seq![a].drop_last() =~= Seq::empty());
    reveal_with_fuel(joined, 3);
    assert(Seq::<u8>::empty() + a =~= a);
}

proof fn lemma_joined3(
    a: Seq<u8>,
    b: Seq<u8>,
    c: Seq<u8>,
)
    ensures
        joined(seq![a, b, c]) == a + b + c,
{
    lemma_joined2(a, b);
    assert(seq![a, b, c].drop_last() =~= seq![a, b]);
}

proof fn lemma_joined4(
    a: Seq<u8>,
    b: Seq<u8>,
    c: Seq<u8>,
    d: Seq<u8>,
)
    ensures
        joined(seq![a, b, c, d]) == a + b + c + d,
{
    lemma_joined3(a, b, c);
    assert(seq![a, b, c, d].drop_last() =~= seq![a, b, c]);
}

proof fn lemma_joined5(
    a: Seq<u8>,
    b: Seq<u8>,
    c: Seq<u8>,
    d: Seq<u8>,
    e: Seq<u8>,
)
    ensures
        joined(seq![a, b, c, d, e]) == a + b + c + d + e,
{
    lemma_joined4(a, b, c, d);
    assert(seq![a, b, c, d, e].drop_last() =~= seq![a, b, c, d]);
}

proof fn lemma_joined6(
    a: Seq<u8>,
    b: Seq<u8>,
    c: Seq<u8>,
    d: Seq<u8>,
    e: Seq<u8>,
    f: Seq<u8>,
)
    ensures
        joined(seq![a, b, c, d, e, f]) == a + b + c + d + e + f,
{
    lemma_joined5(a, b, c, d, e);
    assert(seq![a, b, c, d, e, f].drop_last() =~= seq![a, b, c, d, e]);
}

proof fn lemma_joined7(
    a: Seq<u8>,
    b: Seq<u8>,
    c: Seq<u8>,
    d: Seq<u8>,
    e: Seq<u8>,
    f: Seq<u8>,
    g: Seq<u8>,
)
    ensures
        joined(seq![a, b, c, d, e, f, g]) == a + b + c + d + e + f + g,
{
    lemma_joined6(a, b, c, d, e, f);
    assert(seq![a, b, c, d, e, f, g].drop_last() =~= seq![a, b, c, d, e, f]);
}

proof fn lemma_joined8(
    a: Seq<u8>,
    b: Seq<u8>,
    c: Seq<u8>,
    d: Seq<u8>,
    e: Seq<u8>,
    f: Seq<u8>,
    g: Seq<u8>,
    h: Seq<u8>,
)
    ensures
        joined(seq![a, b, c, d, e, f, g, h]) == a + b + c + d + e + f + g + h,
{
    lemma_joined7(a, b, c, d, e, f, g);
    assert(seq![a, b, c, d, e, f, g, h].drop_last() =~= seq![a, b, c, d, e, f, g]);
}

proof fn lemma_joined9(
    a: Seq<u8>,
    b: Seq<u8>,
    c: Seq<u8>,
    d: Seq<u8>,
    e: Seq<u8>,
    f: Seq<u8>,
    g: Seq<u8>,
    h: Seq<u8>,
    i: Seq<u8>,
)
    ensures
        joined(seq![a, b, c, d, e, f, g, h, i]) == a + b + c + d + e + f + g + h + i,
{
    lemma_joined8(a, b, c, d, e, f, g, h);
    assert(seq![a, b, c, d, e, f, g, h, i].drop_last() =~= seq![a, b, c, d, e, f, g, h]);
}

proof fn lemma_joined10(
    a: Seq<u8>,
    b: Seq<u8>,
    c: Seq<u8>,
    d: Seq<u8>,
    e: Seq<u8>,
    f: Seq<u8>,
    g: Seq<u8>,
    h: Seq<u8>,
    i: Seq<u8>,
    j: Seq<u8>,
)
    ensures
        joined(seq![a, b, c, d, e, f, g, h, i, j]) == a + b + c + d + e + f + g + h + i + j,
{
    lemma_joined9(a, b, c, d, e, f, g, h, i);
    assert(seq![a, b, c, d, e, f, g, h, i, j].drop_last() =~= seq![a, b, c, d, e, f, g, h, i]);
}

// ---------------------------------------------------------------------------
// Records.

/// A store request is its tag and then its parts in order.
pub proof fn law_store_requests_are_laid_out(request: StoreRequestModel)
    ensures
        match request {
            StoreRequestModel::Save { key, value } => store_codec::request_bytes(request) == joined(
                seq![
                    seq![0u8],
                    wire::text_bytes(key),
                    blob::blob_bytes(value),
                ],
            ),
            StoreRequestModel::Load { key } => store_codec::request_bytes(request) == joined(
                seq![
                    seq![1u8],
                    wire::text_bytes(key),
                ],
            ),
            StoreRequestModel::Forget { key } => store_codec::request_bytes(request) == joined(
                seq![
                    seq![2u8],
                    wire::text_bytes(key),
                ],
            ),
            StoreRequestModel::ShelfWrite {
                name,
                offset,
                bytes,
                last,
            } => store_codec::request_bytes(request) == joined(
                seq![
                    seq![4u8],
                    wire::text_bytes(name),
                    wire::be32(offset),
                    seq![wire::flag_byte(last)],
                    blob::blob_bytes(bytes),
                ],
            ),
            StoreRequestModel::ShelfRead {
                name,
                offset,
                length,
            } => store_codec::request_bytes(request) == joined(
                seq![
                    seq![5u8],
                    wire::text_bytes(name),
                    wire::be32(offset),
                    wire::be32(length),
                ],
            ),
            StoreRequestModel::ShelfRemove { name } => store_codec::request_bytes(request) == joined(
                seq![
                    seq![6u8],
                    wire::text_bytes(name),
                ],
            ),
            _ => true,
        },
{
    reveal(store_codec::request_bytes);
    match request {
        StoreRequestModel::Save { key, value } => {
            lemma_joined3(seq![0u8], wire::text_bytes(key), blob::blob_bytes(value));
        },
        StoreRequestModel::Load { key } => {
            lemma_joined2(seq![1u8], wire::text_bytes(key));
        },
        StoreRequestModel::Forget { key } => {
            lemma_joined2(seq![2u8], wire::text_bytes(key));
        },
        StoreRequestModel::ShelfWrite { name, offset, bytes, last } => {
            lemma_joined5(
                seq![4u8],
                wire::text_bytes(name),
                wire::be32(offset),
                seq![wire::flag_byte(last)],
                blob::blob_bytes(bytes),
            );
        },
        StoreRequestModel::ShelfRead { name, offset, length } => {
            lemma_joined4(
                seq![5u8],
                wire::text_bytes(name),
                wire::be32(offset),
                wire::be32(length),
            );
        },
        StoreRequestModel::ShelfRemove { name } => {
            lemma_joined2(seq![6u8], wire::text_bytes(name));
        },
        _ => {},
    }
}

/// An answer of a store is its tag and then its parts in order.
pub proof fn law_store_results_are_laid_out(result: StoreResultModel)
    ensures
        match result {
            StoreResultModel::Saved { key } => store_codec::result_bytes(result) == joined(
                seq![
                    seq![0u8],
                    wire::text_bytes(key),
                ],
            ),
            StoreResultModel::Loaded { key, value } => store_codec::result_bytes(result) == joined(
                seq![
                    seq![1u8],
                    wire::text_bytes(key),
                    store_codec::value_bytes(value),
                ],
            ),
            StoreResultModel::Forgotten { key } => store_codec::result_bytes(result) == joined(
                seq![
                    seq![2u8],
                    wire::text_bytes(key),
                ],
            ),
            StoreResultModel::Keys(keys) => store_codec::result_bytes(result) == joined(
                seq![
                    seq![3u8],
                    wire::be16(keys.len() as u16),
                    item::bytes_of_all::<String>(keys),
                ],
            ),
            StoreResultModel::Denied(error) => store_codec::result_bytes(result) == joined(
                seq![
                    seq![4u8],
                    seq![error.tag()],
                ],
            ),
            StoreResultModel::ShelfWritten {
                name,
                size,
            } => store_codec::result_bytes(result) == joined(
                seq![
                    seq![5u8],
                    wire::text_bytes(name),
                    wire::be32(size),
                ],
            ),
            StoreResultModel::ShelfRead {
                name,
                offset,
                bytes,
                size,
            } => store_codec::result_bytes(result) == joined(
                seq![
                    seq![6u8],
                    wire::text_bytes(name),
                    wire::be32(offset),
                    wire::be32(size),
                    blob::blob_bytes(bytes),
                ],
            ),
            StoreResultModel::ShelfRemoved { name } => store_codec::result_bytes(result) == joined(
                seq![
                    seq![7u8],
                    wire::text_bytes(name),
                ],
            ),
            StoreResultModel::Shelf(blobs) => store_codec::result_bytes(result) == joined(
                seq![
                    seq![8u8],
                    wire::be16(blobs.len() as u16),
                    item::bytes_of_all::<(String, u32)>(blobs),
                ],
            ),
        },
{
    reveal(store_codec::result_bytes);
    match result {
        StoreResultModel::Saved { key } => {
            lemma_joined2(seq![0u8], wire::text_bytes(key));
        },
        StoreResultModel::Loaded { key, value } => {
            lemma_joined3(seq![1u8], wire::text_bytes(key), store_codec::value_bytes(value));
        },
        StoreResultModel::Forgotten { key } => {
            lemma_joined2(seq![2u8], wire::text_bytes(key));
        },
        StoreResultModel::Keys(keys) => {
            lemma_joined3(
                seq![3u8],
                wire::be16(keys.len() as u16),
                item::bytes_of_all::<String>(keys),
            );
        },
        StoreResultModel::Denied(error) => {
            lemma_joined2(seq![4u8], seq![error.tag()]);
        },
        StoreResultModel::ShelfWritten { name, size } => {
            lemma_joined3(seq![5u8], wire::text_bytes(name), wire::be32(size));
        },
        StoreResultModel::ShelfRead { name, offset, bytes, size } => {
            lemma_joined5(
                seq![6u8],
                wire::text_bytes(name),
                wire::be32(offset),
                wire::be32(size),
                blob::blob_bytes(bytes),
            );
        },
        StoreResultModel::ShelfRemoved { name } => {
            lemma_joined2(seq![7u8], wire::text_bytes(name));
        },
        StoreResultModel::Shelf(blobs) => {
            lemma_joined3(
                seq![8u8],
                wire::be16(blobs.len() as u16),
                item::bytes_of_all::<(String, u32)>(blobs),
            );
        },
    }
}

/// A request to a terminal is its tag and then its parts in order.
pub proof fn law_shell_requests_are_laid_out(request: ShellRequestModel)
    ensures
        match request {
            ShellRequestModel::Open {
                columns,
                rows,
            } => shell_codec::shell_request_bytes(request) == joined(
                seq![
                    seq![0u8],
                    wire::be16(columns),
                    wire::be16(rows),
                ],
            ),
            ShellRequestModel::Input(bytes) => shell_codec::shell_request_bytes(request) == joined(
                seq![
                    seq![1u8],
                    shell_codec::chunk_bytes(bytes),
                ],
            ),
            ShellRequestModel::Resize {
                columns,
                rows,
            } => shell_codec::shell_request_bytes(request) == joined(
                seq![
                    seq![2u8],
                    wire::be16(columns),
                    wire::be16(rows),
                ],
            ),
            _ => true,
        },
{
    match request {
        ShellRequestModel::Open { columns, rows } => {
            lemma_joined3(seq![0u8], wire::be16(columns), wire::be16(rows));
        },
        ShellRequestModel::Input(bytes) => {
            lemma_joined2(seq![1u8], shell_codec::chunk_bytes(bytes));
        },
        ShellRequestModel::Resize { columns, rows } => {
            lemma_joined3(seq![2u8], wire::be16(columns), wire::be16(rows));
        },
        _ => {},
    }
}

/// What a terminal says is its tag and then its parts in order.
pub proof fn law_shell_events_are_laid_out(event: ShellEventModel)
    ensures
        match event {
            ShellEventModel::Output(bytes) => shell_codec::shell_event_bytes(event) == joined(
                seq![
                    seq![1u8],
                    shell_codec::chunk_bytes(bytes),
                ],
            ),
            ShellEventModel::Closed { status } => shell_codec::shell_event_bytes(event) == joined(
                seq![
                    seq![2u8],
                    wire::be32(wire::bits_of_i32(status)),
                ],
            ),
            ShellEventModel::Refused(error) => shell_codec::shell_event_bytes(event) == joined(
                seq![
                    seq![3u8],
                    seq![error.tag()],
                ],
            ),
            _ => true,
        },
{
    match event {
        ShellEventModel::Output(bytes) => {
            lemma_joined2(seq![1u8], shell_codec::chunk_bytes(bytes));
        },
        ShellEventModel::Closed { status } => {
            lemma_joined2(seq![2u8], wire::be32(wire::bits_of_i32(status)));
        },
        ShellEventModel::Refused(error) => {
            lemma_joined2(seq![3u8], seq![error.tag()]);
        },
        _ => {},
    }
}

/// A piece of work is its tag and then its parts in order.
pub proof fn law_work_is_laid_out(work: TaskModel)
    ensures
        match work {
            TaskModel::Fetch {
                url,
                offset,
                max_bytes,
                credential,
                headers,
            } => task_codec::task_bytes(work) == joined(
                seq![
                    seq![0u8],
                    wire::text_bytes(url),
                    wire::be32(offset),
                    wire::be32(max_bytes),
                    task_codec::credential_bytes(credential),
                    seq![headers.len() as u8],
                    item::bytes_of_all::<Header>(headers),
                ],
            ),
            TaskModel::ReadFile { path } => task_codec::task_bytes(work) == joined(
                seq![
                    seq![1u8],
                    wire::text_bytes(path),
                ],
            ),
            TaskModel::Sleep { seconds } => task_codec::task_bytes(work) == joined(
                seq![
                    seq![2u8],
                    wire::be32(seconds),
                ],
            ),
            TaskModel::Post {
                url,
                body,
                content_type,
                credential,
                headers,
                max_bytes,
            } => task_codec::task_bytes(work) == joined(
                seq![
                    seq![3u8],
                    wire::text_bytes(url),
                    wire::body_bytes(body),
                    wire::text_bytes(content_type),
                    task_codec::credential_bytes(credential),
                    seq![headers.len() as u8],
                    item::bytes_of_all::<Header>(headers),
                    wire::be32(max_bytes),
                ],
            ),
            TaskModel::RevokeCredential { credential } => task_codec::task_bytes(work) == joined(
                seq![
                    seq![4u8],
                    wire::text_bytes(credential),
                ],
            ),
        },
{
    reveal(task_codec::task_bytes);
    match work {
        TaskModel::Fetch { url, offset, max_bytes, credential, headers } => {
            lemma_joined7(
                seq![0u8],
                wire::text_bytes(url),
                wire::be32(offset),
                wire::be32(max_bytes),
                task_codec::credential_bytes(credential),
                seq![headers.len() as u8],
                item::bytes_of_all::<Header>(headers),
            );
        },
        TaskModel::ReadFile { path } => {
            lemma_joined2(seq![1u8], wire::text_bytes(path));
        },
        TaskModel::Sleep { seconds } => {
            lemma_joined2(seq![2u8], wire::be32(seconds));
        },
        TaskModel::Post { url, body, content_type, credential, headers, max_bytes } => {
            lemma_joined8(
                seq![3u8],
                wire::text_bytes(url),
                wire::body_bytes(body),
                wire::text_bytes(content_type),
                task_codec::credential_bytes(credential),
                seq![headers.len() as u8],
                item::bytes_of_all::<Header>(headers),
                wire::be32(max_bytes),
            );
        },
        TaskModel::RevokeCredential { credential } => {
            lemma_joined2(seq![4u8], wire::text_bytes(credential));
        },
    }
}

/// An outcome is its tag and then what came of the work.
pub proof fn law_outcomes_are_laid_out(outcome: TaskOutcomeModel)
    ensures
        match outcome {
            TaskOutcomeModel::Completed(bytes) => task_codec::outcome_bytes(outcome) == joined(
                seq![
                    seq![0u8],
                    blob::blob_bytes(bytes),
                ],
            ),
            TaskOutcomeModel::Failed(error) => task_codec::outcome_bytes(outcome) == joined(
                seq![
                    seq![1u8],
                    seq![task_codec::task_error_tag(error)],
                ],
            ),
            _ => true,
        },
{
    match outcome {
        TaskOutcomeModel::Completed(bytes) => {
            lemma_joined2(seq![0u8], blob::blob_bytes(bytes));
        },
        TaskOutcomeModel::Failed(error) => {
            lemma_joined2(seq![1u8], seq![task_codec::task_error_tag(error)]);
        },
        _ => {},
    }
}

/// A request to the device is its tag and then its parts in order.
pub proof fn law_device_requests_are_laid_out(request: DeviceRequestModel)
    ensures
        match request {
            DeviceRequestModel::ReadBattery => device_request::device_request_bytes(request) == joined(
                seq![
                    seq![1u8],
                    wire::be32(0),
                ],
            ),
            DeviceRequestModel::ReleaseWifi => device_request::device_request_bytes(request) == joined(
                seq![
                    seq![3u8],
                    wire::be32(0),
                ],
            ),
            DeviceRequestModel::AllowSleep => device_request::device_request_bytes(request) == joined(
                seq![
                    seq![5u8],
                    wire::be32(0),
                ],
            ),
            DeviceRequestModel::CancelWake => device_request::device_request_bytes(request) == joined(
                seq![
                    seq![7u8],
                    wire::be32(0),
                ],
            ),
            DeviceRequestModel::ReadFrontlight => device_request::device_request_bytes(request) == joined(
                seq![
                    seq![9u8],
                    wire::be32(0),
                ],
            ),
            DeviceRequestModel::HoldWifi { seconds } => device_request::device_request_bytes(request) == joined(
                seq![
                    seq![2u8],
                    wire::be32(seconds),
                ],
            ),
            DeviceRequestModel::KeepAwake { seconds } => device_request::device_request_bytes(request) == joined(
                seq![
                    seq![4u8],
                    wire::be32(seconds),
                ],
            ),
            DeviceRequestModel::ScheduleWake { seconds } => device_request::device_request_bytes(request) == joined(
                seq![
                    seq![6u8],
                    wire::be32(seconds),
                ],
            ),
            DeviceRequestModel::SeekAudio { position_ms } => device_request::device_request_bytes(request) == joined(
                seq![
                    seq![26u8],
                    wire::be32(position_ms),
                ],
            ),
            DeviceRequestModel::SetFrontlight { percent } => device_request::device_request_bytes(request) == joined(
                seq![
                    seq![8u8],
                    wire::be32(percent as u32),
                ],
            ),
            DeviceRequestModel::SetBluetooth { enabled } => device_request::device_request_bytes(request) == joined(
                seq![
                    seq![11u8],
                    seq![wire::flag_byte(enabled)],
                ],
            ),
            DeviceRequestModel::SetWifi { enabled } => device_request::device_request_bytes(request) == joined(
                seq![
                    seq![18u8],
                    seq![wire::flag_byte(enabled)],
                ],
            ),
            DeviceRequestModel::PairBluetooth { address } => device_request::device_request_bytes(request) == joined(
                seq![
                    seq![13u8],
                    wire::text_bytes(address),
                ],
            ),
            DeviceRequestModel::ConnectBluetooth { address } => device_request::device_request_bytes(request) == joined(
                seq![
                    seq![14u8],
                    wire::text_bytes(address),
                ],
            ),
            DeviceRequestModel::DisconnectBluetooth { address } => device_request::device_request_bytes(request) == joined(
                seq![
                    seq![15u8],
                    wire::text_bytes(address),
                ],
            ),
            DeviceRequestModel::ForgetBluetooth { address } => device_request::device_request_bytes(request) == joined(
                seq![
                    seq![16u8],
                    wire::text_bytes(address),
                ],
            ),
            DeviceRequestModel::JoinWifi {
                ssid,
                password,
            } => device_request::device_request_bytes(request) == joined(
                seq![
                    seq![20u8],
                    wire::text_bytes(ssid),
                    wire::text_bytes(password),
                ],
            ),
            DeviceRequestModel::LoadAudio { source } => device_request::device_request_bytes(request) == joined(
                seq![
                    seq![23u8],
                    device_request::source_bytes(source),
                ],
            ),
            DeviceRequestModel::SetAudioVolume { percent } => device_request::device_request_bytes(request) == joined(
                seq![
                    seq![28u8],
                    seq![percent],
                ],
            ),
            DeviceRequestModel::Update {
                url,
                sha256,
            } => device_request::device_request_bytes(request) == joined(
                seq![
                    seq![31u8],
                    wire::text_bytes(url),
                    wire::text_bytes(sha256),
                ],
            ),
            DeviceRequestModel::InstallApp { id } => device_request::device_request_bytes(request) == joined(
                seq![
                    seq![35u8],
                    wire::text_bytes(id),
                ],
            ),
            DeviceRequestModel::UninstallApp { id } => device_request::device_request_bytes(request) == joined(
                seq![
                    seq![36u8],
                    wire::text_bytes(id),
                ],
            ),
            DeviceRequestModel::LookupWord {
                word,
                language,
            } => device_request::device_request_bytes(request) == joined(
                seq![
                    seq![37u8],
                    wire::text_bytes(word),
                    device_request::option_bytes(language),
                ],
            ),
            _ => true,
        },
{
    reveal(device_request::device_request_bytes);
    match request {
        DeviceRequestModel::ReadBattery => {
            lemma_joined2(seq![1u8], wire::be32(0));
        },
        DeviceRequestModel::ReleaseWifi => {
            lemma_joined2(seq![3u8], wire::be32(0));
        },
        DeviceRequestModel::AllowSleep => {
            lemma_joined2(seq![5u8], wire::be32(0));
        },
        DeviceRequestModel::CancelWake => {
            lemma_joined2(seq![7u8], wire::be32(0));
        },
        DeviceRequestModel::ReadFrontlight => {
            lemma_joined2(seq![9u8], wire::be32(0));
        },
        DeviceRequestModel::HoldWifi { seconds } => {
            lemma_joined2(seq![2u8], wire::be32(seconds));
        },
        DeviceRequestModel::KeepAwake { seconds } => {
            lemma_joined2(seq![4u8], wire::be32(seconds));
        },
        DeviceRequestModel::ScheduleWake { seconds } => {
            lemma_joined2(seq![6u8], wire::be32(seconds));
        },
        DeviceRequestModel::SeekAudio { position_ms } => {
            lemma_joined2(seq![26u8], wire::be32(position_ms));
        },
        DeviceRequestModel::SetFrontlight { percent } => {
            lemma_joined2(seq![8u8], wire::be32(percent as u32));
        },
        DeviceRequestModel::SetBluetooth { enabled } => {
            lemma_joined2(seq![11u8], seq![wire::flag_byte(enabled)]);
        },
        DeviceRequestModel::SetWifi { enabled } => {
            lemma_joined2(seq![18u8], seq![wire::flag_byte(enabled)]);
        },
        DeviceRequestModel::PairBluetooth { address } => {
            lemma_joined2(seq![13u8], wire::text_bytes(address));
        },
        DeviceRequestModel::ConnectBluetooth { address } => {
            lemma_joined2(seq![14u8], wire::text_bytes(address));
        },
        DeviceRequestModel::DisconnectBluetooth { address } => {
            lemma_joined2(seq![15u8], wire::text_bytes(address));
        },
        DeviceRequestModel::ForgetBluetooth { address } => {
            lemma_joined2(seq![16u8], wire::text_bytes(address));
        },
        DeviceRequestModel::JoinWifi { ssid, password } => {
            lemma_joined3(seq![20u8], wire::text_bytes(ssid), wire::text_bytes(password));
        },
        DeviceRequestModel::LoadAudio { source } => {
            lemma_joined2(seq![23u8], device_request::source_bytes(source));
        },
        DeviceRequestModel::SetAudioVolume { percent } => {
            lemma_joined2(seq![28u8], seq![percent]);
        },
        DeviceRequestModel::Update { url, sha256 } => {
            lemma_joined3(seq![31u8], wire::text_bytes(url), wire::text_bytes(sha256));
        },
        DeviceRequestModel::InstallApp { id } => {
            lemma_joined2(seq![35u8], wire::text_bytes(id));
        },
        DeviceRequestModel::UninstallApp { id } => {
            lemma_joined2(seq![36u8], wire::text_bytes(id));
        },
        DeviceRequestModel::LookupWord { word, language } => {
            lemma_joined3(
                seq![37u8],
                wire::text_bytes(word),
                device_request::option_bytes(language),
            );
        },
        _ => {},
    }
}

/// An answer of the device is its tag and then its parts in order.
pub proof fn law_device_results_are_laid_out(result: DeviceResultModel)
    ensures
        match result {
            DeviceResultModel::Granted { seconds } => device_result::device_result_bytes(result) == joined(
                seq![
                    seq![2u8],
                    wire::be32(seconds),
                ],
            ),
            DeviceResultModel::Battery {
                percent,
                charging,
            } => device_result::device_result_bytes(result) == joined(
                seq![
                    seq![3u8],
                    seq![percent],
                    seq![ wire::flag_byte(charging), ],
                ],
            ),
            DeviceResultModel::Frontlight { percent } => device_result::device_result_bytes(result) == joined(
                seq![
                    seq![4u8],
                    seq![percent],
                ],
            ),
            DeviceResultModel::Denied(reason) => device_result::device_result_bytes(result) == joined(
                seq![
                    seq![5u8],
                    seq![reason.tag()],
                ],
            ),
            DeviceResultModel::Bluetooth {
                available,
                enabled,
                devices,
                restart_on_exit,
            } => device_result::device_result_bytes(result) == joined(
                seq![
                    seq![6u8],
                    seq![device_result::flags_byte(available, enabled)],
                    seq![devices.len() as u8],
                    item::bytes_of_all::<BluetoothDevice>(devices),
                    seq![ wire::flag_byte(restart_on_exit), ],
                ],
            ),
            DeviceResultModel::Wifi {
                available,
                enabled,
                connected_ssid,
                networks,
            } => device_result::device_result_bytes(result) == joined(
                seq![
                    seq![7u8],
                    seq![device_result::flags_byte(available, enabled)],
                    device_request::option_bytes(connected_ssid),
                    seq![networks.len() as u8],
                    item::bytes_of_all::<WifiNetwork>(networks),
                ],
            ),
            DeviceResultModel::Failed(error) => device_result::device_result_bytes(result) == joined(
                seq![
                    seq![8u8],
                    seq![error.tag()],
                ],
            ),
            DeviceResultModel::Audio {
                available,
                state,
                position_ms,
                duration_ms,
                volume,
            } => device_result::device_result_bytes(result) == joined(
                seq![
                    seq![9u8],
                    seq![wire::flag_byte(available)],
                    seq![state.tag()],
                    wire::be32(position_ms),
                    wire::be32(duration_ms),
                    seq![volume],
                ],
            ),
            DeviceResultModel::BatteryDetail(detail) => device_result::device_result_bytes(result) == joined(
                seq![
                    seq![10u8],
                    device_result::detail_bytes(detail),
                ],
            ),
            DeviceResultModel::Cover {
                available,
                magnet_present,
            } => device_result::device_result_bytes(result) == joined(
                seq![
                    seq![11u8],
                    seq![ wire::flag_byte(available), ],
                    seq![wire::flag_byte(magnet_present)],
                ],
            ),
            DeviceResultModel::Apps { entries } => device_result::device_result_bytes(result) == joined(
                seq![
                    seq![12u8],
                    wire::be16(entries.len() as u16),
                    item::bytes_of_all::<AppInfo>(entries),
                ],
            ),
            DeviceResultModel::Dictionary {
                word,
                entries,
            } => device_result::device_result_bytes(result) == joined(
                seq![
                    seq![13u8],
                    wire::text_bytes(word),
                    seq![entries.len() as u8],
                    item::bytes_of_all::<DictionaryEntry>(entries),
                ],
            ),
            DeviceResultModel::AppLink(state) => device_result::device_result_bytes(result) == joined(
                seq![
                    seq![14u8],
                    device_result::link_bytes(state),
                ],
            ),
            DeviceResultModel::RemoteInstall(outcome) => device_result::device_result_bytes(result) == joined(
                seq![
                    seq![15u8],
                    device_result::remote_bytes(outcome),
                ],
            ),
            _ => true,
        },
{
    reveal(device_result::device_result_bytes);
    match result {
        DeviceResultModel::Granted { seconds } => {
            lemma_joined2(seq![2u8], wire::be32(seconds));
        },
        DeviceResultModel::Battery { percent, charging } => {
            lemma_joined3(seq![3u8], seq![percent], seq![ wire::flag_byte(charging), ]);
        },
        DeviceResultModel::Frontlight { percent } => {
            lemma_joined2(seq![4u8], seq![percent]);
        },
        DeviceResultModel::Denied(reason) => {
            lemma_joined2(seq![5u8], seq![reason.tag()]);
        },
        DeviceResultModel::Bluetooth { available, enabled, devices, restart_on_exit } => {
            lemma_joined5(
                seq![6u8],
                seq![device_result::flags_byte(available, enabled)],
                seq![devices.len() as u8],
                item::bytes_of_all::<BluetoothDevice>(devices),
                seq![ wire::flag_byte(restart_on_exit), ],
            );
        },
        DeviceResultModel::Wifi { available, enabled, connected_ssid, networks } => {
            lemma_joined5(
                seq![7u8],
                seq![device_result::flags_byte(available, enabled)],
                device_request::option_bytes(connected_ssid),
                seq![networks.len() as u8],
                item::bytes_of_all::<WifiNetwork>(networks),
            );
        },
        DeviceResultModel::Failed(error) => {
            lemma_joined2(seq![8u8], seq![error.tag()]);
        },
        DeviceResultModel::Audio { available, state, position_ms, duration_ms, volume } => {
            lemma_joined6(
                seq![9u8],
                seq![wire::flag_byte(available)],
                seq![state.tag()],
                wire::be32(position_ms),
                wire::be32(duration_ms),
                seq![volume],
            );
        },
        DeviceResultModel::BatteryDetail(detail) => {
            lemma_joined2(seq![10u8], device_result::detail_bytes(detail));
        },
        DeviceResultModel::Cover { available, magnet_present } => {
            lemma_joined3(
                seq![11u8],
                seq![ wire::flag_byte(available), ],
                seq![wire::flag_byte(magnet_present)],
            );
        },
        DeviceResultModel::Apps { entries } => {
            lemma_joined3(
                seq![12u8],
                wire::be16(entries.len() as u16),
                item::bytes_of_all::<AppInfo>(entries),
            );
        },
        DeviceResultModel::Dictionary { word, entries } => {
            lemma_joined4(
                seq![13u8],
                wire::text_bytes(word),
                seq![entries.len() as u8],
                item::bytes_of_all::<DictionaryEntry>(entries),
            );
        },
        DeviceResultModel::AppLink(state) => {
            lemma_joined2(seq![14u8], device_result::link_bytes(state));
        },
        DeviceResultModel::RemoteInstall(outcome) => {
            lemma_joined2(seq![15u8], device_result::remote_bytes(outcome));
        },
        _ => {},
    }
}

/// The detail of a battery is its share, what is said of it and its six readings,
/// in order.
pub proof fn law_gauges_are_laid_out(detail: BatteryDetailModel)
    ensures
        device_result::detail_bytes(detail) == joined(
                seq![
                    device_result::share_bytes(detail.percent),
                    device_request::option_bytes(detail.status),
                    device_request::option_bytes(detail.health),
                    device_request::option_bytes(detail.technology),
                    device_result::reading_bytes(detail.decidegrees),
                    device_result::reading_bytes(detail.microvolts),
                    device_result::reading_bytes(detail.microamps),
                    device_result::reading_bytes(detail.charge_now),
                    device_result::reading_bytes(detail.charge_full),
                    device_result::reading_bytes(detail.charge_full_design),
                ],
            ),
{
    reveal(device_result::detail_bytes);
    lemma_joined10(
        device_result::share_bytes(detail.percent),
        device_request::option_bytes(detail.status),
        device_request::option_bytes(detail.health),
        device_request::option_bytes(detail.technology),
        device_result::reading_bytes(detail.decidegrees),
        device_result::reading_bytes(detail.microvolts),
        device_result::reading_bytes(detail.microamps),
        device_result::reading_bytes(detail.charge_now),
        device_result::reading_bytes(detail.charge_full),
        device_result::reading_bytes(detail.charge_full_design),
    );
}

/// A radio peer is its address, its name, its kind and its flags.
pub proof fn law_peers_are_laid_out(model: BluetoothDeviceModel)
    ensures
        BluetoothDevice::bytes(model) == joined(
                seq![
                    wire::text_bytes(model.address),
                    wire::text_bytes(model.name),
                    seq![model.kind.tag()],
                    seq![device_result::flags_byte(model.paired, model.connected)],
                ],
            ),
{
    lemma_joined4(
        wire::text_bytes(model.address),
        wire::text_bytes(model.name),
        seq![model.kind.tag()],
        seq![device_result::flags_byte(model.paired, model.connected)],
    );
}

/// A network is its name, its signal and its flags.
pub proof fn law_networks_are_laid_out(model: WifiNetworkModel)
    ensures
        WifiNetwork::bytes(model) == joined(
                seq![
                    wire::text_bytes(model.ssid),
                    wire::be16(wire::bits_of_i16(model.signal_dbm)),
                    seq![ device_result::flags_byte(model.secured, model.connected), ],
                ],
            ),
{
    lemma_joined3(
        wire::text_bytes(model.ssid),
        wire::be16(wire::bits_of_i16(model.signal_dbm)),
        seq![ device_result::flags_byte(model.secured, model.connected), ],
    );
}

/// A definition is its dictionary, its language, its headword and what it says.
pub proof fn law_definitions_are_laid_out(model: DictionaryEntryModel)
    ensures
        DictionaryEntry::bytes(model) == joined(
                seq![
                    wire::text_bytes(model.dictionary),
                    wire::text_bytes(model.language),
                    wire::text_bytes(model.headword),
                    wire::text_bytes(model.definition),
                ],
            ),
{
    lemma_joined4(
        wire::text_bytes(model.dictionary),
        wire::text_bytes(model.language),
        wire::text_bytes(model.headword),
        wire::text_bytes(model.definition),
    );
}

/// The description of an application is its parts in order.
pub proof fn law_applications_are_laid_out(model: AppInfoModel)
    ensures
        AppInfo::bytes(model) == joined(
                seq![
                    wire::text_bytes(model.id),
                    wire::text_bytes(model.title),
                    wire::text_bytes(model.label),
                    wire::text_bytes(model.summary),
                    wire::text_bytes(model.version),
                    seq![ glyph::glyph_tag(model.glyph), ],
                    seq![model.capabilities.len() as u8],
                    item::bytes_of_all::<String>(model.capabilities),
                    device_request::option_bytes(model.installed_version),
                ],
            ),
{
    lemma_joined9(
        wire::text_bytes(model.id),
        wire::text_bytes(model.title),
        wire::text_bytes(model.label),
        wire::text_bytes(model.summary),
        wire::text_bytes(model.version),
        seq![ glyph::glyph_tag(model.glyph), ],
        seq![model.capabilities.len() as u8],
        item::bytes_of_all::<String>(model.capabilities),
        device_request::option_bytes(model.installed_version),
    );
}

/// A header is its name and its value.
pub proof fn law_headers_are_laid_out(model: HeaderModel)
    ensures
        Header::bytes(model) == joined(
                seq![
                    wire::text_bytes(model.name),
                    wire::text_bytes(model.value),
                ],
            ),
{
    lemma_joined2(wire::text_bytes(model.name), wire::text_bytes(model.value));
}

// ---------------------------------------------------------------------------
// Parts of a screen.

/// A control of a bar is its action, its mark and its label.
pub proof fn law_bar_actions_are_laid_out(model: BarActionModel)
    ensures
        BarAction::bytes(model) == joined(
                seq![
                    wire::be32(model.action.0),
                    parts::mark_bytes(model.glyph),
                    wire::text_bytes(model.label),
                ],
            ),
{
    lemma_joined3(
        wire::be32(model.action.0),
        parts::mark_bytes(model.glyph),
        wire::text_bytes(model.label),
    );
}

/// A chip is its action, whether it is chosen, and its label.
pub proof fn law_chips_are_laid_out(model: ChipModel)
    ensures
        Chip::bytes(model) == joined(
                seq![
                    wire::be32(model.action.0),
                    seq![wire::flag_byte(model.selected)],
                    wire::text_bytes(model.label),
                ],
            ),
{
    lemma_joined3(
        wire::be32(model.action.0),
        seq![wire::flag_byte(model.selected)],
        wire::text_bytes(model.label),
    );
}

/// A cell is its action, its label and its mark.
pub proof fn law_cells_are_laid_out(model: CellModel)
    ensures
        Cell::bytes(model) == joined(
                seq![
                    wire::be32(model.action.0),
                    wire::text_bytes(model.label),
                    parts::mark_bytes(model.glyph),
                ],
            ),
{
    lemma_joined3(
        wire::be32(model.action.0),
        wire::text_bytes(model.label),
        parts::mark_bytes(model.glyph),
    );
}

/// A row is its action, its title, its summary, its lead, its state, the word at
/// its far end and its menu.
pub proof fn law_rows_are_laid_out(model: RowModel)
    ensures
        Row::bytes(model) == joined(
                seq![
                    wire::be32(model.action.0),
                    wire::text_bytes(model.title),
                    wire::text_bytes(model.summary),
                    parts::lead_bytes(model.lead),
                    seq![parts::row_state_tag(model.state)],
                    parts::trailing_bytes(model.trailing),
                    parts::menu_bytes(model.menu),
                ],
            ),
{
    lemma_joined7(
        wire::be32(model.action.0),
        wire::text_bytes(model.title),
        wire::text_bytes(model.summary),
        parts::lead_bytes(model.lead),
        seq![parts::row_state_tag(model.state)],
        parts::trailing_bytes(model.trailing),
        parts::menu_bytes(model.menu),
    );
}

/// A tile is its action, its label, its icon, its state, its badge, its subtitle
/// and its picture.
pub proof fn law_tiles_are_laid_out(model: TileModel)
    ensures
        Tile::bytes(model) == joined(
                seq![
                    wire::be32(model.action.0),
                    wire::text_bytes(model.label),
                    seq![glyph::glyph_tag(model.glyph)],
                    seq![parts::tile_state_tag(model.state)],
                    wire::text_bytes(model.badge),
                    wire::text_bytes(model.subtitle),
                    parts::cover_bytes(model.picture),
                ],
            ),
{
    lemma_joined7(
        wire::be32(model.action.0),
        wire::text_bytes(model.label),
        seq![glyph::glyph_tag(model.glyph)],
        seq![parts::tile_state_tag(model.state)],
        wire::text_bytes(model.badge),
        wire::text_bytes(model.subtitle),
        parts::cover_bytes(model.picture),
    );
}

/// A row of a table is whether it is a heading, how many cells it has, and those.
pub proof fn law_table_rows_are_laid_out(model: TableRowModel)
    ensures
        TableRow::bytes(model) == joined(
                seq![
                    seq![wire::flag_byte(model.header)],
                    seq![model.cells.len() as u8],
                    item::bytes_of_all::<String>(model.cells),
                ],
            ),
{
    lemma_joined3(
        seq![wire::flag_byte(model.header)],
        seq![model.cells.len() as u8],
        item::bytes_of_all::<String>(model.cells),
    );
}

/// A link is its action and the run it is on.
pub proof fn law_text_links_are_laid_out(model: TextLink)
    ensures
        TextLink::bytes(model) == joined(
                seq![
                    wire::be32(model.action.0),
                    wire::be32(prose::clipped(model.start)),
                    wire::be32(prose::clipped(model.end)),
                ],
            ),
{
    lemma_joined3(
        wire::be32(model.action.0),
        wire::be32(prose::clipped(model.start)),
        wire::be32(prose::clipped(model.end)),
    );
}

/// A span is the run it styles and its style.
pub proof fn law_spans_are_laid_out(model: RichTextSpan)
    ensures
        RichTextSpan::bytes(model) == joined(
                seq![
                    wire::be32(prose::clipped(model.start)),
                    wire::be32(prose::clipped(model.end)),
                    seq![prose::style_byte(model.presentation)],
                ],
            ),
{
    lemma_joined3(
        wire::be32(prose::clipped(model.start)),
        wire::be32(prose::clipped(model.end)),
        seq![prose::style_byte(model.presentation)],
    );
}

/// A formula is its picture, the run it is drawn over and its size.
pub proof fn law_formulas_are_laid_out(model: InlineFormula)
    ensures
        InlineFormula::bytes(model) == joined(
                seq![
                    wire::be32(model.handle.0),
                    wire::be32(prose::clipped(model.start)),
                    wire::be32(prose::clipped(model.end)),
                    wire::be32(model.source.0),
                    wire::be32(model.source.1),
                ],
            ),
{
    lemma_joined5(
        wire::be32(model.handle.0),
        wire::be32(prose::clipped(model.start)),
        wire::be32(prose::clipped(model.end)),
        wire::be32(model.source.0),
        wire::be32(model.source.1),
    );
}

/// What a node holds stands behind its tag and its number, part by part.
pub proof fn law_nodes_are_laid_out(node: NodeModel)
    ensures
        match node {
            NodeModel::Heading { id, text, level } => leaf::leaf_body(node) == joined(
                seq![
                    wire::text_bytes(text),
                    seq![level],
                ],
            ),
            NodeModel::Text { id, text, links } => {
                let sent = prose::at_most(links, MAX_TEXT_LINKS as int); 
                leaf::leaf_body(node) == joined(
                seq![
                    wire::text_bytes(text),
                    seq![sent.len() as u8],
                    item::bytes_of_all::<TextLink>(sent),
                ],
            )
            },
            NodeModel::RichText { id, text, spans, links, presentation, selection, formulae } => {
                let sent = prose::at_most(
                    links,
                    MAX_TEXT_LINKS as int,
                ); let drawn = prose::at_most(formulae, crate::limits::MAX_INLINE_FORMULAE as int);
                leaf::leaf_body(node) == joined(
                seq![
                    wire::text_bytes(text),
                    wire::be16(spans.len() as u16),
                    item::bytes_of_all::<RichTextSpan>(spans),
                    prose::presentation_bytes(presentation),
                    seq![sent.len() as u8],
                    item::bytes_of_all::<TextLink>(sent),
                    prose::selection_bytes(selection),
                    seq![drawn.len() as u8],
                    item::bytes_of_all::<InlineFormula>(drawn),
                ],
            )
            },
            NodeModel::Section { id, title, value } => leaf::leaf_body(node) == joined(
                seq![
                    wire::text_bytes(title),
                    parts::trailing_bytes(value),
                ],
            ),
            NodeModel::Quote { id, depth, role, text, fold } => leaf::leaf_body(node) == joined(
                seq![
                    seq![leaf::drawn_depth(depth)],
                    seq![leaf::role_tag(role)],
                    leaf::fold_bytes(fold),
                    wire::text_bytes(text),
                ],
            ),
            NodeModel::Button {
                id,
                action,
                label,
                state,
                emphasis,
            } => leaf::leaf_body(node) == joined(
                seq![
                    wire::be32(action.0),
                    seq![parts::control_tag(state)],
                    seq![leaf::emphasis_tag(emphasis)],
                    wire::text_bytes(label),
                ],
            ),
            NodeModel::Field {
                id,
                action,
                value,
                placeholder,
                clear,
            } => leaf::leaf_body(node) == joined(
                seq![
                    wire::be32(action.0),
                    wire::text_bytes(value),
                    wire::text_bytes(placeholder),
                    leaf::clear_bytes(clear),
                ],
            ),
            NodeModel::Chips { id, chips } => {
                let sent = prose::at_most(chips, MAX_CHIPS as int); 
                leaf::leaf_body(node) == joined(
                seq![
                    seq![sent.len() as u8],
                    item::bytes_of_all::<Chip>(sent),
                ],
            )
            },
            NodeModel::Tabs { id, tabs, selected } => {
                let sent = prose::at_most(tabs, MAX_TABS as int); 
                leaf::leaf_body(node) == joined(
                seq![
                    seq![sent.len() as u8],
                    seq![leaf::tab_byte(selected)],
                    lists::tabs_bytes(sent),
                ],
            )
            },
            NodeModel::Facts { id, entries } => {
                let sent = prose::at_most(entries, MAX_FACTS as int); 
                leaf::leaf_body(node) == joined(
                seq![
                    wire::be16(sent.len() as u16),
                    item::bytes_of_all::<(String, String)>(sent),
                ],
            )
            },
            NodeModel::PagedList { id, page, items } => leaf::leaf_body(node) == joined(
                seq![
                    wire::be16(page),
                    wire::be16(items.len() as u16),
                    item::bytes_of_all::<String>(items),
                ],
            ),
            NodeModel::Grid { id, columns, square, cells } => leaf::leaf_body(node) == joined(
                seq![
                    seq![columns],
                    seq![wire::flag_byte(square)],
                    seq![cells.len() as u8],
                    item::bytes_of_all::<Cell>(cells),
                ],
            ),
            NodeModel::Rows { id, rows } => leaf::leaf_body(node) == joined(
                seq![
                    seq![rows.len() as u8],
                    item::bytes_of_all::<Row>(rows),
                ],
            ),
            NodeModel::TileGrid { id, tiles, shape } => leaf::leaf_body(node) == joined(
                seq![
                    seq![leaf::shape_tag(shape)],
                    seq![tiles.len() as u8],
                    item::bytes_of_all::<Tile>(tiles),
                ],
            ),
            NodeModel::Picture {
                id,
                handle,
                source,
                max_height_tenths_mm,
                framed,
            } => leaf::leaf_body(node) == joined(
                seq![
                    wire::be32(handle.0),
                    wire::be32(source.0),
                    wire::be32(source.1),
                    wire::be16(max_height_tenths_mm),
                    seq![wire::flag_byte(framed)],
                ],
            ),
            NodeModel::Table { id, rows, weights } => leaf::leaf_body(node) == joined(
                seq![
                    seq![weights.len() as u8],
                    item::bytes_of_all::<u16>(weights),
                    seq![rows.len() as u8],
                    item::bytes_of_all::<TableRow>(rows),
                ],
            ),
            NodeModel::Stepper {
                id,
                label,
                less,
                more,
                less_state,
                more_state,
                fill,
            } => leaf::leaf_body(node) == joined(
                seq![
                    wire::text_bytes(label),
                    BarAction::bytes(less),
                    BarAction::bytes(more),
                    seq![parts::control_tag(less_state)],
                    seq![parts::control_tag(more_state)],
                    seq![leaf::fill_byte(fill)],
                ],
            ),
            NodeModel::Choice {
                id,
                prompt,
                options,
                selected,
                freeform,
            } => leaf::leaf_body(node) == joined(
                seq![
                    wire::text_bytes(prompt),
                    seq![options.len() as u8],
                    item::bytes_of_all::<BarAction>(options),
                    seq![leaf::answer_byte(selected, options.len() as int)],
                    leaf::freeform_bytes(freeform),
                ],
            ),
            NodeModel::Banner { id, level, text } => leaf::leaf_body(node) == joined(
                seq![
                    seq![leaf::level_tag(level)],
                    wire::text_bytes(text),
                ],
            ),
            NodeModel::Splash { id, glyph, title, summary } => leaf::leaf_body(node) == joined(
                seq![
                    parts::mark_bytes(glyph),
                    wire::text_bytes(title),
                    wire::text_bytes(summary),
                ],
            ),
            NodeModel::Activity {
                id,
                label,
                progress,
                cancel,
                transferred,
                failure,
            } => leaf::leaf_body(node) == joined(
                seq![
                    wire::text_bytes(label),
                    leaf::progress_bytes(progress),
                    leaf::cancel_bytes(cancel),
                    leaf::transfer_bytes(transferred),
                    leaf::failure_bytes(failure),
                ],
            ),
            NodeModel::Terminal { id, rows, cursor } => leaf::leaf_body(node) == joined(
                seq![
                    seq![rows.len() as u8],
                    item::bytes_of_all::<String>(rows),
                    leaf::cursor_bytes(cursor),
                ],
            ),
            _ => true,
        },
{
    reveal(leaf::leaf_body);
    match node {
        NodeModel::Heading { id, text, level } => {
            lemma_joined2(wire::text_bytes(text), seq![level]);
        },
        NodeModel::Text { id, text, links } => {
            let sent = prose::at_most(links, MAX_TEXT_LINKS as int); 
            lemma_joined3(
                wire::text_bytes(text),
                seq![sent.len() as u8],
                item::bytes_of_all::<TextLink>(sent),
            );
        },
        NodeModel::RichText { id, text, spans, links, presentation, selection, formulae } => {
            let sent = prose::at_most(
                links,
                MAX_TEXT_LINKS as int,
            ); let drawn = prose::at_most(formulae, crate::limits::MAX_INLINE_FORMULAE as int);
            lemma_joined9(
                wire::text_bytes(text),
                wire::be16(spans.len() as u16),
                item::bytes_of_all::<RichTextSpan>(spans),
                prose::presentation_bytes(presentation),
                seq![sent.len() as u8],
                item::bytes_of_all::<TextLink>(sent),
                prose::selection_bytes(selection),
                seq![drawn.len() as u8],
                item::bytes_of_all::<InlineFormula>(drawn),
            );
        },
        NodeModel::Section { id, title, value } => {
            lemma_joined2(wire::text_bytes(title), parts::trailing_bytes(value));
        },
        NodeModel::Quote { id, depth, role, text, fold } => {
            lemma_joined4(
                seq![leaf::drawn_depth(depth)],
                seq![leaf::role_tag(role)],
                leaf::fold_bytes(fold),
                wire::text_bytes(text),
            );
        },
        NodeModel::Button { id, action, label, state, emphasis } => {
            lemma_joined4(
                wire::be32(action.0),
                seq![parts::control_tag(state)],
                seq![leaf::emphasis_tag(emphasis)],
                wire::text_bytes(label),
            );
        },
        NodeModel::Field { id, action, value, placeholder, clear } => {
            lemma_joined4(
                wire::be32(action.0),
                wire::text_bytes(value),
                wire::text_bytes(placeholder),
                leaf::clear_bytes(clear),
            );
        },
        NodeModel::Chips { id, chips } => {
            let sent = prose::at_most(chips, MAX_CHIPS as int); 
            lemma_joined2(seq![sent.len() as u8], item::bytes_of_all::<Chip>(sent));
        },
        NodeModel::Tabs { id, tabs, selected } => {
            let sent = prose::at_most(tabs, MAX_TABS as int); 
            lemma_joined3(
                seq![sent.len() as u8],
                seq![leaf::tab_byte(selected)],
                lists::tabs_bytes(sent),
            );
        },
        NodeModel::Facts { id, entries } => {
            let sent = prose::at_most(entries, MAX_FACTS as int); 
            lemma_joined2(
                wire::be16(sent.len() as u16),
                item::bytes_of_all::<(String, String)>(sent),
            );
        },
        NodeModel::PagedList { id, page, items } => {
            lemma_joined3(
                wire::be16(page),
                wire::be16(items.len() as u16),
                item::bytes_of_all::<String>(items),
            );
        },
        NodeModel::Grid { id, columns, square, cells } => {
            lemma_joined4(
                seq![columns],
                seq![wire::flag_byte(square)],
                seq![cells.len() as u8],
                item::bytes_of_all::<Cell>(cells),
            );
        },
        NodeModel::Rows { id, rows } => {
            lemma_joined2(seq![rows.len() as u8], item::bytes_of_all::<Row>(rows));
        },
        NodeModel::TileGrid { id, tiles, shape } => {
            lemma_joined3(
                seq![leaf::shape_tag(shape)],
                seq![tiles.len() as u8],
                item::bytes_of_all::<Tile>(tiles),
            );
        },
        NodeModel::Picture { id, handle, source, max_height_tenths_mm, framed } => {
            lemma_joined5(
                wire::be32(handle.0),
                wire::be32(source.0),
                wire::be32(source.1),
                wire::be16(max_height_tenths_mm),
                seq![wire::flag_byte(framed)],
            );
        },
        NodeModel::Table { id, rows, weights } => {
            lemma_joined4(
                seq![weights.len() as u8],
                item::bytes_of_all::<u16>(weights),
                seq![rows.len() as u8],
                item::bytes_of_all::<TableRow>(rows),
            );
        },
        NodeModel::Stepper { id, label, less, more, less_state, more_state, fill } => {
            lemma_joined6(
                wire::text_bytes(label),
                BarAction::bytes(less),
                BarAction::bytes(more),
                seq![parts::control_tag(less_state)],
                seq![parts::control_tag(more_state)],
                seq![leaf::fill_byte(fill)],
            );
        },
        NodeModel::Choice { id, prompt, options, selected, freeform } => {
            lemma_joined5(
                wire::text_bytes(prompt),
                seq![options.len() as u8],
                item::bytes_of_all::<BarAction>(options),
                seq![leaf::answer_byte(selected, options.len() as int)],
                leaf::freeform_bytes(freeform),
            );
        },
        NodeModel::Banner { id, level, text } => {
            lemma_joined2(seq![leaf::level_tag(level)], wire::text_bytes(text));
        },
        NodeModel::Splash { id, glyph, title, summary } => {
            lemma_joined3(
                parts::mark_bytes(glyph),
                wire::text_bytes(title),
                wire::text_bytes(summary),
            );
        },
        NodeModel::Activity { id, label, progress, cancel, transferred, failure } => {
            lemma_joined5(
                wire::text_bytes(label),
                leaf::progress_bytes(progress),
                leaf::cancel_bytes(cancel),
                leaf::transfer_bytes(transferred),
                leaf::failure_bytes(failure),
            );
        },
        NodeModel::Terminal { id, rows, cursor } => {
            lemma_joined3(
                seq![rows.len() as u8],
                item::bytes_of_all::<String>(rows),
                leaf::cursor_bytes(cursor),
            );
        },
        _ => {},
    }
}

/// A node is its tag, its number and what it holds; a card holds how many nodes
/// it has and those, a band how its columns stand, how many there are and those.
pub proof fn law_trees_are_laid_out(node: NodeModel)
    ensures
        match node {
            NodeModel::Card { id, children } => node::node_bytes(node) == joined(
                seq![
                    seq![4u8],
                    wire::be32(id.0),
                    wire::be16(children.len() as u16),
                    node::nodes_bytes(children),
                ],
            ),
            NodeModel::Band { id, align, slots } => node::node_bytes(node) == joined(
                seq![
                    seq![22u8],
                    wire::be32(id.0),
                    seq![node::align_tag(align)],
                    seq![node::drawn_slots(slots) as u8],
                    node::slots_bytes(slots, MAX_BAND_SLOTS as nat),
                ],
            ),
            _ => node::node_bytes(node) == joined(
                seq![
                    seq![leaf::node_tag(node)],
                    wire::be32(leaf::node_id(node).0),
                    leaf::leaf_body(node),
                ],
            ),
        },
{
    broadcast use wire::lemma_concat_to_the_left;

    match node {
        NodeModel::Card { id, children } => {
            lemma_joined4(
                seq![4u8],
                wire::be32(id.0),
                wire::be16(children.len() as u16),
                node::nodes_bytes(children),
            );
        },
        NodeModel::Band { id, align, slots } => {
            lemma_joined5(
                seq![22u8],
                wire::be32(id.0),
                seq![node::align_tag(align)],
                seq![node::drawn_slots(slots) as u8],
                node::slots_bytes(slots, MAX_BAND_SLOTS as nat),
            );
        },
        _ => {
            lemma_joined3(
                seq![leaf::node_tag(node)],
                wire::be32(leaf::node_id(node).0),
                leaf::leaf_body(node),
            );
        },
    }
}

/// A column is its width, how many nodes it has, and those.
pub proof fn law_columns_are_laid_out(slot: BandSlotModel)
    ensures
        node::slot_bytes(slot) == joined(
                seq![
                    node::width_bytes(slot.width),
                    wire::be16(slot.nodes.len() as u16),
                    node::nodes_bytes(slot.nodes),
                ],
            ),
{
    lemma_joined3(
        node::width_bytes(slot.width),
        wire::be16(slot.nodes.len() as u16),
        node::nodes_bytes(slot.nodes),
    );
}

// ---------------------------------------------------------------------------
// Screens.

/// A bar at the top is its number, its title, how many controls it has, and
/// those.
pub proof fn law_top_bars_are_laid_out(given: Option<TopBarModel>)
    ensures
        match given {
            Some(bar) => screen::top_bar_bytes(given) == joined(
                seq![
                    seq![1u8],
                    wire::be32(bar.id.0),
                    wire::text_bytes(bar.title),
                    seq![ screen::bar_actions(bar).len() as u8, ],
                    item::bytes_of_all::<BarAction>(screen::bar_actions(bar)),
                ],
            ),
            _ => true,
        },
{
    reveal(screen::top_bar_bytes);
    match given {
        Some(bar) => {
            lemma_joined5(
                seq![1u8],
                wire::be32(bar.id.0),
                wire::text_bytes(bar.title),
                seq![ screen::bar_actions(bar).len() as u8, ],
                item::bytes_of_all::<BarAction>(screen::bar_actions(bar)),
            );
        },
        _ => {},
    }
}

/// A bar at the bottom is its style, its number, how many places it has, which of
/// them is current, and those.
pub proof fn law_nav_bars_are_laid_out(given: Option<NavBarModel>)
    ensures
        match given {
            Some(bar) => screen::nav_bar_bytes(given) == joined(
                seq![
                    seq![screen::style_tag(bar.style)],
                    wire::be32(bar.id.0),
                    seq![ bar.destinations.len() as u8, ],
                    seq![screen::selection_byte(bar.selected)],
                    item::bytes_of_all::<BarAction>(bar.destinations),
                ],
            ),
            _ => true,
        },
{
    reveal(screen::nav_bar_bytes);
    match given {
        Some(bar) => {
            lemma_joined5(
                seq![screen::style_tag(bar.style)],
                wire::be32(bar.id.0),
                seq![ bar.destinations.len() as u8, ],
                seq![screen::selection_byte(bar.selected)],
                item::bytes_of_all::<BarAction>(bar.destinations),
            );
        },
        _ => {},
    }
}

/// The habits of a screen are what holding it does, whether it keeps its own way
/// back, its text size, whether it is read, its font and its surface.
pub proof fn law_habits_are_laid_out(screen: ScreenModel)
    ensures
        screen::habits_bytes(screen) == joined(
                seq![
                    screen::word_bytes(screen::word_of_hold(screen.hold)),
                    seq![wire::flag_byte(screen.owns_back)],
                    seq![ screen::scale_byte(screen.text_scale), ],
                    seq![wire::flag_byte(screen.reading)],
                    screen::word_bytes(screen::word_of_font(screen.reading_font)),
                    screen::surface_bytes(screen.reading_surface),
                ],
            ),
{
    reveal(screen::habits_bytes);
    lemma_joined6(
        screen::word_bytes(screen::word_of_hold(screen.hold)),
        seq![wire::flag_byte(screen.owns_back)],
        seq![ screen::scale_byte(screen.text_scale), ],
        seq![wire::flag_byte(screen.reading)],
        screen::word_bytes(screen::word_of_font(screen.reading_font)),
        screen::surface_bytes(screen.reading_surface),
    );
}

/// What covers a screen is its number, its kind, its title, how many nodes it has,
/// and those.
pub proof fn law_overlays_are_laid_out(given: Option<OverlayModel>)
    ensures
        match given {
            Some(overlay) => screen::overlay_bytes(given) == joined(
                seq![
                    seq![1u8],
                    wire::be32(overlay.id.0),
                    screen::kind_bytes(overlay.kind),
                    wire::text_bytes(overlay.title),
                    wire::be16(overlay.nodes.len() as u16),
                    node::nodes_bytes(overlay.nodes),
                ],
            ),
            _ => true,
        },
{
    reveal(screen::overlay_bytes);
    match given {
        Some(overlay) => {
            lemma_joined6(
                seq![1u8],
                wire::be32(overlay.id.0),
                screen::kind_bytes(overlay.kind),
                wire::text_bytes(overlay.title),
                wire::be16(overlay.nodes.len() as u16),
                node::nodes_bytes(overlay.nodes),
            );
        },
        _ => {},
    }
}

/// A screen is its number, its bars, what its sides do, its habits, how many nodes
/// it has, those, and what covers it.
pub proof fn law_screens_are_laid_out(screen: ScreenModel)
    ensures
        screen::screen_bytes(screen) == joined(
                seq![
                    wire::be32(screen.id),
                    screen::top_bar_bytes(screen.top_bar),
                    screen::nav_bar_bytes(screen.nav_bar),
                    screen::bottom_bytes(screen.bottom_action, screen.nav_bar is None),
                    screen::turns_bytes(screen.page_turns),
                    screen::habits_bytes(screen),
                    wire::be16(screen.nodes.len() as u16),
                    node::nodes_bytes(screen.nodes),
                    screen::overlay_bytes(screen.overlay),
                ],
            ),
{
    lemma_joined9(
        wire::be32(screen.id),
        screen::top_bar_bytes(screen.top_bar),
        screen::nav_bar_bytes(screen.nav_bar),
        screen::bottom_bytes(screen.bottom_action, screen.nav_bar is None),
        screen::turns_bytes(screen.page_turns),
        screen::habits_bytes(screen),
        wire::be16(screen.nodes.len() as u16),
        node::nodes_bytes(screen.nodes),
        screen::overlay_bytes(screen.overlay),
    );
}

/// The sides of a page are whether there is a menu, what goes back, what goes on,
/// the menu and the position, and a surface its chrome, its number and its
/// picture.
pub proof fn law_sides_and_surfaces_are_laid_out(
    turns: PageTurns,
    surface: crate::ui::ReadingSurface,
)
    ensures
        turns.menu is None ==> screen::turns_bytes(Some(turns)) == joined(
            seq![
                seq![1u8],
                wire::be32(turns.previous.0),
                wire::be32(turns.next.0),
                screen::position_bytes(turns.position),
            ],
        ),
        turns.menu matches Some(menu) ==> screen::turns_bytes(Some(turns)) == joined(
            seq![
                seq![2u8],
                wire::be32(turns.previous.0),
                wire::be32(turns.next.0),
                wire::be32(menu.0),
                screen::position_bytes(turns.position),
            ],
        ),
        turns.position matches Some(place) ==> screen::position_bytes(turns.position) == joined(
            seq![seq![1u8], wire::be16(place.0), wire::be16(place.1)],
        ),
        screen::surface_bytes(Some(surface)) == joined(
            seq![
                if surface.chrome is Hidden {
                    seq![1u8]
                } else {
                    seq![2u8]
                },
                wire::be32(surface.id.0),
                wire::be32(surface.picture.handle.0),
                wire::be32(surface.picture.source.0),
                wire::be32(surface.picture.source.1),
            ],
        ),
{
    broadcast use wire::lemma_concat_nothing;

    reveal(screen::turns_bytes);
    match turns.menu {
        None => {
            lemma_joined4(
                seq![1u8],
                wire::be32(turns.previous.0),
                wire::be32(turns.next.0),
                screen::position_bytes(turns.position),
            );
        },
        Some(menu) => {
            lemma_joined5(
                seq![2u8],
                wire::be32(turns.previous.0),
                wire::be32(turns.next.0),
                wire::be32(menu.0),
                screen::position_bytes(turns.position),
            );
        },
    }
    if let Some(place) = turns.position {
        lemma_joined3(seq![1u8], wire::be16(place.0), wire::be16(place.1));
    }
    lemma_joined5(
        if surface.chrome is Hidden {
            seq![1u8]
        } else {
            seq![2u8]
        },
        wire::be32(surface.id.0),
        wire::be32(surface.picture.handle.0),
        wire::be32(surface.picture.source.0),
        wire::be32(surface.picture.source.1),
    );
}

/// A credential is how it is sent, the header it names where it names one, and
/// the name of its secret.
pub proof fn law_credentials_are_laid_out(credential: CredentialModel)
    ensures
        task_codec::credential_bytes(None) == seq![0u8],
        task_codec::credential_bytes(Some(credential)) == match credential.header {
            SecretHeaderModel::Bearer => joined(
                seq![seq![1u8], wire::text_bytes(credential.secret)],
            ),
            SecretHeaderModel::Named(name) => joined(
                seq![seq![2u8], wire::text_bytes(name), wire::text_bytes(credential.secret)],
            ),
            SecretHeaderModel::Basic => joined(
                seq![seq![3u8], wire::text_bytes(credential.secret)],
            ),
        },
{
    reveal(task_codec::credential_bytes);
    lemma_joined2(seq![1u8], wire::text_bytes(credential.secret));
    lemma_joined2(seq![3u8], wire::text_bytes(credential.secret));
    if let SecretHeaderModel::Named(name) = credential.header {
        lemma_joined3(seq![2u8], wire::text_bytes(name), wire::text_bytes(credential.secret));
    }
}

} // verus!
