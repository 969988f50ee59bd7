//! What an application asks for when it asks: each operation asks for one thing,
//! behind whatever was asked for before, or for nothing.

use vstd::prelude::*;

use crate::client;
use crate::command::CommandModel;
use crate::context;
use crate::context::{Context, ContextModel, DisplayMetrics};
use crate::device;
use crate::device::{AudioSource, AudioSourceModel, DeviceRequestModel, LogLevel};
use crate::handles::{AppShelf, AppShell, AppStore, Applications};
use crate::hardware;
use crate::hardware::Device;
use crate::limits::{CACHE_PREFIX, MAX_FONT_BYTES, MAX_PICTURE_BYTES, MAX_STRING_LEN};
use crate::picture;
use crate::picture::{PicturePixels, PicturePixelsModel};
use crate::shell::ShellRequestModel;
use crate::span::Span;
use crate::store;
use crate::store::StoreRequestModel;
use crate::task;
use crate::task::{Task, TaskId};
use crate::ui::{FontHandle, PictureHandle, Screen, TextScale, TilePicture};
use crate::wire;

verus! {

/// Whether one thing was asked for, behind everything that was asked for before,
/// and nothing else about the context changed.
pub open spec fn asked_once(
    before: ContextModel,
    after: ContextModel,
    command: CommandModel,
) -> bool {
    &&& after.commands == before.commands.push(command)
    &&& after.next_task == before.next_task
    &&& after.in_flight == before.in_flight
    &&& after.metrics == before.metrics
    &&& after.retrying == before.retrying
}

/// Whether a request was passed on exactly when it was accepted, and otherwise
/// nothing was asked for.
pub open spec fn asked_if(
    accepted: bool,
    before: ContextModel,
    after: ContextModel,
    command: CommandModel,
) -> bool {
    if accepted {
        asked_once(before, after, command)
    } else {
        after == before
    }
}

// ---------------------------------------------------------------------------
// The device.

/// Each reading asks for that reading.
pub proof fn law_readings_are_asked_for(
    device: &mut Device,
)
    ensures
        call_ensures(Device::read_battery, (device,), ()) ==> asked_once(
            (*old(device).context)@,
            (*final(device).context)@,
            CommandModel::Device(DeviceRequestModel::ReadBattery),
        ),
        call_ensures(Device::read_battery_detail, (device,), ()) ==> asked_once(
            (*old(device).context)@,
            (*final(device).context)@,
            CommandModel::Device(DeviceRequestModel::ReadBatteryDetail),
        ),
        call_ensures(Device::read_cover, (device,), ()) ==> asked_once(
            (*old(device).context)@,
            (*final(device).context)@,
            CommandModel::Device(DeviceRequestModel::ReadCover),
        ),
        call_ensures(Device::read_frontlight, (device,), ()) ==> asked_once(
            (*old(device).context)@,
            (*final(device).context)@,
            CommandModel::Device(DeviceRequestModel::ReadFrontlight),
        ),
        call_ensures(Device::read_bluetooth, (device,), ()) ==> asked_once(
            (*old(device).context)@,
            (*final(device).context)@,
            CommandModel::Device(DeviceRequestModel::ReadBluetooth),
        ),
        call_ensures(Device::read_wifi, (device,), ()) ==> asked_once(
            (*old(device).context)@,
            (*final(device).context)@,
            CommandModel::Device(DeviceRequestModel::ReadWifi),
        ),
        call_ensures(Device::read_audio, (device,), ()) ==> asked_once(
            (*old(device).context)@,
            (*final(device).context)@,
            CommandModel::Device(DeviceRequestModel::ReadAudio),
        ),
{
}

/// Each operation that needs no more said asks for just itself.
pub proof fn law_plain_requests_are_asked_for(
    device: &mut Device,
)
    ensures
        call_ensures(Device::release_wifi, (device,), ()) ==> asked_once(
            (*old(device).context)@,
            (*final(device).context)@,
            CommandModel::Device(DeviceRequestModel::ReleaseWifi),
        ),
        call_ensures(Device::allow_sleep, (device,), ()) ==> asked_once(
            (*old(device).context)@,
            (*final(device).context)@,
            CommandModel::Device(DeviceRequestModel::AllowSleep),
        ),
        call_ensures(Device::cancel_wake, (device,), ()) ==> asked_once(
            (*old(device).context)@,
            (*final(device).context)@,
            CommandModel::Device(DeviceRequestModel::CancelWake),
        ),
        call_ensures(Device::scan_bluetooth, (device,), ()) ==> asked_once(
            (*old(device).context)@,
            (*final(device).context)@,
            CommandModel::Device(DeviceRequestModel::ScanBluetooth),
        ),
        call_ensures(Device::scan_wifi, (device,), ()) ==> asked_once(
            (*old(device).context)@,
            (*final(device).context)@,
            CommandModel::Device(DeviceRequestModel::ScanWifi),
        ),
        call_ensures(Device::disconnect_wifi, (device,), ()) ==> asked_once(
            (*old(device).context)@,
            (*final(device).context)@,
            CommandModel::Device(DeviceRequestModel::DisconnectWifi),
        ),
        call_ensures(Device::play_audio, (device,), ()) ==> asked_once(
            (*old(device).context)@,
            (*final(device).context)@,
            CommandModel::Device(DeviceRequestModel::PlayAudio),
        ),
        call_ensures(Device::pause_audio, (device,), ()) ==> asked_once(
            (*old(device).context)@,
            (*final(device).context)@,
            CommandModel::Device(DeviceRequestModel::PauseAudio),
        ),
        call_ensures(Device::stop_audio, (device,), ()) ==> asked_once(
            (*old(device).context)@,
            (*final(device).context)@,
            CommandModel::Device(DeviceRequestModel::StopAudio),
        ),
{
}

/// A time is asked for in whole seconds, a part of one as one, and a place in a
/// recording in whole milliseconds.
pub proof fn law_times_are_asked_for(
    device: &mut Device,
    span: Span,
)
    ensures
        call_ensures(Device::hold_wifi, (device, span), ()) ==> asked_once(
            (*old(device).context)@,
            (*final(device).context)@,
            CommandModel::Device(DeviceRequestModel::HoldWifi { seconds: (if span.seconds == 0 && span.nanos > 0 {
                1
            } else if span.seconds > u32::MAX {
                u32::MAX
            } else {
                span.seconds as u32
            }) }),
        ),
        call_ensures(Device::keep_awake, (device, span), ()) ==> asked_once(
            (*old(device).context)@,
            (*final(device).context)@,
            CommandModel::Device(DeviceRequestModel::KeepAwake { seconds: (if span.seconds == 0 && span.nanos > 0 {
                1
            } else if span.seconds > u32::MAX {
                u32::MAX
            } else {
                span.seconds as u32
            }) }),
        ),
        call_ensures(Device::schedule_wake, (device, span), ()) ==> asked_once(
            (*old(device).context)@,
            (*final(device).context)@,
            CommandModel::Device(DeviceRequestModel::ScheduleWake { seconds: (if span.seconds == 0 && span.nanos > 0 {
                1
            } else if span.seconds > u32::MAX {
                u32::MAX
            } else {
                span.seconds as u32
            }) }),
        ),
        call_ensures(Device::seek_audio, (device, span), ()) ==> asked_once(
            (*old(device).context)@,
            (*final(device).context)@,
            CommandModel::Device(DeviceRequestModel::SeekAudio { position_ms: (if span.seconds * 1000 + span.nanos / 1_000_000 > u32::MAX {
                u32::MAX
            } else {
                (span.seconds * 1000 + span.nanos / 1_000_000) as u32
            }) }),
        ),
{
}

/// A setting is asked for as it was given, a share up to all of it.
pub proof fn law_settings_are_asked_for(
    device: &mut Device,
    percent: u8,
    enabled: bool,
    source: AudioSource,
)
    ensures
        call_ensures(Device::set_frontlight, (device, percent), ()) ==> asked_once(
            (*old(device).context)@,
            (*final(device).context)@,
            CommandModel::Device(DeviceRequestModel::SetFrontlight { percent: (if percent > 100 {
                100
            } else {
                percent
            }) }),
        ),
        call_ensures(Device::set_audio_volume, (device, percent), ()) ==> asked_once(
            (*old(device).context)@,
            (*final(device).context)@,
            CommandModel::Device(DeviceRequestModel::SetAudioVolume { percent: (if percent > 100 {
                100
            } else {
                percent
            }) }),
        ),
        call_ensures(Device::set_bluetooth, (device, enabled), ()) ==> asked_once(
            (*old(device).context)@,
            (*final(device).context)@,
            CommandModel::Device(DeviceRequestModel::SetBluetooth { enabled }),
        ),
        call_ensures(Device::set_wifi, (device, enabled), ()) ==> asked_once(
            (*old(device).context)@,
            (*final(device).context)@,
            CommandModel::Device(DeviceRequestModel::SetWifi { enabled }),
        ),
        call_ensures(Device::load_audio, (device, source), ()) ==> asked_once(
            (*old(device).context)@,
            (*final(device).context)@,
            CommandModel::Device(DeviceRequestModel::LoadAudio { source: source@ }),
        ),
{
}

/// What is done with a radio is asked for under the address that was given, if it
/// is one.
pub proof fn law_radios_are_asked_for(
    device: &mut Device,
    address: &str,
    accepted: bool,
)
    ensures
        call_ensures(Device::pair_bluetooth, (device, address), accepted) ==>
            (accepted <==> hardware::bluetooth_address_ok(address@))
            && asked_if(
            accepted,
            (*old(device).context)@,
            (*final(device).context)@,
            CommandModel::Device(DeviceRequestModel::PairBluetooth { address: address@ }),
        ),
        call_ensures(Device::connect_bluetooth, (device, address), accepted) ==>
            (accepted <==> hardware::bluetooth_address_ok(address@))
            && asked_if(
            accepted,
            (*old(device).context)@,
            (*final(device).context)@,
            CommandModel::Device(DeviceRequestModel::ConnectBluetooth { address: address@ }),
        ),
        call_ensures(Device::disconnect_bluetooth, (device, address), accepted) ==>
            (accepted <==> hardware::bluetooth_address_ok(address@))
            && asked_if(
            accepted,
            (*old(device).context)@,
            (*final(device).context)@,
            CommandModel::Device(DeviceRequestModel::DisconnectBluetooth { address: address@ }),
        ),
        call_ensures(Device::forget_bluetooth, (device, address), accepted) ==>
            (accepted <==> hardware::bluetooth_address_ok(address@))
            && asked_if(
            accepted,
            (*old(device).context)@,
            (*final(device).context)@,
            CommandModel::Device(DeviceRequestModel::ForgetBluetooth { address: address@ }),
        ),
{
}

/// A network, a recording, a word and an update are asked for as they were
/// given, if the wire would take them.
pub proof fn law_checked_requests_are_asked_for(
    device: &mut Device,
    first: &str,
    second: &str,
    language: Option<&str>,
    accepted: bool,
)
    ensures
        call_ensures(Device::join_wifi, (device, first, second), accepted) ==>
            (accepted <==> device::wifi_credentials_ok(first@, second@))
            && asked_if(
            accepted,
            (*old(device).context)@,
            (*final(device).context)@,
            CommandModel::Device(DeviceRequestModel::JoinWifi { ssid: first@, password: second@ }),
        ),
        call_ensures(Device::load_shelf_audio, (device, first), accepted) ==>
            (accepted <==> store::key_ok(first@))
            && asked_if(
            accepted,
            (*old(device).context)@,
            (*final(device).context)@,
            CommandModel::Device(
                DeviceRequestModel::LoadAudio { source: AudioSourceModel::Shelf(first@) },
            ),
        ),
        call_ensures(Device::load_audio_stream, (device, first), accepted) ==>
            (accepted <==> device::secure_address(first@))
            && asked_if(
            accepted,
            (*old(device).context)@,
            (*final(device).context)@,
            CommandModel::Device(
                DeviceRequestModel::LoadAudio { source: AudioSourceModel::Stream(first@) },
            ),
        ),
        call_ensures(Device::update, (device, first, second), accepted) ==>
            (accepted <==> device::secure_address(first@) && device::digest_ok(second@))
            && asked_if(
            accepted,
            (*old(device).context)@,
            (*final(device).context)@,
            CommandModel::Device(DeviceRequestModel::Update { url: first@, sha256: second@ }),
        ),
        call_ensures(Device::lookup_word, (device, first, language), accepted) ==>
            (accepted <==> device::lookup_ok(
            first@,
            (if language is Some {
                Some(language->0@)
            } else {
                None
            }),
        ))
            && asked_if(
            accepted,
            (*old(device).context)@,
            (*final(device).context)@,
            CommandModel::Device(DeviceRequestModel::LookupWord { word: first@, language: (if language is Some {
                Some(language->0@)
            } else {
                None
            }) }),
        ),
{
}

// ---------------------------------------------------------------------------
// Applications, stores and terminals.

/// The catalog, and what is done with one application of it, are asked for as
/// they were named.
pub proof fn law_catalogs_are_asked_for(
    applications: &mut Applications,
    id: &str,
    accepted: bool,
)
    ensures
        call_ensures(Applications::installed, (applications,), ()) ==> asked_once(
            (*old(applications).context)@,
            (*final(applications).context)@,
            CommandModel::Device(DeviceRequestModel::ListInstalledApps),
        ),
        call_ensures(Applications::cached_catalog, (applications,), ()) ==> asked_once(
            (*old(applications).context)@,
            (*final(applications).context)@,
            CommandModel::Device(DeviceRequestModel::ReadAppCatalog),
        ),
        call_ensures(Applications::refresh_catalog, (applications,), ()) ==> asked_once(
            (*old(applications).context)@,
            (*final(applications).context)@,
            CommandModel::Device(DeviceRequestModel::RefreshAppCatalog),
        ),
        call_ensures(Applications::install, (applications, id), accepted) ==>
            (accepted <==> device::app_id_ok(id@))
            && asked_if(
            accepted,
            (*old(applications).context)@,
            (*final(applications).context)@,
            CommandModel::Device(DeviceRequestModel::InstallApp { id: id@ }),
        ),
        call_ensures(Applications::uninstall, (applications, id), accepted) ==>
            (accepted <==> device::app_id_ok(id@))
            && asked_if(
            accepted,
            (*old(applications).context)@,
            (*final(applications).context)@,
            CommandModel::Device(DeviceRequestModel::UninstallApp { id: id@ }),
        ),
{
}

/// What is done with the browser link is asked for as such.
pub proof fn law_links_are_asked_for(
    store: &mut AppStore,
)
    ensures
        call_ensures(AppStore::begin_link, (store,), ()) ==> asked_once(
            (*old(store).context)@,
            (*final(store).context)@,
            CommandModel::Device(DeviceRequestModel::BeginAppLink),
        ),
        call_ensures(AppStore::read_link, (store,), ()) ==> asked_once(
            (*old(store).context)@,
            (*final(store).context)@,
            CommandModel::Device(DeviceRequestModel::ReadAppLink),
        ),
        call_ensures(AppStore::poll_link, (store,), ()) ==> asked_once(
            (*old(store).context)@,
            (*final(store).context)@,
            CommandModel::Device(DeviceRequestModel::PollAppLink),
        ),
        call_ensures(AppStore::disconnect_link, (store,), ()) ==> asked_once(
            (*old(store).context)@,
            (*final(store).context)@,
            CommandModel::Device(DeviceRequestModel::DisconnectAppLink),
        ),
{
}

/// What is kept under a key is asked for under that key, and what the runtime may
/// throw away under the same key with one prefix, written and read alike.
pub proof fn law_keys_are_asked_for(
    store: &mut AppStore,
    key: &str,
    value: Vec<u8>,
)
    ensures
        call_ensures(AppStore::save, (store, key, value), ()) ==> asked_once(
            (*old(store).context)@,
            (*final(store).context)@,
            CommandModel::Store(StoreRequestModel::Save { key: key@, value: value@ }),
        ),
        call_ensures(AppStore::load, (store, key), ()) ==> asked_once(
            (*old(store).context)@,
            (*final(store).context)@,
            CommandModel::Store(StoreRequestModel::Load { key: key@ }),
        ),
        call_ensures(AppStore::forget, (store, key), ()) ==> asked_once(
            (*old(store).context)@,
            (*final(store).context)@,
            CommandModel::Store(StoreRequestModel::Forget { key: key@ }),
        ),
        call_ensures(AppStore::list, (store,), ()) ==> asked_once(
            (*old(store).context)@,
            (*final(store).context)@,
            CommandModel::Store(StoreRequestModel::List),
        ),
        call_ensures(AppStore::cache, (store, key, value), ()) ==> asked_once(
            (*old(store).context)@,
            (*final(store).context)@,
            CommandModel::Store(
                StoreRequestModel::Save { key: CACHE_PREFIX@ + key@, value: value@ },
            ),
        ),
        call_ensures(AppStore::load_cached, (store, key), ()) ==> asked_once(
            (*old(store).context)@,
            (*final(store).context)@,
            CommandModel::Store(StoreRequestModel::Load { key: CACHE_PREFIX@ + key@ }),
        ),
{
}

/// A piece of a blob is written and read where it was said to be.
pub proof fn law_blobs_are_asked_for(
    shelf: &mut AppShelf,
    name: &str,
    offset: u32,
    length: u32,
    bytes: Vec<u8>,
    last: bool,
)
    ensures
        call_ensures(AppShelf::write, (shelf, name, offset, bytes, last), ()) ==> asked_once(
            (*old(shelf).context)@,
            (*final(shelf).context)@,
            CommandModel::Store(
                StoreRequestModel::ShelfWrite { name: name@, offset, bytes: bytes@, last },
            ),
        ),
        call_ensures(AppShelf::read, (shelf, name, offset, length), ()) ==> asked_once(
            (*old(shelf).context)@,
            (*final(shelf).context)@,
            CommandModel::Store(StoreRequestModel::ShelfRead { name: name@, offset, length }),
        ),
        call_ensures(AppShelf::remove, (shelf, name), ()) ==> asked_once(
            (*old(shelf).context)@,
            (*final(shelf).context)@,
            CommandModel::Store(StoreRequestModel::ShelfRemove { name: name@ }),
        ),
        call_ensures(AppShelf::list, (shelf,), ()) ==> asked_once(
            (*old(shelf).context)@,
            (*final(shelf).context)@,
            CommandModel::Store(StoreRequestModel::ShelfList),
        ),
{
}

/// A terminal is opened and resized to the grid that was given, and told what it
/// was given.
pub proof fn law_terminals_are_asked_for(
    shell: &mut AppShell,
    columns: u16,
    rows: u16,
    bytes: Vec<u8>,
)
    ensures
        call_ensures(AppShell::open, (shell, columns, rows), ()) ==> asked_once(
            (*old(shell).context)@,
            (*final(shell).context)@,
            CommandModel::Shell(ShellRequestModel::Open { columns, rows }),
        ),
        call_ensures(AppShell::resize, (shell, columns, rows), ()) ==> asked_once(
            (*old(shell).context)@,
            (*final(shell).context)@,
            CommandModel::Shell(ShellRequestModel::Resize { columns, rows }),
        ),
        call_ensures(AppShell::input, (shell, bytes), ()) ==> asked_once(
            (*old(shell).context)@,
            (*final(shell).context)@,
            CommandModel::Shell(ShellRequestModel::Input(bytes@)),
        ),
        call_ensures(AppShell::close, (shell,), ()) ==> asked_once(
            (*old(shell).context)@,
            (*final(shell).context)@,
            CommandModel::Shell(ShellRequestModel::Close),
        ),
{
}

// ---------------------------------------------------------------------------
// The context itself.

/// What an application asks of the runtime directly is asked for as it was given.
pub proof fn law_commands_are_asked_for(
    context: &mut Context,
    name: &str,
    screen: Screen,
    level: LogLevel,
    picture: PictureHandle,
    font: FontHandle,
    task: TaskId,
)
    ensures
        call_ensures(Context::launch, (context, name), ()) ==> asked_once(
            old(context)@,
            final(context)@,
            CommandModel::Launch(name@),
        ),
        call_ensures(Context::set_screen, (context, screen), ()) ==> asked_once(
            old(context)@,
            final(context)@,
            CommandModel::SetScreen(screen@),
        ),
        call_ensures(Context::log, (context, level, name), ()) ==> asked_once(
            old(context)@,
            final(context)@,
            CommandModel::Log { level, message: name@ },
        ),
        call_ensures(Context::exit, (context,), ()) ==> asked_once(
            old(context)@,
            final(context)@,
            CommandModel::Exit,
        ),
        call_ensures(Context::drop_picture, (context, picture), ()) ==> asked_once(
            old(context)@,
            final(context)@,
            CommandModel::DropPicture(picture),
        ),
        call_ensures(Context::drop_font, (context, font), ()) ==> asked_once(
            old(context)@,
            final(context)@,
            CommandModel::DropFont(font),
        ),
        call_ensures(Context::cancel, (context, task), ()) ==> asked_once(
            old(context)@,
            final(context)@,
            CommandModel::Cancel(task),
        ),
{
}

/// A picture is handed over exactly when its bytes are as many as its size says,
/// at least one, and no more than the runtime holds; what can then be drawn is
/// that picture, of that size.
pub proof fn law_fitting_pictures_are_handed_over(
    context: &mut Context,
    handle: PictureHandle,
    width: u32,
    height: u32,
    pixels: PicturePixels,
    picture: Option<TilePicture>,
)
    requires
        call_ensures(Context::put_picture, (context, handle, width, height, pixels), picture),
    ensures
        ({
            let bytes = match pixels@ {
                PicturePixelsModel::Gray8(bytes) => bytes,
                PicturePixelsModel::Rgb8(bytes) => bytes,
            };
            let agrees = match pixels@ {
                PicturePixelsModel::Gray8(_) => bytes.len() == width * height,
                PicturePixelsModel::Rgb8(_) => bytes.len() == 3 * (width * height),
            };
            &&& picture is Some <==> agrees && 0 < bytes.len() <= MAX_PICTURE_BYTES
            &&& picture matches Some(drawn) ==> drawn.handle == handle && drawn.source == (
                width,
                height,
            )
            &&& asked_if(
                picture is Some,
                old(context)@,
                final(context)@,
                CommandModel::PutPicture { handle, width, height, pixels: pixels@ },
            )
        }),
{
    picture::law_pixels_take_one_byte_or_three(width, height);
}

/// A picture that was handed over is one that the runtime is told of, and one
/// that was not is none.
pub proof fn law_pictures_handed_over_are_told(
    handle: PictureHandle,
    width: u32,
    height: u32,
    pixels: PicturePixelsModel,
)
    ensures
        context::picture_fits(width, height, pixels) <==> client::messages_of(
            CommandModel::PutPicture { handle, width, height, pixels },
        ) is Ok,
{
}

/// A font is handed over exactly when it is supported, there is something in it,
/// no more than the runtime holds, and its name fits.
pub proof fn law_fitting_fonts_are_handed_over(
    context: &mut Context,
    handle: FontHandle,
    name: &str,
    bytes: Vec<u8>,
    supported: bool,
    font: Option<FontHandle>,
)
    requires
        call_ensures(Context::put_font, (context, handle, name, bytes, supported), font),
    ensures
        font is Some <==> supported && 0 < bytes@.len() <= MAX_FONT_BYTES && wire::utf8_len(name@)
            <= MAX_STRING_LEN,
        font is Some ==> font->0 == handle,
        asked_if(
            font is Some,
            old(context)@,
            final(context)@,
            CommandModel::PutFont { handle, name: name@, bytes: bytes@ },
        ),
{
}

/// Work is started exactly when fewer than four tasks are in flight and it can
/// be sent; it gets the next number and is asked for last. Work worth a second
/// attempt is kept beside, under the number that it got. Refused work leaves
/// everything as it was.
pub proof fn law_work_is_started_while_there_is_room(
    context: &mut Context,
    work: Task,
    started: Option<TaskId>,
)
    requires
        old(context)@.next_task < u32::MAX,
    ensures
        ({
            let before = old(context)@;
            let after = final(context)@;
            let room = before.in_flight < 4 && task::sendable(work@);
            let number = TaskId((before.next_task + 1) as u32);
            let ran = {
                &&& after.commands == before.commands.push(
                    CommandModel::Spawn { task: number, work: work@ },
                )
                &&& after.next_task == before.next_task + 1
                &&& after.in_flight == before.in_flight + 1
                &&& after.metrics == before.metrics
            };
            &&& call_ensures(Context::spawn, (context, work), started) ==> {
                &&& started is Some <==> room
                &&& !room ==> after == before
                &&& room ==> started == Some(number) && ran && after.retrying == before.retrying
            }
            &&& call_ensures(Context::spawn_retrying, (context, work), started) ==> {
                &&& started is Some <==> room
                &&& !room ==> after == before
                &&& room ==> {
                    &&& started == Some(number)
                    &&& ran
                    &&& after.retrying.len() == before.retrying.len() + 1
                    &&& after.retrying.last().task == number
                    &&& after.retrying.last().work == work@
                }
            }
        }),
{
}

/// The panel an application sees is the one it runs on, with its text at the size
/// it asked to see it at and otherwise the same.
pub proof fn law_the_panel_is_the_one_it_runs_on(
    context: &Context,
    scale: TextScale,
    metrics: DisplayMetrics,
)
    ensures
        call_ensures(Context::metrics, (context,), metrics) ==> metrics == context@.metrics,
        call_ensures(Context::metrics_at, (context, scale), metrics) ==> {
            &&& metrics.text_scale == scale
            &&& metrics.width == context@.metrics.width
            &&& metrics.height == context@.metrics.height
            &&& metrics.pixels_per_inch == context@.metrics.pixels_per_inch
            &&& metrics.picture_format == context@.metrics.picture_format
        },
{
}

/// Hearing of a task takes one off the count, down to none, and leaves the rest
/// alone.
pub proof fn law_settling_takes_one_off(before: ContextModel)
    ensures
        before.in_flight > 0 ==> before.settled().in_flight == before.in_flight - 1,
        before.in_flight == 0 ==> before.settled() == before,
        before.settled().commands == before.commands,
        before.settled().next_task == before.next_task,
        before.settled().metrics == before.metrics,
        before.settled().retrying == before.retrying,
{
}

} // verus!
