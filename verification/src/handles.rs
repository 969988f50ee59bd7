//! What an application can ask for besides drawing: its own storage, other
//! applications and a terminal.

use vstd::prelude::*;

use crate::command::{Command, CommandModel};
use crate::context::Context;
use crate::device;
use crate::device::{valid_app_id, DeviceRequest, DeviceRequestModel};
use crate::limits::{CACHE_PREFIX, MAX_STORE_KEY_LEN};
use crate::shell::{ShellRequest, ShellRequestModel};
use crate::store;
use crate::store::{StoreRequest, StoreRequestModel};
use crate::text;
use crate::text::Alphabet;
use crate::wire;

verus! {

/// Catalog and installation operations.
#[derive(Debug)]
pub struct Applications<'a> {
    pub context: &'a mut Context,
}

impl<'a> Applications<'a> {
    /// Enumerates the packages currently installed on this reader.
    pub fn installed(&mut self)
        ensures
            (*final(self).context)@ == (*old(self).context)@.asking(
                CommandModel::Device(DeviceRequestModel::ListInstalledApps),
            ),
            *final(final(self).context) == *final(old(self).context),
    {
        self.context.queue(Command::Device(DeviceRequest::ListInstalledApps));
    }

    /// Reads the last verified catalog without using the network.
    pub fn cached_catalog(&mut self)
        ensures
            (*final(self).context)@ == (*old(self).context)@.asking(
                CommandModel::Device(DeviceRequestModel::ReadAppCatalog),
            ),
            *final(final(self).context) == *final(old(self).context),
    {
        self.context.queue(Command::Device(DeviceRequest::ReadAppCatalog));
    }

    /// Fetches and verifies the application catalog.
    pub fn refresh_catalog(&mut self)
        ensures
            (*final(self).context)@ == (*old(self).context)@.asking(
                CommandModel::Device(DeviceRequestModel::RefreshAppCatalog),
            ),
            *final(final(self).context) == *final(old(self).context),
    {
        self.context.queue(Command::Device(DeviceRequest::RefreshAppCatalog));
    }

    /// Installs or updates one catalog application, unless `id` cannot be a stable
    /// application identity.
    pub fn install(&mut self, id: &str) -> (accepted: bool)
        ensures
            accepted == device::app_id_ok(id@),
            (*final(self).context)@ == if device::app_id_ok(id@) {
                (*old(self).context)@.asking(
                    CommandModel::Device(DeviceRequestModel::InstallApp { id: id@ }),
                )
            } else {
                (*old(self).context)@
            },
            *final(final(self).context) == *final(old(self).context),
    {
        if !valid_app_id(id) {
            return false;
        }
        self.context.queue(Command::Device(DeviceRequest::InstallApp { id: id.to_owned() }));
        true
    }

    /// Removes one application. Its data is kept, so a reinstall can recover it.
    pub fn uninstall(&mut self, id: &str) -> (accepted: bool)
        ensures
            accepted == device::app_id_ok(id@),
            (*final(self).context)@ == if device::app_id_ok(id@) {
                (*old(self).context)@.asking(
                    CommandModel::Device(DeviceRequestModel::UninstallApp { id: id@ }),
                )
            } else {
                (*old(self).context)@
            },
            *final(final(self).context) == *final(old(self).context),
    {
        if !valid_app_id(id) {
            return false;
        }
        self.context.queue(Command::Device(DeviceRequest::UninstallApp { id: id.to_owned() }));
        true
    }
}

/// An application's own small state: enough to open where it closed.
#[derive(Debug)]
pub struct AppStore<'a> {
    pub context: &'a mut Context,
}

impl<'a> AppStore<'a> {
    /// Begins a browser-link pairing attempt.
    pub fn begin_link(&mut self)
        ensures
            (*final(self).context)@ == (*old(self).context)@.asking(
                CommandModel::Device(DeviceRequestModel::BeginAppLink),
            ),
            *final(final(self).context) == *final(old(self).context),
    {
        self.context.queue(Command::Device(DeviceRequest::BeginAppLink));
    }

    /// Reads the current browser-link state.
    pub fn read_link(&mut self)
        ensures
            (*final(self).context)@ == (*old(self).context)@.asking(
                CommandModel::Device(DeviceRequestModel::ReadAppLink),
            ),
            *final(final(self).context) == *final(old(self).context),
    {
        self.context.queue(Command::Device(DeviceRequest::ReadAppLink));
    }

    /// Polls for pairing and remote installation progress.
    pub fn poll_link(&mut self)
        ensures
            (*final(self).context)@ == (*old(self).context)@.asking(
                CommandModel::Device(DeviceRequestModel::PollAppLink),
            ),
            *final(final(self).context) == *final(old(self).context),
    {
        self.context.queue(Command::Device(DeviceRequest::PollAppLink));
    }

    /// Disconnects every paired browser.
    pub fn disconnect_link(&mut self)
        ensures
            (*final(self).context)@ == (*old(self).context)@.asking(
                CommandModel::Device(DeviceRequestModel::DisconnectAppLink),
            ),
            *final(final(self).context) == *final(old(self).context),
    {
        self.context.queue(Command::Device(DeviceRequest::DisconnectAppLink));
    }

    /// Writes a value, replacing whatever was under that key.
    pub fn save(&mut self, key: &str, value: Vec<u8>)
        ensures
            (*final(self).context)@ == (*old(self).context)@.asking(
                CommandModel::Store(StoreRequestModel::Save { key: key@, value: value@ }),
            ),
            *final(final(self).context) == *final(old(self).context),
    {
        self.context.queue(Command::Store(StoreRequest::Save { key: key.to_owned(), value }));
    }

    /// Reads a value back. A key that was never written is not an error.
    pub fn load(&mut self, key: &str)
        ensures
            (*final(self).context)@ == (*old(self).context)@.asking(
                CommandModel::Store(StoreRequestModel::Load { key: key@ }),
            ),
            *final(final(self).context) == *final(old(self).context),
    {
        self.context.queue(Command::Store(StoreRequest::Load { key: key.to_owned() }));
    }

    /// Writes a value the runtime is free to throw away later. Never for anything
    /// that cannot be fetched a second time.
    pub fn cache(&mut self, key: &str, value: Vec<u8>)
        ensures
            (*final(self).context)@ == (*old(self).context)@.asking(
                CommandModel::Store(
                    StoreRequestModel::Save { key: CACHE_PREFIX@ + key@, value: value@ },
                ),
            ),
            *final(final(self).context) == *final(old(self).context),
    {
        self.context.queue(Command::Store(StoreRequest::Save { key: cache_key(key), value }));
    }

    /// Reads back something written with [`Self::cache`].
    pub fn load_cached(&mut self, key: &str)
        ensures
            (*final(self).context)@ == (*old(self).context)@.asking(
                CommandModel::Store(StoreRequestModel::Load { key: CACHE_PREFIX@ + key@ }),
            ),
            *final(final(self).context) == *final(old(self).context),
    {
        self.context.queue(Command::Store(StoreRequest::Load { key: cache_key(key) }));
    }

    /// Removes a key. Removing one that is not there is a success.
    pub fn forget(&mut self, key: &str)
        ensures
            (*final(self).context)@ == (*old(self).context)@.asking(
                CommandModel::Store(StoreRequestModel::Forget { key: key@ }),
            ),
            *final(final(self).context) == *final(old(self).context),
    {
        self.context.queue(Command::Store(StoreRequest::Forget { key: key.to_owned() }));
    }

    /// Lists the keys this application has written.
    pub fn list(&mut self)
        ensures
            (*final(self).context)@ == (*old(self).context)@.asking(
                CommandModel::Store(StoreRequestModel::List),
            ),
            *final(final(self).context) == *final(old(self).context),
    {
        self.context.queue(Command::Store(StoreRequest::List));
    }
}

/// The key that [`AppStore::cache`] and [`AppStore::load_cached`] use.
///
/// Public because an answer carries the key it was asked for, and an
/// application that matches the answer has to spell the same key.
#[must_use]
pub fn cache_key(key: &str) -> (cached: String)
    ensures
        cached@ == CACHE_PREFIX@ + key@,
{
    let mut cached = CACHE_PREFIX.to_owned();
    cached.append(key);
    cached
}

/// An application's large data, which is written and read in pieces.
#[derive(Debug)]
pub struct AppShelf<'a> {
    pub context: &'a mut Context,
}

impl<'a> AppShelf<'a> {
    /// Writes one piece of a blob at `offset`, finishing it when `last`. A blob
    /// cannot be read until then.
    pub fn write(&mut self, name: &str, offset: u32, bytes: Vec<u8>, last: bool)
        ensures
            (*final(self).context)@ == (*old(self).context)@.asking(
                CommandModel::Store(
                    StoreRequestModel::ShelfWrite { name: name@, offset, bytes: bytes@, last },
                ),
            ),
            *final(final(self).context) == *final(old(self).context),
    {
        self.context.queue(
            Command::Store(StoreRequest::ShelfWrite { name: name.to_owned(), offset, bytes, last }),
        );
    }

    /// Reads up to `length` bytes from `offset`.
    pub fn read(&mut self, name: &str, offset: u32, length: u32)
        ensures
            (*final(self).context)@ == (*old(self).context)@.asking(
                CommandModel::Store(StoreRequestModel::ShelfRead { name: name@, offset, length }),
            ),
            *final(final(self).context) == *final(old(self).context),
    {
        self.context.queue(
            Command::Store(StoreRequest::ShelfRead { name: name.to_owned(), offset, length }),
        );
    }

    /// Removes a blob, and any half-written copy of it.
    pub fn remove(&mut self, name: &str)
        ensures
            (*final(self).context)@ == (*old(self).context)@.asking(
                CommandModel::Store(StoreRequestModel::ShelfRemove { name: name@ }),
            ),
            *final(final(self).context) == *final(old(self).context),
    {
        self.context.queue(Command::Store(StoreRequest::ShelfRemove { name: name.to_owned() }));
    }

    /// Lists what this application has stored, with sizes.
    pub fn list(&mut self)
        ensures
            (*final(self).context)@ == (*old(self).context)@.asking(
                CommandModel::Store(StoreRequestModel::ShelfList),
            ),
            *final(final(self).context) == *final(old(self).context),
    {
        self.context.queue(Command::Store(StoreRequest::ShelfList));
    }
}

/// The application's terminal. Every method is a request that is answered by an
/// event.
#[derive(Debug)]
pub struct AppShell<'a> {
    pub context: &'a mut Context,
}

impl<'a> AppShell<'a> {
    /// Starts a program on a terminal of exactly this grid.
    pub fn open(&mut self, columns: u16, rows: u16)
        ensures
            (*final(self).context)@ == (*old(self).context)@.asking(
                CommandModel::Shell(ShellRequestModel::Open { columns, rows }),
            ),
            *final(final(self).context) == *final(old(self).context),
    {
        self.context.queue(Command::Shell(ShellRequest::Open { columns, rows }));
    }

    /// Sends keystrokes, already encoded as the bytes a terminal expects.
    pub fn input(&mut self, bytes: Vec<u8>)
        ensures
            (*final(self).context)@ == (*old(self).context)@.asking(
                CommandModel::Shell(ShellRequestModel::Input(bytes@)),
            ),
            *final(final(self).context) == *final(old(self).context),
    {
        self.context.queue(Command::Shell(ShellRequest::Input(bytes)));
    }

    /// Tells the program the grid changed.
    pub fn resize(&mut self, columns: u16, rows: u16)
        ensures
            (*final(self).context)@ == (*old(self).context)@.asking(
                CommandModel::Shell(ShellRequestModel::Resize { columns, rows }),
            ),
            *final(final(self).context) == *final(old(self).context),
    {
        self.context.queue(Command::Shell(ShellRequest::Resize { columns, rows }));
    }

    /// Ends the program.
    pub fn close(&mut self)
        ensures
            (*final(self).context)@ == (*old(self).context)@.asking(
                CommandModel::Shell(ShellRequestModel::Close),
            ),
            *final(final(self).context) == *final(old(self).context),
    {
        self.context.queue(Command::Shell(ShellRequest::Close));
    }
}

impl Context {
    pub fn applications(&mut self) -> (handle: Applications<'_>)
        ensures
            *handle.context == *old(self),
            *final(self) == *final(handle.context),
    {
        Applications { context: self }
    }

    pub fn store(&mut self) -> (handle: AppStore<'_>)
        ensures
            *handle.context == *old(self),
            *final(self) == *final(handle.context),
    {
        AppStore { context: self }
    }

    pub fn shelf(&mut self) -> (handle: AppShelf<'_>)
        ensures
            *handle.context == *old(self),
            *final(self) == *final(handle.context),
    {
        AppShelf { context: self }
    }

    pub fn shell(&mut self) -> (handle: AppShell<'_>)
        ensures
            *handle.context == *old(self),
            *final(self) == *final(handle.context),
    {
        AppShell { context: self }
    }
}

/// A short key makes a usable cache key, and the runtime can tell it from every
/// other key: whatever it is put in front of, the prefix marks it.
pub proof fn law_cache_keys_are_keys(key: Seq<char>)
    requires
        text::is_drawn_from(key, Alphabet::Key),
        wire::utf8_len(CACHE_PREFIX@ + key) <= MAX_STORE_KEY_LEN,
    ensures
        text::has_prefix(CACHE_PREFIX@ + key, CACHE_PREFIX@),
        store::key_ok(CACHE_PREFIX@ + key),
{
    reveal_strlit("cache.");
    let cached = CACHE_PREFIX@ + key;
    assert(cached.take(CACHE_PREFIX@.len() as int) =~= CACHE_PREFIX@);
    assert(cached[0] == 'c');
    wire::lemma_nonempty(cached);
    assert forall|i: int| 0 <= i < cached.len() implies Alphabet::Key.holds(
        #[trigger] cached[i],
    ) by {
        if i < CACHE_PREFIX@.len() {
            assert(cached[i] == CACHE_PREFIX@[i]);
        } else {
            assert(cached[i] == key[i - CACHE_PREFIX@.len()]);
        }
    }
}

/// Two cached things never share a key.
pub proof fn law_cache_keys_differ(first: Seq<char>, second: Seq<char>)
    requires
        CACHE_PREFIX@ + first == CACHE_PREFIX@ + second,
    ensures
        first == second,
{
    let width = CACHE_PREFIX@.len() as int;
    let cached = CACHE_PREFIX@ + first;
    assert(cached.skip(width) =~= first);
    assert((CACHE_PREFIX@ + second).skip(width) =~= second);
}

} // verus!
