//! Values shared with the platform bindings (C ABI, Swift, WebAssembly).

use vstd::prelude::*;

use crate::config::StorageMode;

verus! {

/// Where and how a binding opens its store.
#[derive(Clone, Debug, PartialEq, Eq)]
pub struct BindingStorageConfig {
    pub path_or_name: String,
    pub mode: StorageMode,
}

impl BindingStorageConfig {
    /// A binary-mode store at `path_or_name`.
    pub fn binary(path_or_name: String) -> (res: Self)
        ensures
            res.path_or_name@ == path_or_name@,
            res.mode == StorageMode::Binary,
    {
        BindingStorageConfig { path_or_name, mode: StorageMode::Binary }
    }
}

/// Settings of the Apple platforms.
#[derive(Clone, Debug, PartialEq, Eq)]
pub struct AppleRuntimeConfig {
    pub app_group_identifier: Option<String>,
    pub background_sync_enabled: bool,
}

impl Default for AppleRuntimeConfig {
    /// No app group; background sync on.
    fn default() -> (res: Self)
        ensures
            res.app_group_identifier is None,
            res.background_sync_enabled,
    {
        AppleRuntimeConfig { app_group_identifier: None, background_sync_enabled: true }
    }
}

/// The storage modes as the C ABI numbers them: 0, 1 and 2 in this order.
#[allow(non_camel_case_types)]
#[derive(Clone, Copy, Debug, PartialEq, Eq, Structural)]
pub enum synchole_storage_mode {
    SyncholeStorageBinary,
    SyncholeStorageSql,
    SyncholeStorageDocument,
}

/// The major version of the binding ABI.
pub fn synchole_version_major() -> (res: u32)
    ensures
        res == 0,
{
    0
}

/// Whether `mode` numbers one of the storage modes.
pub fn synchole_storage_mode_is_valid(mode: u32) -> (res: bool)
    ensures
        res == (mode <= 2),
{
    mode <= 2
}

/// Storage settings handed over from JavaScript.
#[derive(Clone, Debug, PartialEq, Eq)]
pub struct WasmSyncholeConfig {
    storage_name: String,
    storage_mode: String,
}

impl WasmSyncholeConfig {
    /// The store's name.
    pub closed spec fn name(&self) -> Seq<char> {
        self.storage_name@
    }

    /// The store's mode, as text.
    pub closed spec fn mode_text(&self) -> Seq<char> {
        self.storage_mode@
    }

    pub fn new(storage_name: String, storage_mode: String) -> (res: Self)
        ensures
            res.name() == storage_name@,
            res.mode_text() == storage_mode@,
    {
        WasmSyncholeConfig { storage_name, storage_mode }
    }

    pub fn storage_name(&self) -> (res: String)
        ensures
            res@ == self.name(),
    {
        self.storage_name.clone()
    }

    pub fn storage_mode(&self) -> (res: String)
        ensures
            res@ == self.mode_text(),
    {
        self.storage_mode.clone()
    }
}

} // verus!
