//! Provisioning-and-connectivity core for a small display device.
//!
//! The device receives its Wi-Fi credentials and API token over a BLE
//! GATT service, persists them in a reserved flash region, and uses them
//! to drive a retrying Wi-Fi connection and a metrics fetch loop.  This
//! crate holds the verified core: the configuration record and its
//! binary codec, the flash-backed store, the GATT provisioning state
//! machines for both roles, the Wi-Fi connection state machine, and the
//! parsing of the metrics payloads.
use vstd::prelude::*;

pub mod ble;
pub mod central;
pub mod codec;
pub mod config;
pub mod flash;
pub mod grammar;
pub mod json;
pub mod metrics;
pub mod store;
pub mod types;
pub mod wifi;

use crate::config::{copy_config, spec_opt_model, CapyConfig, ConfigModel};

verus! {

/// A process-wide example state slot.
pub struct AppState {
    pub counter: u32,
    pub data: Option<String>,
}

impl Default for AppState {
    /// Zero counter, no data.
    fn default() -> (r: AppState)
        ensures
            r.counter == 0,
            r.data is None,
    {
        AppState { counter: 0, data: None }
    }
}

/// Notification passed between tasks once the network link is up.
#[derive(Clone, Copy)]
pub enum Message {
    Connected,
}

/// The single slot holding the current configuration, shared by the
/// provisioning peripheral (its one writer) and the Wi-Fi manager,
/// metrics fetcher and render task (its readers).
///
/// The surrounding tasks wrap this cell in their executor's mutex and
/// hold the lock only long enough to copy a value in or out — never
/// across flash, radio or network waits, since one cooperative scheduler
/// drives every task.  The whole record is replaced in one call, so a
/// reader never observes a partially written record.
pub struct SharedConfigCell {
    value: Option<CapyConfig>,
}

impl SharedConfigCell {
    /// The stored record's model, when one is stored.
    pub closed spec fn model(&self) -> Option<ConfigModel> {
        spec_opt_model(self.value)
    }

    /// A cell holding `initial`, typically what the store loaded at boot.
    pub fn new(initial: Option<CapyConfig>) -> (r: SharedConfigCell)
        ensures
            r.model() == spec_opt_model(initial),
    {
        SharedConfigCell { value: initial }
    }

    /// Whether a record is present.
    pub fn is_provisioned(&self) -> (r: bool)
        ensures
            r == (self.model() is Some),
    {
        self.value.is_some()
    }

    /// Replaces the whole record in one step.
    pub fn replace(&mut self, v: Option<CapyConfig>)
        ensures
            final(self).model() == spec_opt_model(v),
    {
        self.value = v;
    }

    /// A copy of the stored record, for a reader to use after releasing
    /// the lock.
    pub fn read_copy(&self) -> (r: Option<CapyConfig>)
        ensures
            spec_opt_model(r) == self.model(),
    {
        match &self.value {
            Some(c) => Some(copy_config(c)),
            None => None,
        }
    }

    /// A copy of just the API token, the one field the metrics fetcher
    /// needs; `None` until provisioned.
    pub fn github_token(&self) -> (r: Option<Vec<u8>>)
        ensures
            match self.model() {
                Some(m) => r matches Some(t) && t@ == m.github,
                None => r is None,
            },
    {
        match &self.value {
            Some(c) => Some(crate::config::copy_bytes(&c.api_tokens.github)),
            None => None,
        }
    }
}

} // verus!
