//! BLE provisioning peripheral: the GATT server side of the protocol.
//!
//! The device advertises one service with three characteristics — SSID,
//! password, API token — each a bounded byte buffer.  At most one central
//! may be linked at a time.  Every serviced GATT event produces exactly
//! one reply; an accepted write replaces the characteristic buffer, copies
//! the value into the matching configuration field, and persists the whole
//! record to flash before further events are serviced.  A write longer
//! than the wire capacity is rejected and changes nothing.
use vstd::prelude::*;

use crate::config::{CapyConfig, ConfigModel};
use crate::config::{copy_bytes, copy_config};
use crate::flash::{FlashMem, SECTOR_SIZE};
use crate::store::spec_written;

verus! {

/// 16-bit identifier of the provisioning service.
pub const CONFIG_SERVICE_UUID: u16 = 0xBEEF;

/// 16-bit identifier of the SSID characteristic.
pub const WIFI_SSID_CHARACTERISTIC: u16 = 0xBEED;

/// 16-bit identifier of the password characteristic.
pub const WIFI_PASSWORD_CHARACTERISTIC: u16 = 0xBEEE;

/// 16-bit identifier of the API-token characteristic.
pub const GITHUB_TOKEN_CHARACTERISTIC: u16 = 0xBEEA;

/// 128-bit identifier reserved by a later protocol revision for a single
/// combined tokens record; additive, not a replacement.
pub const TOKENS_CHARACTERISTIC: u128 = 0x361c1911_a3b1_4935_ae72_2ffc828099a1;

/// Name the device advertises under; the central matches on it.
pub const PERIPHERAL_NAME: &'static str = "CapyCoder";

/// Wire capacity of each characteristic buffer, in bytes.
pub const CHARACTERISTIC_CAPACITY: usize = 24;

/// Upper bound on concurrent central links.
pub const CONNECTIONS_MAX: usize = 1;

/// A GATT event delivered on a connection.
pub enum GattEvent {
    /// A central read a characteristic.
    Read { ch: u16 },
    /// A central wrote a characteristic.
    Write { ch: u16, data: Vec<u8> },
}

/// The single reply the peripheral sends back for a serviced event.
pub enum GattReply {
    /// Reply to a read: the characteristic's current value.
    ReadValue { value: Vec<u8> },
    /// The write was applied and persisted.
    WriteAccepted,
    /// The write exceeded the wire capacity; nothing changed.
    WriteRejected,
    /// The event matched no known characteristic; still acknowledged.
    UnmatchedAck,
}

/// True of the three characteristic identifiers the service knows.
pub open spec fn spec_char_known(ch: u16) -> bool {
    ch == WIFI_SSID_CHARACTERISTIC || ch == WIFI_PASSWORD_CHARACTERISTIC
        || ch == GITHUB_TOKEN_CHARACTERISTIC
}

/// The configuration record after a write to characteristic `ch`.
pub open spec fn spec_apply_write(m: ConfigModel, ch: u16, data: Seq<u8>) -> ConfigModel {
    if ch == WIFI_SSID_CHARACTERISTIC {
        ConfigModel { ssid: data, ..m }
    } else if ch == WIFI_PASSWORD_CHARACTERISTIC {
        ConfigModel { password: data, ..m }
    } else if ch == GITHUB_TOKEN_CHARACTERISTIC {
        ConfigModel { github: data, ..m }
    } else {
        m
    }
}

/// The model held in the shared cell: the record, or all-empty before
/// the first provisioning.
pub open spec fn spec_model_of(c: Option<CapyConfig>) -> ConfigModel {
    match c {
        Some(c) => c@,
        None => ConfigModel::empty(),
    }
}

/// The GATT server: three characteristic buffers and at most one link.
pub struct Server {
    /// Buffered SSID characteristic value.
    pub wifi_ssid: Vec<u8>,
    /// Buffered password characteristic value.
    pub wifi_password: Vec<u8>,
    /// Buffered API-token characteristic value.
    pub github_token: Vec<u8>,
    /// The active central link, if any (`CONNECTIONS_MAX` is one).
    pub link: Option<u32>,
    /// How many GATT events have been serviced.
    pub events_serviced: u64,
    /// How many replies have been sent.
    pub replies_sent: u64,
}

impl Server {
    /// Buffers within the wire capacity, and every serviced event has
    /// been answered by exactly one reply.
    pub open spec fn wf(&self) -> bool {
        &&& self.wifi_ssid@.len() <= CHARACTERISTIC_CAPACITY
        &&& self.wifi_password@.len() <= CHARACTERISTIC_CAPACITY
        &&& self.github_token@.len() <= CHARACTERISTIC_CAPACITY
        &&& self.replies_sent == self.events_serviced
    }

    /// The buffered value of characteristic `ch` (empty for unknown ones).
    pub open spec fn spec_char_value(&self, ch: u16) -> Seq<u8> {
        if ch == WIFI_SSID_CHARACTERISTIC {
            self.wifi_ssid@
        } else if ch == WIFI_PASSWORD_CHARACTERISTIC {
            self.wifi_password@
        } else if ch == GITHUB_TOKEN_CHARACTERISTIC {
            self.github_token@
        } else {
            Seq::empty()
        }
    }

    /// A fresh server: empty buffers, no link, no events yet.
    pub fn new() -> (r: Server)
        ensures
            r.wf(),
            r.link is None,
            r.wifi_ssid@.len() == 0,
            r.wifi_password@.len() == 0,
            r.github_token@.len() == 0,
            r.events_serviced == 0,
    {
        Server {
            wifi_ssid: Vec::new(),
            wifi_password: Vec::new(),
            github_token: Vec::new(),
            link: None,
            events_serviced: 0,
            replies_sent: 0,
        }
    }

    /// A central connects.  Accepted only while no link is active: the
    /// peripheral never holds a second concurrent link.
    pub fn on_connect(&mut self, conn_id: u32) -> (accepted: bool)
        ensures
            accepted == (old(self).link is None),
            accepted ==> final(self).link == Some(conn_id),
            !accepted ==> final(self).link == old(self).link,
            final(self).wifi_ssid == old(self).wifi_ssid,
            final(self).wifi_password == old(self).wifi_password,
            final(self).github_token == old(self).github_token,
            final(self).events_serviced == old(self).events_serviced,
            final(self).replies_sent == old(self).replies_sent,
    {
        match self.link {
            None => {
                self.link = Some(conn_id);
                true
            },
            Some(_) => false,
        }
    }

    /// The central disconnects (or was never linked): the peripheral
    /// returns to advertising.  A no-op without an active link.
    pub fn on_disconnect(&mut self)
        ensures
            final(self).link is None,
            final(self).wifi_ssid == old(self).wifi_ssid,
            final(self).wifi_password == old(self).wifi_password,
            final(self).github_token == old(self).github_token,
            final(self).events_serviced == old(self).events_serviced,
            final(self).replies_sent == old(self).replies_sent,
    {
        self.link = None;
    }

    /// Services one GATT event delivered on connection `conn_id`.
    ///
    /// An event on anything but the active link is not serviced at all
    /// (`None`): with `CONNECTIONS_MAX` of one there is no second link to
    /// speak for.  On the active link the result is always exactly one
    /// reply, matched or not.  An accepted write replaces the buffer,
    /// updates the matching configuration field and persists the record
    /// to flash before returning.
    pub fn service_gatt_event(
        &mut self,
        conn_id: u32,
        event: &GattEvent,
        config: &mut Option<CapyConfig>,
        flash: &mut FlashMem,
    ) -> (r: Option<GattReply>)
        requires
            old(self).wf(),
            old(self).events_serviced < u64::MAX,
            match *old(config) {
                Some(c) => c.wf(),
                None => true,
            },
            old(flash)@.len() >= SECTOR_SIZE,
        ensures
            final(self).wf(),
            final(self).link == old(self).link,
            final(flash)@.len() == old(flash)@.len(),
            // Events for anything but the active link are never serviced.
            old(self).link != Some(conn_id) ==> {
                &&& r is None
                &&& *final(self) == *old(self)
                &&& *final(config) == *old(config)
                &&& final(flash)@ == old(flash)@
            },
            // Every serviced event gets exactly one reply.
            old(self).link == Some(conn_id) ==> {
                &&& r is Some
                &&& final(self).events_serviced == old(self).events_serviced + 1
                &&& final(self).replies_sent == old(self).replies_sent + 1
            },
            old(self).link == Some(conn_id) ==> match *event {
                GattEvent::Read { ch } => {
                    &&& final(self).wifi_ssid == old(self).wifi_ssid
                    &&& final(self).wifi_password == old(self).wifi_password
                    &&& final(self).github_token == old(self).github_token
                    &&& *final(config) == *old(config)
                    &&& final(flash)@ == old(flash)@
                    &&& if spec_char_known(ch) {
                        r matches Some(GattReply::ReadValue { value })
                            && value@ == old(self).spec_char_value(ch)
                    } else {
                        r == Some(GattReply::UnmatchedAck)
                    }
                },
                GattEvent::Write { ch, data } => {
                    if spec_char_known(ch) && data@.len() <= CHARACTERISTIC_CAPACITY {
                        &&& final(self).spec_char_value(ch) == data@
                        &&& forall|other: u16|
                            spec_char_known(other) && other != ch
                                ==> final(self).spec_char_value(other)
                                    == old(self).spec_char_value(other)
                        &&& *final(config) matches Some(c) && c@ == spec_apply_write(
                            spec_model_of(*old(config)),
                            ch,
                            data@,
                        ) && c.wf()
                        &&& final(flash)@.subrange(0, SECTOR_SIZE as int) == spec_written(
                            spec_apply_write(spec_model_of(*old(config)), ch, data@),
                        )
                        &&& forall|i: int|
                            SECTOR_SIZE <= i < old(flash)@.len()
                                ==> final(flash)@[i] == old(flash)@[i]
                        &&& r == Some(GattReply::WriteAccepted)
                    } else {
                        &&& final(self).wifi_ssid == old(self).wifi_ssid
                        &&& final(self).wifi_password == old(self).wifi_password
                        &&& final(self).github_token == old(self).github_token
                        &&& *final(config) == *old(config)
                        &&& final(flash)@ == old(flash)@
                        &&& if spec_char_known(ch) {
                            r == Some(GattReply::WriteRejected)
                        } else {
                            r == Some(GattReply::UnmatchedAck)
                        }
                    }
                },
            },
    {
        let is_active = match self.link {
            Some(active) => active == conn_id,
            None => false,
        };
        if !is_active {
            return None;
        }
        let reply = match event {
            GattEvent::Read { ch } => {
                let ch = *ch;
                if ch == WIFI_SSID_CHARACTERISTIC {
                    GattReply::ReadValue { value: copy_bytes(&self.wifi_ssid) }
                } else if ch == WIFI_PASSWORD_CHARACTERISTIC {
                    GattReply::ReadValue { value: copy_bytes(&self.wifi_password) }
                } else if ch == GITHUB_TOKEN_CHARACTERISTIC {
                    GattReply::ReadValue { value: copy_bytes(&self.github_token) }
                } else {
                    GattReply::UnmatchedAck
                }
            },
            GattEvent::Write { ch, data } => {
                let ch = *ch;
                if ch == WIFI_SSID_CHARACTERISTIC || ch == WIFI_PASSWORD_CHARACTERISTIC
                    || ch == GITHUB_TOKEN_CHARACTERISTIC {
                    if data.len() <= CHARACTERISTIC_CAPACITY {
                        self.apply_accepted_write(ch, data, config, flash);
                        GattReply::WriteAccepted
                    } else {
                        GattReply::WriteRejected
                    }
                } else {
                    GattReply::UnmatchedAck
                }
            },
        };
        self.events_serviced = self.events_serviced + 1;
        self.replies_sent = self.replies_sent + 1;
        Some(reply)
    }

    /// Applies an accepted write: replace the buffer, update the matching
    /// configuration field, persist the record.
    fn apply_accepted_write(
        &mut self,
        ch: u16,
        data: &Vec<u8>,
        config: &mut Option<CapyConfig>,
        flash: &mut FlashMem,
    )
        requires
            old(self).wf(),
            spec_char_known(ch),
            data@.len() <= CHARACTERISTIC_CAPACITY,
            match *old(config) {
                Some(c) => c.wf(),
                None => true,
            },
            old(flash)@.len() >= SECTOR_SIZE,
        ensures
            final(self).spec_char_value(ch) == data@,
            forall|other: u16|
                spec_char_known(other) && other != ch
                    ==> final(self).spec_char_value(other) == old(self).spec_char_value(other),
            final(self).wifi_ssid@.len() <= CHARACTERISTIC_CAPACITY,
            final(self).wifi_password@.len() <= CHARACTERISTIC_CAPACITY,
            final(self).github_token@.len() <= CHARACTERISTIC_CAPACITY,
            final(self).link == old(self).link,
            final(self).events_serviced == old(self).events_serviced,
            final(self).replies_sent == old(self).replies_sent,
            *final(config) matches Some(c) && c@ == spec_apply_write(
                spec_model_of(*old(config)),
                ch,
                data@,
            ) && c.wf(),
            final(flash)@.len() == old(flash)@.len(),
            final(flash)@.subrange(0, SECTOR_SIZE as int) == spec_written(
                spec_apply_write(spec_model_of(*old(config)), ch, data@),
            ),
            forall|i: int|
                SECTOR_SIZE <= i < old(flash)@.len() ==> final(flash)@[i] == old(flash)@[i],
    {
        let mut record = match config {
            Some(c) => copy_config(c),
            None => CapyConfig::empty(),
        };
        if ch == WIFI_SSID_CHARACTERISTIC {
            self.wifi_ssid = copy_bytes(data);
            record.wifi_credentials.ssid = copy_bytes(data);
        } else if ch == WIFI_PASSWORD_CHARACTERISTIC {
            self.wifi_password = copy_bytes(data);
            record.wifi_credentials.password = copy_bytes(data);
        } else {
            self.github_token = copy_bytes(data);
            record.api_tokens.github = copy_bytes(data);
        }
        assert(record@ =~= spec_apply_write(spec_model_of(*old(config)), ch, data@));
        record.write(flash);
        *config = Some(record);
    }
}

} // verus!
