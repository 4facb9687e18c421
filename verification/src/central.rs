//! BLE provisioning central: the desktop side of the protocol.
//!
//! The central scans for the device by advertised name (substring match
//! over the discovered names), connects, locates the provisioning service
//! and its three characteristics by identifier, and pushes the three
//! credential values in a fixed order: token, SSID, password.  The radio
//! calls themselves happen outside; this module makes every decision —
//! which peripheral, which service, which characteristic, which bytes, in
//! which order — and says exactly when each error is returned.
use vstd::prelude::*;

use crate::ble::{
    CONFIG_SERVICE_UUID, GITHUB_TOKEN_CHARACTERISTIC, WIFI_PASSWORD_CHARACTERISTIC,
    WIFI_SSID_CHARACTERISTIC,
};
use crate::config::copy_bytes;

verus! {

/// Fixed window the central scans for peripherals before giving up, in
/// milliseconds; there is no cancellation once a scan starts.
pub const SCAN_WINDOW_MS: u64 = 5000;

/// Why a provisioning attempt was abandoned.
#[derive(PartialEq, Eq, Structural, Clone, Copy, Debug)]
pub enum CentralError {
    /// No discovered peripheral advertises the expected name.
    DeviceNotFound,
    /// Not connected to the peripheral.
    NotConnected,
    /// The connected peripheral exposes no provisioning service.
    ServiceNotFound,
    /// The provisioning service lacks one of the three characteristics.
    CharacteristicNotFound,
}

/// A discovered GATT service: its identifier and those of its
/// characteristics.
pub struct ServiceInfo {
    pub uuid: u16,
    pub characteristics: Vec<u16>,
}

/// One write the central will send: which characteristic, which bytes.
pub struct WriteCommand {
    pub characteristic: u16,
    pub value: Vec<u8>,
}

/// `needle` occurs in `hay` starting at `i`.
pub open spec fn spec_match_at(hay: Seq<u8>, needle: Seq<u8>, i: int) -> bool {
    0 <= i && i + needle.len() <= hay.len() && hay.subrange(i, i + needle.len()) == needle
}

/// `needle` occurs somewhere in `hay`.
pub open spec fn spec_contains(hay: Seq<u8>, needle: Seq<u8>) -> bool {
    exists|i: int| spec_match_at(hay, needle, i)
}

/// `needle` occurs in `hay` starting exactly at `i`.
fn match_at(hay: &Vec<u8>, needle: &Vec<u8>, i: usize) -> (r: bool)
    requires
        i + needle@.len() <= hay@.len(),
    ensures
        r == spec_match_at(hay@, needle@, i as int),
{
    let hlen = hay.len();
    let nlen = needle.len();
    let mut k: usize = 0;
    while k < nlen
        invariant
            k <= nlen,
            nlen == needle@.len(),
            hlen == hay@.len(),
            i + nlen <= hlen,
            forall|j: int| 0 <= j < k ==> hay@[i + j] == needle@[j],
        decreases nlen - k,
    {
        if hay[i + k] != needle[k] {
            assert(!spec_match_at(hay@, needle@, i as int)) by {
                assert(hay@.subrange(i as int, i + needle@.len())[k as int] == hay@[i + k]);
            }
            return false;
        }
        k = k + 1;
    }
    assert(hay@.subrange(i as int, i + needle@.len()) =~= needle@);
    true
}

/// Whether `needle` occurs anywhere in `hay`.
pub fn contains_subrange(hay: &Vec<u8>, needle: &Vec<u8>) -> (r: bool)
    ensures
        r == spec_contains(hay@, needle@),
{
    let hlen = hay.len();
    let nlen = needle.len();
    if nlen > hlen {
        assert(forall|i: int| !spec_match_at(hay@, needle@, i));
        return false;
    }
    if nlen == 0 {
        assert(spec_match_at(hay@, needle@, 0)) by {
            assert(hay@.subrange(0, 0) =~= needle@);
        }
        return true;
    }
    let last = hlen - nlen;
    let mut i: usize = 0;
    while i <= last
        invariant
            i <= last + 1,
            last < hlen == hay@.len(),
            last + needle@.len() == hay@.len(),
            forall|j: int| 0 <= j < i ==> !spec_match_at(hay@, needle@, j),
        decreases last - i + 1,
    {
        if match_at(hay, needle, i) {
            return true;
        }
        i = i + 1;
    }
    assert(forall|j: int| j > last ==> !spec_match_at(hay@, needle@, j));
    false
}

/// Picks the peripheral to provision: the first discovered name that
/// contains `needle`, scanning in discovery order.
pub fn find_peripheral_by_name(names: &Vec<Vec<u8>>, needle: &Vec<u8>) -> (r: Option<usize>)
    ensures
        match r {
            Some(i) => {
                &&& i < names@.len()
                &&& spec_contains(names@[i as int]@, needle@)
                &&& forall|j: int| 0 <= j < i ==> !spec_contains(names@[j]@, needle@)
            },
            None => forall|j: int| 0 <= j < names@.len() ==> !spec_contains(names@[j]@, needle@),
        },
{
    let mut i: usize = 0;
    while i < names.len()
        invariant
            i <= names@.len(),
            forall|j: int| 0 <= j < i ==> !spec_contains(names@[j]@, needle@),
        decreases names@.len() - i,
    {
        if contains_subrange(&names[i], needle) {
            return Some(i);
        }
        i = i + 1;
    }
    None
}

/// First discovered service carrying the provisioning service identifier.
pub open spec fn spec_find_service(services: Seq<ServiceInfo>) -> Option<int>
    decreases services.len(),
{
    if services.len() == 0 {
        None
    } else if services[0].uuid == CONFIG_SERVICE_UUID {
        Some(0)
    } else {
        match spec_find_service(services.subrange(1, services.len() as int)) {
            Some(i) => Some(i + 1),
            None => None,
        }
    }
}

/// The service lists `ch` among its characteristics.
pub open spec fn spec_has_char(s: &ServiceInfo, ch: u16) -> bool {
    exists|i: int| 0 <= i < s.characteristics@.len() && s.characteristics@[i] == ch
}

/// Whether the service lists `ch`.
fn has_char(s: &ServiceInfo, ch: u16) -> (r: bool)
    ensures
        r == spec_has_char(s, ch),
{
    let mut i: usize = 0;
    while i < s.characteristics.len()
        invariant
            i <= s.characteristics@.len(),
            forall|j: int| 0 <= j < i ==> s.characteristics@[j] != ch,
        decreases s.characteristics@.len() - i,
    {
        if s.characteristics[i] == ch {
            return true;
        }
        i = i + 1;
    }
    false
}

/// Locates the provisioning service among the discovered ones.
fn find_config_service(services: &Vec<ServiceInfo>) -> (r: Option<usize>)
    ensures
        match r {
            Some(i) => i < services@.len() && spec_find_service(services@) == Some(i as int),
            None => spec_find_service(services@) is None,
        },
{
    let mut i: usize = 0;
    while i < services.len()
        invariant
            i <= services@.len(),
            forall|j: int| 0 <= j < i ==> services@[j].uuid != CONFIG_SERVICE_UUID,
        decreases services@.len() - i,
    {
        if services[i].uuid == CONFIG_SERVICE_UUID {
            proof {
                lemma_find_service_first(services@, i as int);
            }
            return Some(i);
        }
        i = i + 1;
    }
    proof {
        lemma_find_service_none(services@);
    }
    None
}

/// When index `i` is the first match, the search finds exactly `i`.
proof fn lemma_find_service_first(services: Seq<ServiceInfo>, i: int)
    requires
        0 <= i < services.len(),
        services[i].uuid == CONFIG_SERVICE_UUID,
        forall|j: int| 0 <= j < i ==> services[j].uuid != CONFIG_SERVICE_UUID,
    ensures
        spec_find_service(services) == Some(i),
    decreases i,
{
    if i == 0 {
    } else {
        let rest = services.subrange(1, services.len() as int);
        lemma_find_service_first(rest, i - 1);
    }
}

/// When no service matches, the search finds none.
proof fn lemma_find_service_none(services: Seq<ServiceInfo>)
    requires
        forall|j: int| 0 <= j < services.len() ==> services[j].uuid != CONFIG_SERVICE_UUID,
    ensures
        spec_find_service(services) is None,
    decreases services.len(),
{
    if services.len() > 0 {
        lemma_find_service_none(services.subrange(1, services.len() as int));
    }
}

/// The desktop's handle on the provisioning peripheral.
pub struct CapyCoder {
    /// Whether a link to the peripheral is currently held.
    pub connected: bool,
}

impl Default for CapyCoder {
    /// Starts out with no link.
    fn default() -> (r: CapyCoder)
        ensures
            !r.connected,
    {
        CapyCoder { connected: false }
    }
}

impl CapyCoder {
    /// Concludes the scan-and-connect flow: links to the peripheral the
    /// scan picked, or reports that none advertised the expected name.
    pub fn connect(&mut self, scan_match: Option<usize>) -> (r: Result<usize, CentralError>)
        ensures
            match scan_match {
                Some(i) => r == Ok::<usize, CentralError>(i) && final(self).connected,
                None => {
                    &&& r == Err::<usize, CentralError>(CentralError::DeviceNotFound)
                    &&& final(self).connected == old(self).connected
                },
            },
    {
        match scan_match {
            Some(i) => {
                self.connected = true;
                Ok(i)
            },
            None => Err(CentralError::DeviceNotFound),
        }
    }

    /// Drops the link.  Disconnecting with no active link is a no-op
    /// success, never an error; the result says whether there is a link
    /// the transport still has to tear down.
    pub fn disconnect(&mut self) -> (needs_io: bool)
        ensures
            !final(self).connected,
            needs_io == old(self).connected,
    {
        let was = self.connected;
        self.connected = false;
        was
    }

    /// Plans the three credential writes against the discovered services:
    /// token first, then SSID, then password, each to its characteristic
    /// by identifier.  Errors exactly when not connected, when no service
    /// carries the provisioning identifier, or when the first such
    /// service lacks one of the three characteristics.
    pub fn plan_config_writes(
        &self,
        services: &Vec<ServiceInfo>,
        wifi_name: &Vec<u8>,
        wifi_pass: &Vec<u8>,
        github_token: &Vec<u8>,
    ) -> (r: Result<Vec<WriteCommand>, CentralError>)
        ensures
            !self.connected ==> r == Err::<Vec<WriteCommand>, CentralError>(
                CentralError::NotConnected,
            ),
            self.connected ==> match spec_find_service(services@) {
                None => r == Err::<Vec<WriteCommand>, CentralError>(CentralError::ServiceNotFound),
                Some(k) => {
                    let svc = &services@[k];
                    if spec_has_char(svc, GITHUB_TOKEN_CHARACTERISTIC) && spec_has_char(
                        svc,
                        WIFI_SSID_CHARACTERISTIC,
                    ) && spec_has_char(svc, WIFI_PASSWORD_CHARACTERISTIC) {
                        r matches Ok(cmds) && {
                            &&& cmds@.len() == 3
                            &&& cmds@[0].characteristic == GITHUB_TOKEN_CHARACTERISTIC
                            &&& cmds@[0].value@ == github_token@
                            &&& cmds@[1].characteristic == WIFI_SSID_CHARACTERISTIC
                            &&& cmds@[1].value@ == wifi_name@
                            &&& cmds@[2].characteristic == WIFI_PASSWORD_CHARACTERISTIC
                            &&& cmds@[2].value@ == wifi_pass@
                        }
                    } else {
                        r == Err::<Vec<WriteCommand>, CentralError>(
                            CentralError::CharacteristicNotFound,
                        )
                    }
                },
            },
    {
        if !self.connected {
            return Err(CentralError::NotConnected);
        }
        let Some(k) = find_config_service(services) else {
            return Err(CentralError::ServiceNotFound);
        };
        let svc = &services[k];
        if !has_char(svc, GITHUB_TOKEN_CHARACTERISTIC) {
            return Err(CentralError::CharacteristicNotFound);
        }
        if !has_char(svc, WIFI_SSID_CHARACTERISTIC) {
            return Err(CentralError::CharacteristicNotFound);
        }
        if !has_char(svc, WIFI_PASSWORD_CHARACTERISTIC) {
            return Err(CentralError::CharacteristicNotFound);
        }
        let mut cmds: Vec<WriteCommand> = Vec::new();
        cmds.push(
            WriteCommand {
                characteristic: GITHUB_TOKEN_CHARACTERISTIC,
                value: copy_bytes(github_token),
            },
        );
        cmds.push(WriteCommand { characteristic: WIFI_SSID_CHARACTERISTIC, value: copy_bytes(wifi_name) });
        cmds.push(
            WriteCommand { characteristic: WIFI_PASSWORD_CHARACTERISTIC, value: copy_bytes(wifi_pass) },
        );
        Ok(cmds)
    }
}

} // verus!
