//! The persisted credential bundle: Wi-Fi credentials plus an API token.
//!
//! Field capacities are fixed so that the record always serializes into a
//! buffer whose size is known at compile time and fits one flash write
//! region.
use vstd::prelude::*;

verus! {

/// Maximum length, in bytes, of a stored Wi-Fi SSID.
pub const SSID_MAX_LEN: usize = 30;

/// Maximum length, in bytes, of a stored Wi-Fi password.
pub const PASSWORD_MAX_LEN: usize = 30;

/// Maximum length, in bytes, of a stored API token.
pub const TOKEN_MAX_LEN: usize = 30;

/// Wi-Fi credentials as stored on the device.
pub struct WifiCredentials {
    pub ssid: Vec<u8>,
    pub password: Vec<u8>,
}

/// API tokens as stored on the device.
pub struct Tokens {
    pub github: Vec<u8>,
}

/// The persisted configuration record.
pub struct CapyConfig {
    pub api_tokens: Tokens,
    pub wifi_credentials: WifiCredentials,
}

/// Mathematical model of a configuration record: the three credential
/// fields as byte sequences, in the order in which they are serialized.
#[verifier::ext_equal]
pub struct ConfigModel {
    pub github: Seq<u8>,
    pub ssid: Seq<u8>,
    pub password: Seq<u8>,
}

impl ConfigModel {
    /// Every field within its capacity.
    pub open spec fn wf(self) -> bool {
        &&& self.github.len() <= TOKEN_MAX_LEN
        &&& self.ssid.len() <= SSID_MAX_LEN
        &&& self.password.len() <= PASSWORD_MAX_LEN
    }

    /// The record all of whose fields are empty.
    pub open spec fn empty() -> ConfigModel {
        ConfigModel { github: Seq::empty(), ssid: Seq::empty(), password: Seq::empty() }
    }

    /// True when every field is empty.
    pub open spec fn is_empty(self) -> bool {
        self.github.len() == 0 && self.ssid.len() == 0 && self.password.len() == 0
    }
}

impl View for CapyConfig {
    type V = ConfigModel;

    open spec fn view(&self) -> ConfigModel {
        ConfigModel {
            github: self.api_tokens.github@,
            ssid: self.wifi_credentials.ssid@,
            password: self.wifi_credentials.password@,
        }
    }
}

impl CapyConfig {
    /// Every field within its capacity.
    pub open spec fn wf(&self) -> bool {
        self@.wf()
    }

    /// A record with all fields empty, the state before provisioning.
    pub fn empty() -> (r: CapyConfig)
        ensures
            r@ == ConfigModel::empty(),
            r.wf(),
    {
        let r = CapyConfig {
            api_tokens: Tokens { github: Vec::new() },
            wifi_credentials: WifiCredentials { ssid: Vec::new(), password: Vec::new() },
        };
        assert(r@ =~= ConfigModel::empty());
        r
    }
}

/// The model of an optional record: present records keep their model.
pub open spec fn spec_opt_model(c: Option<CapyConfig>) -> Option<ConfigModel> {
    match c {
        Some(c) => Some(c@),
        None => None,
    }
}

/// A byte-for-byte copy of a byte vector.
pub fn copy_bytes(src: &Vec<u8>) -> (r: Vec<u8>)
    ensures
        r@ == src@,
{
    let mut r: Vec<u8> = Vec::new();
    let mut i: usize = 0;
    while i < src.len()
        invariant
            i <= src@.len(),
            r@ == src@.subrange(0, i as int),
        decreases src@.len() - i,
    {
        r.push(src[i]);
        assert(r@ =~= src@.subrange(0, i + 1 as int));
        i = i + 1;
    }
    assert(r@ =~= src@);
    r
}

/// A deep copy of a configuration record.
pub fn copy_config(src: &CapyConfig) -> (r: CapyConfig)
    ensures
        r@ == src@,
{
    let r = CapyConfig {
        api_tokens: Tokens { github: copy_bytes(&src.api_tokens.github) },
        wifi_credentials: WifiCredentials {
            ssid: copy_bytes(&src.wifi_credentials.ssid),
            password: copy_bytes(&src.wifi_credentials.password),
        },
    };
    assert(r@ =~= src@);
    r
}

} // verus!
