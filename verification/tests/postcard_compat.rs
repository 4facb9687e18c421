//! The record codec against an independent compact-binary serializer.
//!
//! A configuration record is three length-prefixed strings in a fixed
//! order; postcard serializes a tuple of three string slices the same
//! way (a varint length, one byte below 128, then the bytes).  The two
//! must agree byte for byte for every record within the capacities.
use capycoding::codec::encode_config;
use capycoding::config::{CapyConfig, Tokens, WifiCredentials};

fn config_of(github: &str, ssid: &str, password: &str) -> CapyConfig {
    CapyConfig {
        api_tokens: Tokens { github: github.as_bytes().to_vec() },
        wifi_credentials: WifiCredentials {
            ssid: ssid.as_bytes().to_vec(),
            password: password.as_bytes().to_vec(),
        },
    }
}

fn assert_matches_postcard(github: &str, ssid: &str, password: &str) {
    let ours = encode_config(&config_of(github, ssid, password));
    let theirs: Vec<u8> = postcard::to_allocvec(&(github, ssid, password)).unwrap();
    assert_eq!(ours, theirs);
}

#[test]
fn encoding_agrees_with_postcard() {
    assert_matches_postcard("ghp_abc", "home", "secret123");
    assert_matches_postcard("", "", "");
    assert_matches_postcard("t", "", "p");
    assert_matches_postcard(
        "012345678901234567890123456789",
        "012345678901234567890123456789",
        "012345678901234567890123456789",
    );
}
