use capycoding::config::{CapyConfig, Tokens, WifiCredentials};
use capycoding::SharedConfigCell;

fn sample_config() -> CapyConfig {
    CapyConfig {
        api_tokens: Tokens { github: b"ghp_abc".to_vec() },
        wifi_credentials: WifiCredentials {
            ssid: b"home".to_vec(),
            password: b"secret123".to_vec(),
        },
    }
}

#[test]
fn cell_starts_unprovisioned() {
    let cell = SharedConfigCell::new(None);
    assert!(!cell.is_provisioned());
    assert!(cell.read_copy().is_none());
    assert!(cell.github_token().is_none());
}

#[test]
fn cell_replaces_the_whole_record() {
    let mut cell = SharedConfigCell::new(None);
    cell.replace(Some(sample_config()));
    assert!(cell.is_provisioned());
    let copy = cell.read_copy().expect("a record is present");
    assert_eq!(copy.wifi_credentials.ssid, b"home".to_vec());
    assert_eq!(copy.wifi_credentials.password, b"secret123".to_vec());
    assert_eq!(copy.api_tokens.github, b"ghp_abc".to_vec());
}

#[test]
fn token_copy_is_just_the_token() {
    let cell = SharedConfigCell::new(Some(sample_config()));
    assert_eq!(cell.github_token(), Some(b"ghp_abc".to_vec()));
}

#[test]
fn erase_equivalent_replace_clears_the_cell() {
    let mut cell = SharedConfigCell::new(Some(sample_config()));
    cell.replace(None);
    assert!(!cell.is_provisioned());
    assert!(cell.github_token().is_none());
}
