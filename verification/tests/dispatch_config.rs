use utv_bot::config::{decode_shared_key, ConfigError};
use utv_bot::dispatch::{route_command, update_triggers_reconcile, CommandRoute};

fn chars(s: &str) -> Vec<char> {
    s.chars().collect()
}

#[test]
fn verify_routes_to_the_issuer() {
    assert_eq!(route_command(&chars("verify"), true), CommandRoute::Verify);
    assert_eq!(route_command(&chars("verify"), false), CommandRoute::Verify);
}

#[test]
fn rescan_routes_by_origin() {
    assert_eq!(route_command(&chars("rescan"), true), CommandRoute::Rescan);
    assert_eq!(route_command(&chars("rescan"), false), CommandRoute::RescanOutsideGuild);
}

#[test]
fn unknown_commands_fall_through() {
    assert_eq!(route_command(&chars("help"), true), CommandRoute::Unrecognized);
    assert_eq!(route_command(&chars(""), true), CommandRoute::Unrecognized);
    assert_eq!(route_command(&chars("rescan "), true), CommandRoute::Unrecognized);
}

#[test]
fn updates_without_a_nickname_are_ignored() {
    assert!(update_triggers_reconcile(&Some(chars("new name"))));
    assert!(!update_triggers_reconcile(&None));
}

#[test]
fn shared_key_decodes_url_safe_unpadded_base64() {
    assert_eq!(decode_shared_key(&b"aGVsbG8".to_vec()), Ok(b"hello".to_vec()));
}

#[test]
fn url_safe_alphabet_is_accepted() {
    assert_eq!(decode_shared_key(&b"--8".to_vec()), Ok(vec![0xfb, 0xef]));
}

#[test]
fn empty_secret_decodes_to_nothing() {
    assert_eq!(decode_shared_key(&b"".to_vec()), Ok(vec![]));
}

#[test]
fn padded_input_is_rejected() {
    assert_eq!(decode_shared_key(&b"aGVsbG8=".to_vec()), Err(ConfigError::MalformedSecret));
}

#[test]
fn malformed_secret_is_a_fatal_config_error() {
    assert_eq!(decode_shared_key(&b"!!!".to_vec()), Err(ConfigError::MalformedSecret));
}
