use matrix_bridge::client::{
    guest_client, login_new_client, login_with_token, Client, GuestRegistration, SyncPhase,
    SyncStart,
};
use matrix_bridge::endpoint::homeserver;
use matrix_bridge::error::ClientError;
use matrix_bridge::session::Session;
use matrix_bridge::state::{ClientState, LoopCtrl};
use matrix_bridge::store::{new_client_config, ClientConfig};

fn config() -> ClientConfig {
    new_client_config("/data".to_string(), "@a:example.org")
}

fn registration() -> GuestRegistration {
    GuestRegistration {
        access_token: Some("guest-token".to_string()),
        user_id: "@12345:example.org".to_string(),
        device_id: Some("GUESTDEV".to_string()),
    }
}

#[test]
fn error_message_has_the_prefix() {
    let e = ClientError::generic("boom");
    assert_eq!(e.message(), "client error: boom");
    let ClientError::Generic { msg } = e;
    assert_eq!(msg, "boom");
}

#[test]
fn homeserver_is_normalized() {
    assert_eq!(homeserver("https://example.org").unwrap(), "https://example.org/");
    assert_eq!(homeserver("HTTPS://Example.ORG:443/a/../b").unwrap(), "https://example.org/b");
}

#[test]
fn homeserver_refuses_what_is_no_url() {
    let e = homeserver("example.org").unwrap_err();
    assert_eq!(e.message(), "client error: relative URL without a base");
    let e = homeserver("https://").unwrap_err();
    assert_eq!(e.message(), "client error: empty host");
}

#[test]
fn config_names_the_store_after_the_sanitized_identity() {
    let config = new_client_config("/data".to_string(), "https://example.org/");
    assert_eq!(config.base_path, "/data");
    assert_eq!(config.store_dir, "https_example.org");
    assert_eq!(config.user_agent, "rust-sdk-ios");
    let config = new_client_config("/data".to_string(), "@alice:example.org");
    assert_eq!(config.store_dir, "@alice_example.org");
}

#[test]
fn guest_client_is_a_guest_with_a_session() {
    let client = guest_client("/data".to_string(), "https://example.org", registration()).unwrap();
    assert!(client.is_guest());
    assert!(!client.has_first_synced());
    assert!(!client.is_syncing());
    assert_eq!(client.homeserver(), "https://example.org/");
    assert_eq!(client.user_id().unwrap(), "@12345:example.org");
    assert_eq!(client.device_id().unwrap(), "GUESTDEV");
    assert_eq!(client.session().unwrap().access_token(), "guest-token");
}

#[test]
fn guest_client_refuses_a_bad_endpoint_first() {
    let mut answer = registration();
    answer.access_token = None;
    let e = guest_client("/data".to_string(), "nowhere", answer).unwrap_err();
    assert_eq!(e.message(), "client error: relative URL without a base");
}

#[test]
fn guest_client_needs_the_access_token() {
    let mut answer = registration();
    answer.access_token = None;
    answer.device_id = None;
    let e = guest_client("/data".to_string(), "https://example.org", answer).unwrap_err();
    assert_eq!(e.message(), "client error: no access token given");
}

#[test]
fn guest_client_needs_the_device_identifier() {
    let mut answer = registration();
    answer.device_id = None;
    let e = guest_client("/data".to_string(), "https://example.org", answer).unwrap_err();
    assert_eq!(e.message(), "client error: device id is given by server");
}

#[test]
fn guest_client_checks_the_user_identifier() {
    let mut answer = registration();
    answer.user_id = "12345".to_string();
    let e = guest_client("/data".to_string(), "https://example.org", answer).unwrap_err();
    assert_eq!(e.message(), "client error: leading sigil is incorrect or missing");
}

#[test]
fn password_login_is_no_guest() {
    let client = login_new_client(
        "/data".to_string(),
        "@alice:example.org".to_string(),
        "https://example.org/".to_string(),
        "tok".to_string(),
        "DEV".to_string(),
    )
    .unwrap();
    assert!(!client.is_guest());
    assert!(!client.has_first_synced());
    assert_eq!(client.user_id().unwrap(), "@alice:example.org");
    assert_eq!(client.homeserver(), "https://example.org/");
}

#[test]
fn password_login_refuses_a_bad_user_name() {
    let e = login_new_client(
        "/data".to_string(),
        "alice".to_string(),
        "https://example.org/".to_string(),
        "tok".to_string(),
        "DEV".to_string(),
    )
    .unwrap_err();
    assert_eq!(e.message(), "client error: leading sigil is incorrect or missing");
}

#[test]
fn restore_token_brings_the_client_back() {
    let client = guest_client("/data".to_string(), "https://example.org", registration()).unwrap();
    let token = client.restore_token().unwrap();
    assert_eq!(
        token,
        "{\"is_guest\":true,\"homeurl\":\"https://example.org/\",\"session\":{\"access_token\":\"guest-token\",\"user_id\":\"@12345:example.org\",\"device_id\":\"GUESTDEV\"}}"
    );
    let back = login_with_token("/data".to_string(), &token).unwrap();
    assert!(back.is_guest());
    assert_eq!(back.homeserver(), "https://example.org/");
    assert_eq!(back.user_id().unwrap(), "@12345:example.org");
    assert_eq!(back.device_id().unwrap(), "GUESTDEV");
    assert_eq!(back.session().unwrap().access_token(), "guest-token");
    assert_eq!(back.restore_token().unwrap(), token);
}

#[test]
fn restore_token_is_a_snapshot() {
    let mut client = login_new_client(
        "/data".to_string(),
        "@alice:example.org".to_string(),
        "https://example.org/".to_string(),
        "tok".to_string(),
        "DEV".to_string(),
    )
    .unwrap();
    let token = client.restore_token().unwrap();
    client.on_sync_update();
    client.stop_sync();
    let back = login_with_token("/data".to_string(), &token).unwrap();
    assert!(!back.is_guest());
    assert!(!back.has_first_synced());
    assert!(!back.is_syncing());
    assert_eq!(back.user_id().unwrap(), "@alice:example.org");
}

#[test]
fn a_restored_client_starts_unsynced() {
    let mut client = guest_client("/data".to_string(), "https://example.org", registration()).unwrap();
    client.on_sync_update();
    assert!(client.has_first_synced());
    let back = login_with_token("/data".to_string(), &client.restore_token().unwrap()).unwrap();
    assert!(!back.has_first_synced());
}

#[test]
fn login_with_token_refuses_a_bad_token() {
    assert!(login_with_token("/data".to_string(), "garbage").is_err());
    let e = login_with_token("/data".to_string(), "{}").unwrap_err();
    assert_eq!(e.message(), "client error: missing field `is_guest`");
}

#[test]
fn login_with_token_refuses_a_bad_endpoint() {
    let e = login_with_token(
        "/data".to_string(),
        "{\"is_guest\":false,\"homeurl\":\"nowhere\",\"session\":{\"access_token\":\"t\",\"user_id\":\"@a:b.c\",\"device_id\":\"D\"}}",
    )
    .unwrap_err();
    assert_eq!(e.message(), "client error: relative URL without a base");
}

#[test]
fn a_client_without_a_session_has_no_token() {
    let client = Client::new(config(), "https://example.org/".to_string(), None, ClientState::default());
    assert_eq!(client.restore_token().unwrap_err().message(), "client error: Missing session");
    assert_eq!(client.user_id().unwrap_err().message(), "client error: No User ID found");
    assert_eq!(client.device_id().unwrap_err().message(), "client error: No Device ID found");
    assert!(client.session().is_none());
}

#[test]
fn sync_updates_drive_the_state() {
    let session =
        Session::new("t".to_string(), "@a:example.org".to_string(), "D".to_string()).unwrap();
    let mut client =
        Client::new(config(), "https://example.org/".to_string(), Some(session), ClientState::default());
    assert!(!client.has_first_synced());
    assert!(!client.is_syncing());
    assert_eq!(client.on_sync_update(), LoopCtrl::Continue);
    assert!(client.has_first_synced());
    assert!(client.is_syncing());
    assert_eq!(client.on_sync_update(), LoopCtrl::Continue);
    client.stop_sync();
    assert!(client.is_syncing());
    assert_eq!(client.on_sync_update(), LoopCtrl::Break);
    assert!(client.has_first_synced());
    assert!(!client.is_syncing());
}

#[test]
fn a_second_start_of_the_loop_is_refused() {
    let mut client =
        Client::new(config(), "https://example.org/".to_string(), None, ClientState::default());
    assert_eq!(client.sync_phase(), SyncPhase::Idle);
    assert_eq!(client.start_sync(), SyncStart::Started);
    assert_eq!(client.sync_phase(), SyncPhase::Running);
    assert_eq!(client.start_sync(), SyncStart::AlreadyStarted);
    assert_eq!(client.sync_phase(), SyncPhase::Running);
}

#[test]
fn the_loop_goes_through_its_phases() {
    let mut client =
        Client::new(config(), "https://example.org/".to_string(), None, ClientState::default());
    assert_eq!(client.start_sync(), SyncStart::Started);
    assert_eq!(client.on_sync_update(), LoopCtrl::Continue);
    assert_eq!(client.sync_phase(), SyncPhase::Running);
    client.stop_sync();
    assert_eq!(client.sync_phase(), SyncPhase::Stopping);
    assert!(client.is_syncing());
    assert_eq!(client.on_sync_update(), LoopCtrl::Break);
    assert_eq!(client.sync_phase(), SyncPhase::Stopped);
    assert!(!client.is_syncing());
    assert_eq!(client.start_sync(), SyncStart::AlreadyStarted);
    assert_eq!(client.sync_phase(), SyncPhase::Stopped);
}

#[test]
fn a_failed_round_is_tried_again_until_a_stop() {
    let mut client =
        Client::new(config(), "https://example.org/".to_string(), None, ClientState::default());
    client.start_sync();
    assert_eq!(client.on_sync_failure(), LoopCtrl::Continue);
    assert!(!client.has_first_synced());
    assert!(!client.is_syncing());
    assert_eq!(client.on_sync_update(), LoopCtrl::Continue);
    assert_eq!(client.on_sync_failure(), LoopCtrl::Continue);
    assert!(client.has_first_synced());
    assert!(client.is_syncing());
    client.stop_sync();
    assert_eq!(client.on_sync_failure(), LoopCtrl::Break);
    assert!(client.has_first_synced());
    assert!(!client.is_syncing());
    assert_eq!(client.sync_phase(), SyncPhase::Stopped);
}

#[test]
fn a_stop_before_the_start_ends_the_loop_at_its_first_cycle() {
    let mut client =
        Client::new(config(), "https://example.org/".to_string(), None, ClientState::default());
    client.stop_sync();
    assert_eq!(client.sync_phase(), SyncPhase::Idle);
    assert_eq!(client.start_sync(), SyncStart::Started);
    assert_eq!(client.sync_phase(), SyncPhase::Stopping);
    assert_eq!(client.on_sync_update(), LoopCtrl::Break);
    assert!(client.has_first_synced());
    assert!(!client.is_syncing());
}

#[test]
fn a_missing_display_name_or_avatar_is_a_failure() {
    assert_eq!(Client::display_name(Some("Alice".to_string())).unwrap(), "Alice");
    assert_eq!(
        Client::display_name(None).unwrap_err().message(),
        "client error: No display name found"
    );
    assert_eq!(Client::avatar(Some("mxc://example.org/a".to_string())).unwrap(), "mxc://example.org/a");
    assert_eq!(Client::avatar(None).unwrap_err().message(), "client error: No avatar Url given");
}

#[test]
fn each_client_keeps_its_data_under_its_own_name() {
    let guest = guest_client("/data".to_string(), "https://example.org", registration()).unwrap();
    assert_eq!(guest.config().base_path, "/data");
    assert_eq!(guest.config().store_dir, "https_example.org");
    assert_eq!(guest.config().user_agent, "rust-sdk-ios");
    let back = login_with_token("/other".to_string(), &guest.restore_token().unwrap()).unwrap();
    assert_eq!(back.config().base_path, "/other");
    assert_eq!(back.config().store_dir, "@12345_example.org");
    let user = login_new_client(
        "/data".to_string(),
        "@alice:example.org".to_string(),
        "https://example.org/".to_string(),
        "tok".to_string(),
        "DEV".to_string(),
    )
    .unwrap();
    assert_eq!(user.config().store_dir, "@alice_example.org");
}
