use dgit::accounts::{Account, Config};
use dgit::ledger::{materialize_refs, verify_refs_stored, LedgerHandle, Ref};
use dgit::registry::{check_new_repository, register_repository, Registry};
use dgit::roles::{parse_eth_address, role_check_response, role_response, Role};
use dgit::Error;

fn active_ref(name: &str, target: &str) -> Ref {
    Ref {
        name: name.to_string(),
        data: target.as_bytes().to_vec(),
        is_active: true,
        pusher: vec![0u8; 20],
    }
}

const TARGET: &str = "0123456789abcdef0123456789abcdef01234567";

#[test]
fn materialize_writes_one_file_per_active_ref() {
    let refs = vec![
        active_ref("refs/heads/main", TARGET),
        Ref { is_active: false, ..active_ref("refs/heads/old", "not even close") },
    ];
    let files = materialize_refs(&refs).unwrap();
    assert_eq!(files.len(), 1);
    assert_eq!(files[0].path, "refs/heads/main");
    assert_eq!(files[0].content, format!("{}\n", TARGET));
}

#[test]
fn materialize_rejects_short_target() {
    let refs = vec![active_ref("refs/heads/main", "abc123")];
    let err = materialize_refs(&refs).unwrap_err();
    assert!(matches!(err, Error::Malformed { .. }));
    assert_eq!(err.message(), format!("Malformed ref refs/heads/main: {}", "abc123"));
}

#[test]
fn materialize_rejects_non_hex_target() {
    let bad = "zzzz456789abcdef0123456789abcdef01234567";
    let refs = vec![active_ref("refs/heads/main", bad)];
    assert!(materialize_refs(&refs).is_err());
}

#[test]
fn materialize_rejects_unnamespaced_ref() {
    let refs = vec![active_ref("heads/main", TARGET)];
    let err = materialize_refs(&refs).unwrap_err();
    assert!(matches!(err, Error::Malformed { .. }));
}

#[test]
fn materialize_rejects_undecodable_target_bytes() {
    let refs = vec![Ref {
        name: "refs/heads/main".to_string(),
        data: vec![0xff, 0xfe],
        is_active: true,
        pusher: vec![0u8; 20],
    }];
    let err = materialize_refs(&refs).unwrap_err();
    assert_eq!(err.message(), "Failed to convert ref data to string");
}

#[test]
fn verification_finds_active_submitted_refs() {
    let names = vec!["refs/heads/main".to_string()];
    let ledger = vec![active_ref("refs/heads/main", TARGET)];
    assert!(verify_refs_stored(&names, &ledger).is_ok());
}

#[test]
fn verification_fails_on_missing_or_inactive_refs() {
    let names = vec!["refs/heads/main".to_string()];
    let err = verify_refs_stored(&names, &Vec::new()).unwrap_err();
    assert_eq!(
        err.message(),
        "Failed to verify ref was stored in blockchain: refs/heads/main"
    );
    let inactive = vec![Ref { is_active: false, ..active_ref("refs/heads/main", TARGET) }];
    assert!(verify_refs_stored(&names, &inactive).is_err());
}

#[test]
fn handle_address_is_hex_with_prefix() {
    let handle = LedgerHandle { address_bytes: vec![0xde, 0xad, 0x00, 0x01] };
    assert_eq!(handle.address(), "0xdead0001");
}

#[test]
fn create_repo_then_duplicate_fails_without_overwrite() {
    let mut registry = Registry::new();
    assert!(check_new_repository(&registry, "demo").is_ok());
    let first = LedgerHandle { address_bytes: vec![0x11; 20] };
    let response = register_repository(&mut registry, "demo".to_string(), first).unwrap();
    assert_eq!(response.repo, "demo");
    assert_eq!(response.address, format!("0x{}", "11".repeat(20)));

    let err = check_new_repository(&registry, "demo").unwrap_err();
    assert!(err.message().contains("already exists"));

    let second = LedgerHandle { address_bytes: vec![0x22; 20] };
    let err = register_repository(&mut registry, "demo".to_string(), second).unwrap_err();
    assert_eq!(err.message(), "Repository already exists");

    let kept = registry.lookup("demo").unwrap();
    assert_eq!(kept.address_bytes, vec![0x11; 20]);
    assert!(registry.lookup("other").is_none());
}

#[test]
fn eth_addresses_parse_with_and_without_prefix() {
    let hex = "00ff00ff00ff00ff00ff00ff00ff00ff00ff00fF";
    let bytes = parse_eth_address(&format!("0x{}", hex)).unwrap();
    assert_eq!(bytes.len(), 20);
    assert_eq!(bytes[0], 0x00);
    assert_eq!(bytes[1], 0xff);
    assert_eq!(bytes[19], 0xff);
    assert_eq!(parse_eth_address(hex).unwrap(), bytes);
}

#[test]
fn bad_eth_addresses_are_malformed() {
    let err = parse_eth_address("0x1234").unwrap_err();
    assert_eq!(err.message(), "Invalid address format");
    assert!(parse_eth_address("0xzz345678901234567890123456789012345678zz").is_err());
}

#[test]
fn role_responses_carry_the_wire_names() {
    let granted = role_response("demo".to_string(), "0xabc".to_string(), Role::Pusher, true);
    assert_eq!(granted.role, "pusher");
    assert!(granted.granted);
    let checked = role_check_response("demo".to_string(), "0xabc".to_string(), Role::Admin, false);
    assert_eq!(checked.role, "admin");
    assert!(!checked.has_role);
}

fn account(name: &str) -> Account {
    Account {
        name: name.to_string(),
        private_key: format!("key-{}", name),
        address: format!("0x{}", name),
    }
}

#[test]
fn first_account_becomes_active() {
    let mut config = Config::new();
    config.add_account(account("alice"));
    assert_eq!(config.active_account.as_deref(), Some("alice"));
    config.add_account(account("bob"));
    assert_eq!(config.active_account.as_deref(), Some("alice"));
    assert_eq!(config.accounts.len(), 2);
}

#[test]
fn adding_a_known_name_replaces_the_account() {
    let mut config = Config::new();
    config.add_account(account("alice"));
    let mut replacement = account("alice");
    replacement.address = "0xnew".to_string();
    config.add_account(replacement);
    assert_eq!(config.accounts.len(), 1);
    assert_eq!(config.accounts[0].address, "0xnew");
}

#[test]
fn removing_the_active_account_promotes_the_first_left() {
    let mut config = Config::new();
    config.add_account(account("alice"));
    config.add_account(account("bob"));
    config.remove_account("alice");
    assert_eq!(config.accounts.len(), 1);
    assert_eq!(config.active_account.as_deref(), Some("bob"));
    config.remove_account("bob");
    assert!(config.active_account.is_none());
}

#[test]
fn switching_to_a_missing_account_is_refused() {
    let mut config = Config::new();
    config.add_account(account("alice"));
    let err = config.set_active_account("carol").unwrap_err();
    assert_eq!(err.message(), "Account 'carol' not found");
    assert_eq!(config.active_account.as_deref(), Some("alice"));
    assert!(config.set_active_account("alice").is_ok());
}

#[test]
fn active_account_is_resolved_by_name() {
    let mut config = Config::new();
    assert!(config.get_active_account().is_none());
    config.add_account(account("alice"));
    config.add_account(account("bob"));
    config.set_active_account("bob").unwrap();
    let active = config.get_active_account().unwrap();
    assert_eq!(active.name, "bob");
    assert_eq!(active.address, "0xbob");
}

#[test]
fn listing_marks_the_active_account() {
    let mut config = Config::new();
    config.add_account(account("alice"));
    config.add_account(account("bob"));
    let listed = config.list_accounts();
    assert_eq!(listed.len(), 2);
    assert_eq!(listed[0].0, "alice");
    assert!(listed[0].2);
    assert_eq!(listed[1].0, "bob");
    assert!(!listed[1].2);
}

#[test]
fn error_messages_render_their_variant() {
    assert_eq!(Error::NotFound.message(), "Repository not found");
    assert_eq!(Error::EmptyRepository.message(), "Repository has no refs");
    assert_eq!(
        Error::NotOurRef { hash: "ff".to_string() }.message(),
        "upload-pack: not our ref ff"
    );
    assert_eq!(
        Error::UnknownService { service: "x".to_string() }.message(),
        "Unknown service: x"
    );
    assert_eq!(
        Error::SubprocessFailed { message: "boom".to_string() }.message(),
        "boom"
    );
}
