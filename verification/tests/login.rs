use near_cli_rs::context::CliError;
use near_cli_rs::import_account::{
    AccessKeyCheck, ImportAccountActions, LoginAction, LoginFlow, LoginStage, account_id_from_input,
    is_retry_answer, save_failure_message, use_legacy_keychain,
};

fn ed25519_text(byte: u8) -> String {
    near_crypto::PublicKey::ED25519(near_crypto::ED25519PublicKey([byte; 32])).to_string()
}

fn started(byte: u8) -> LoginFlow {
    let (flow, action) = LoginFlow::start(&ed25519_text(byte), "Account not found").unwrap();
    assert!(matches!(action, LoginAction::ReadAccountId));
    assert!(matches!(flow.stage, LoginStage::AwaitingAccountId));
    flow
}

#[test]
fn retry_answers() {
    for yes in ["y", "Y", "yes", " YES\n", "\tYeS  "] {
        assert!(is_retry_answer(yes), "{yes:?}");
    }
    for no in ["", "n", "no", "yess", "ye", "y es", "N\n"] {
        assert!(!is_retry_answer(no), "{no:?}");
    }
}

#[test]
fn legacy_keychain_setting() {
    for on in ["1", "true", "TRUE", "Yes", "yes"] {
        assert!(use_legacy_keychain(on), "{on:?}");
    }
    for off in ["", "0", "false", "no", " yes", "y"] {
        assert!(!use_legacy_keychain(off), "{off:?}");
    }
}

#[test]
fn account_id_input_is_trimmed() {
    assert_eq!(account_id_from_input("  alice.near \n").unwrap().as_str(), "alice.near");
    assert!(matches!(account_id_from_input("Alice"), Err(CliError::InvalidAccountId(_))));
    assert!(matches!(account_id_from_input("\n"), Err(CliError::InvalidAccountId(_))));
}

#[test]
fn save_failure_note() {
    assert_eq!(save_failure_message("ed25519:abc"), "Failed to save a file with access key: ed25519:abc");
}

#[test]
fn import_menu() {
    let all = ImportAccountActions::iter();
    let messages: Vec<&str> = all.iter().map(|a| a.get_message().unwrap()).collect();
    assert_eq!(
        messages,
        vec![
            "using-web-wallet          - Import existing account using NEAR Wallet (a.k.a. \"sign in\")",
            "using-seed-phrase         - Import existing account using a seed phrase",
            "using-private-key         - Import existing account using a private key",
        ]
    );
}

#[test]
fn login_with_bad_key_fails() {
    assert!(matches!(LoginFlow::start("not a key", "x"), Err(CliError::InvalidPublicKey(_))));
}

#[test]
fn login_with_bad_account_id_fails() {
    let mut flow = started(7);
    let action = flow.on_account_id_line("Not Valid\n");
    assert!(matches!(action, LoginAction::Fail(CliError::InvalidAccountId(_))));
    assert!(matches!(flow.stage, LoginStage::Finished));
}

#[test]
fn implicit_account_of_the_key_is_taken_at_once() {
    let mut flow = started(7);
    let implicit = "07".repeat(32);
    match flow.on_account_id_line(&format!("{implicit}\n")) {
        LoginAction::SaveAccessKey { account_id } => assert_eq!(account_id.as_str(), implicit),
        other => panic!("unexpected action {other:?}"),
    }
    assert!(matches!(flow.stage, LoginStage::Finished));
}

#[test]
fn implicit_account_of_another_key_is_checked() {
    let mut flow = started(8);
    let implicit = "07".repeat(32);
    match flow.on_account_id_line(&implicit) {
        LoginAction::VerifyAccessKey { account_id, public_key } => {
            assert_eq!(account_id.as_str(), implicit);
            assert_eq!(public_key.to_text(), ed25519_text(8));
        }
        other => panic!("unexpected action {other:?}"),
    }
    assert!(matches!(flow.stage, LoginStage::AwaitingAccessKeyCheck(_)));
}

#[test]
fn named_account_found_on_network() {
    let mut flow = started(1);
    assert!(matches!(flow.on_account_id_line("alice.near"), LoginAction::VerifyAccessKey { .. }));
    match flow.on_access_key_check(AccessKeyCheck::Found) {
        LoginAction::SaveAccessKey { account_id } => assert_eq!(account_id.as_str(), "alice.near"),
        other => panic!("unexpected action {other:?}"),
    }
    assert!(matches!(flow.stage, LoginStage::Finished));
}

#[test]
fn cancelled_check_fails_the_login() {
    let mut flow = started(1);
    flow.on_account_id_line("alice.near");
    let action = flow.on_access_key_check(AccessKeyCheck::Cancelled);
    assert!(matches!(action, LoginAction::Fail(CliError::AccessKeyCheckCancelled)));
    assert!(matches!(flow.stage, LoginStage::Finished));
}

#[test]
fn failed_check_asks_and_retries() {
    let mut flow = started(1);
    flow.on_account_id_line("alice.near");
    match flow.on_access_key_check(AccessKeyCheck::Failed) {
        LoginAction::WarnAndAskRetry { message } => assert_eq!(message, "Account not found"),
        other => panic!("unexpected action {other:?}"),
    }
    assert!(matches!(flow.on_retry_answer("Yes\n"), LoginAction::ReadAccountId));
    assert!(matches!(flow.stage, LoginStage::AwaitingAccountId));
    flow.on_account_id_line("bob.near");
    flow.on_access_key_check(AccessKeyCheck::Failed);
    match flow.on_retry_answer("n\n") {
        LoginAction::SaveAccessKey { account_id } => assert_eq!(account_id.as_str(), "bob.near"),
        other => panic!("unexpected action {other:?}"),
    }
    assert!(matches!(flow.stage, LoginStage::Finished));
}
