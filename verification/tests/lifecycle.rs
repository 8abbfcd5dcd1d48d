use file_vault::errors::VaultError;
use file_vault::keyfile::{decode_key_file, encode_key_file};
use file_vault::state::{OperationState, Vault};
use file_vault::vault::{change_password, create_vault, unlock_vault};

#[test]
fn key_file_is_76_bytes() {
    let created = create_vault(b"hunter2").unwrap();
    assert_eq!(created.key_file.len(), 76);
    assert_eq!(created.dek.len(), 32);
}

#[test]
fn create_then_unlock_returns_same_key() {
    let created = create_vault(b"hunter2").unwrap();
    let dek = unlock_vault(b"hunter2", &created.key_file).unwrap();
    assert_eq!(dek, created.dek);
}

#[test]
fn wrong_password_is_rejected_then_right_one_succeeds() {
    let created = create_vault(b"hunter2").unwrap();
    let r = unlock_vault(b"wrong", &created.key_file);
    assert_eq!(r, Err(VaultError::WrongPassword));
    let dek = unlock_vault(b"hunter2", &created.key_file).unwrap();
    assert_eq!(dek, created.dek);
}

#[test]
fn short_key_file_is_invalid() {
    let r = unlock_vault(b"hunter2", &vec![0u8; 27]);
    assert_eq!(r, Err(VaultError::InvalidFormat));
    let r = unlock_vault(b"hunter2", &Vec::new());
    assert_eq!(r, Err(VaultError::InvalidFormat));
}

#[test]
fn change_password_keeps_master_key() {
    let created = create_vault(b"hunter2").unwrap();
    let new_file = change_password(b"hunter2", b"s3cret", &created.key_file).unwrap();
    assert_eq!(new_file.len(), 76);
    let dek = unlock_vault(b"s3cret", &new_file).unwrap();
    assert_eq!(dek, created.dek);
}

#[test]
fn change_password_locks_out_old_passphrase() {
    let created = create_vault(b"hunter2").unwrap();
    let new_file = change_password(b"hunter2", b"s3cret", &created.key_file).unwrap();
    let r = unlock_vault(b"hunter2", &new_file);
    assert_eq!(r, Err(VaultError::WrongPassword));
}

#[test]
fn change_password_rejects_wrong_old_passphrase() {
    let created = create_vault(b"hunter2").unwrap();
    let r = change_password(b"wrong", b"s3cret", &created.key_file);
    assert_eq!(r, Err(VaultError::WrongPassword));
}

#[test]
fn key_file_codec_round_trips() {
    let salt = vec![1u8; 16];
    let nonce = vec![2u8; 12];
    let wrapped = vec![3u8; 48];
    let encoded = encode_key_file(&salt, &nonce, &wrapped);
    assert_eq!(encoded.len(), 76);
    let parts = decode_key_file(&encoded).unwrap();
    assert_eq!(parts.salt, salt);
    assert_eq!(parts.nonce, nonce);
    assert_eq!(parts.wrapped, wrapped);
}

#[test]
fn key_file_codec_rejects_short_input() {
    let r = decode_key_file(&vec![0u8; 27]);
    assert!(r.is_err());
    assert!(decode_key_file(&vec![0u8; 28]).is_ok());
}

#[test]
fn vault_state_starts_locked() {
    let vault = Vault::new();
    assert!(vault.snapshot().is_none());
}

#[test]
fn vault_state_snapshot_returns_installed_key() {
    let mut vault = Vault::new();
    let dek = vec![7u8; 32];
    vault.set(dek.clone());
    assert_eq!(vault.snapshot(), Some(dek));
}

#[test]
fn vault_unlock_installs_key_and_failure_leaves_it_locked() {
    let created = create_vault(b"hunter2").unwrap();
    let mut vault = Vault::new();
    let r = vault.unlock(b"wrong", &created.key_file);
    assert_eq!(r, Err(VaultError::WrongPassword));
    assert!(vault.snapshot().is_none());
    vault.unlock(b"hunter2", &created.key_file).unwrap();
    assert_eq!(vault.snapshot(), Some(created.dek));
}

#[test]
fn operation_state_flag_follows_requests() {
    let mut op = OperationState::new();
    assert!(!op.is_cancelled());
    op.request_cancel();
    assert!(op.is_cancelled());
    op.reset();
    assert!(!op.is_cancelled());
}

#[test]
fn error_messages_match_interface_strings() {
    assert_eq!(
        VaultError::WrongPassword.message(),
        "Unlock failed. Check password."
    );
    assert_eq!(
        VaultError::CorruptOrTampered.message(),
        "Decryption failed. File may be corrupt."
    );
    assert_eq!(VaultError::Cancelled.message(), "Operation cancelled.");
    assert_eq!(VaultError::Locked.message(), "Vault is locked");
}
