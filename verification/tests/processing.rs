use file_vault::batch::{Batch, EventStatus};
use file_vault::errors::VaultError;
use file_vault::files::{decrypt_file_data, encrypt_file_data};
use file_vault::names::{basename, decrypt_dest_name, encrypt_dest_name};
use file_vault::vault::create_vault;
use file_vault::wipe::{SecureWipe, WipeStep};

#[test]
fn encrypted_file_has_nonce_and_tag_overhead() {
    let created = create_vault(b"hunter2").unwrap();
    let out = encrypt_file_data(&created.dek, &b"hello".to_vec()).unwrap();
    assert_eq!(out.len(), 12 + 5 + 16);
}

#[test]
fn encrypt_then_decrypt_round_trips() {
    let created = create_vault(b"hunter2").unwrap();
    let plaintext = b"hello".to_vec();
    let out = encrypt_file_data(&created.dek, &plaintext).unwrap();
    let back = decrypt_file_data(&created.dek, &out).unwrap();
    assert_eq!(back, plaintext);
}

#[test]
fn empty_plaintext_round_trips() {
    let created = create_vault(b"pw").unwrap();
    let out = encrypt_file_data(&created.dek, &Vec::new()).unwrap();
    assert_eq!(out.len(), 28);
    let back = decrypt_file_data(&created.dek, &out).unwrap();
    assert!(back.is_empty());
}

#[test]
fn decrypt_after_passphrase_rotation_round_trips() {
    let created = create_vault(b"hunter2").unwrap();
    let plaintext = b"hello".to_vec();
    let out = encrypt_file_data(&created.dek, &plaintext).unwrap();
    let new_file =
        file_vault::vault::change_password(b"hunter2", b"s3cret", &created.key_file).unwrap();
    let dek = file_vault::vault::unlock_vault(b"s3cret", &new_file).unwrap();
    let back = decrypt_file_data(&dek, &out).unwrap();
    assert_eq!(back, plaintext);
}

#[test]
fn tampered_ciphertext_is_detected() {
    let created = create_vault(b"hunter2").unwrap();
    let mut out = encrypt_file_data(&created.dek, &b"hello".to_vec()).unwrap();
    out[20] ^= 1;
    let r = decrypt_file_data(&created.dek, &out);
    assert_eq!(r, Err(VaultError::CorruptOrTampered));
    assert!(VaultError::CorruptOrTampered
        .message()
        .contains("Decryption failed"));
}

#[test]
fn tampered_nonce_is_detected() {
    let created = create_vault(b"hunter2").unwrap();
    let mut out = encrypt_file_data(&created.dek, &b"hello".to_vec()).unwrap();
    out[3] ^= 0x80;
    let r = decrypt_file_data(&created.dek, &out);
    assert_eq!(r, Err(VaultError::CorruptOrTampered));
}

#[test]
fn decrypt_rejects_data_shorter_than_a_nonce() {
    let created = create_vault(b"hunter2").unwrap();
    let r = decrypt_file_data(&created.dek, &vec![0u8; 11]);
    assert_eq!(r, Err(VaultError::InvalidFormat));
}

#[test]
fn nonces_of_a_batch_are_pairwise_distinct() {
    let created = create_vault(b"hunter2").unwrap();
    let mut nonces: Vec<Vec<u8>> = Vec::new();
    for _ in 0..50 {
        let out = encrypt_file_data(&created.dek, &b"same content".to_vec()).unwrap();
        nonces.push(out[..12].to_vec());
    }
    for i in 0..nonces.len() {
        for j in (i + 1)..nonces.len() {
            assert_ne!(nonces[i], nonces[j]);
        }
    }
}

#[test]
fn basename_takes_what_follows_the_last_separator() {
    assert_eq!(basename(&b"/tmp/a.txt".to_vec()), b"a.txt".to_vec());
    assert_eq!(basename(&b"a.txt".to_vec()), b"a.txt".to_vec());
    assert_eq!(basename(&b"/tmp/dir/".to_vec()), b"".to_vec());
}

#[test]
fn encrypt_destination_appends_suffix() {
    let dest = encrypt_dest_name(&b"/tmp/out".to_vec(), &b"/tmp/a.txt".to_vec());
    assert_eq!(dest, b"/tmp/out/a.txt.enc".to_vec());
}

#[test]
fn decrypt_destination_strips_suffix() {
    let dest = decrypt_dest_name(&b"/tmp/dec".to_vec(), &b"/tmp/out/a.txt.enc".to_vec()).unwrap();
    assert_eq!(dest, b"/tmp/dec/a.txt".to_vec());
}

#[test]
fn decrypt_destination_requires_suffix() {
    let r = decrypt_dest_name(&b"/tmp/dec".to_vec(), &b"/tmp/out/a.txt".to_vec());
    assert_eq!(r, Err(VaultError::InvalidFormat));
}

#[test]
fn decrypt_destination_of_bare_suffix_is_empty_stem() {
    let dest = decrypt_dest_name(&b"/tmp/dec".to_vec(), &b"/tmp/out/.enc".to_vec()).unwrap();
    assert_eq!(dest, b"/tmp/dec/".to_vec());
}

#[test]
fn host_flow_snapshot_encrypt_decrypt() {
    let created = create_vault(b"hunter2").unwrap();
    let mut vault = file_vault::state::Vault::new();
    vault.set(created.dek);
    let dek = vault.snapshot().unwrap();
    let out = encrypt_file_data(&dek, &b"hello".to_vec()).unwrap();
    let back = decrypt_file_data(&dek, &out).unwrap();
    assert_eq!(back, b"hello".to_vec());
}

#[test]
fn batch_reports_increasing_file_numbers_then_done() {
    let mut batch = Batch::new(2);
    assert_eq!(batch.next_file(false), Some(0));
    let ev = batch.file_succeeded(&b"/tmp/a.txt".to_vec());
    assert_eq!(ev.status, EventStatus::Processing);
    assert_eq!(ev.current_file_path, b"/tmp/a.txt".to_vec());
    assert_eq!(ev.total_files, 2);
    assert_eq!(ev.current_file_number, 1);
    assert_eq!(batch.next_file(false), Some(1));
    let ev = batch.file_succeeded(&b"/tmp/b.txt".to_vec());
    assert_eq!(ev.current_file_number, 2);
    assert_eq!(batch.next_file(false), None);
    let done = batch.finish(false).unwrap();
    assert_eq!(done.status, EventStatus::Done);
    assert_eq!(done.current_file_path, b"Done".to_vec());
    assert_eq!(done.current_file_number, 2);
    assert_eq!(done.total_files, 2);
}

#[test]
fn cancelled_batch_starts_no_file_and_emits_no_done() {
    let mut batch = Batch::new(3);
    assert_eq!(batch.next_file(false), Some(0));
    batch.file_succeeded(&b"/tmp/a.txt".to_vec());
    assert_eq!(batch.next_file(true), None);
    assert!(batch.finish(true).is_none());
}

#[test]
fn failed_batch_stops_and_emits_no_done() {
    let mut batch = Batch::new(2);
    assert_eq!(batch.next_file(false), Some(0));
    batch.file_failed();
    assert_eq!(batch.next_file(false), None);
    assert!(batch.finish(false).is_none());
}

#[test]
fn empty_batch_emits_done_at_once() {
    let batch = Batch::new(0);
    assert_eq!(batch.next_file(false), None);
    let done = batch.finish(false).unwrap();
    assert_eq!(done.current_file_number, 0);
}

#[test]
fn four_mib_file_takes_four_full_chunks() {
    let mut wipe = SecureWipe::new(4 * 1024 * 1024);
    let mut writes: Vec<u64> = Vec::new();
    loop {
        match wipe.next_step(false).unwrap() {
            WipeStep::Write(n) => {
                writes.push(n);
                wipe.advance(n);
            }
            WipeStep::Remove => break,
        }
    }
    assert_eq!(writes, vec![1048576, 1048576, 1048576, 1048576]);
}

#[test]
fn wipe_tail_chunk_is_the_remainder() {
    let mut wipe = SecureWipe::new(1024 * 1024 + 5);
    assert_eq!(wipe.next_step(false), Ok(WipeStep::Write(1048576)));
    wipe.advance(1048576);
    assert_eq!(wipe.next_step(false), Ok(WipeStep::Write(5)));
    wipe.advance(5);
    assert_eq!(wipe.next_step(false), Ok(WipeStep::Remove));
}

#[test]
fn cancelled_wipe_stops_and_keeps_the_file() {
    let mut wipe = SecureWipe::new(3 * 1024 * 1024);
    match wipe.next_step(false).unwrap() {
        WipeStep::Write(n) => wipe.advance(n),
        WipeStep::Remove => panic!("removed before overwrite"),
    }
    assert_eq!(wipe.next_step(true), Err(VaultError::Cancelled));
}

#[test]
fn only_regular_files_are_wiped() {
    assert!(SecureWipe::begin(false, 4096).is_none());
    let wipe = SecureWipe::begin(true, 5).unwrap();
    assert_eq!(wipe.next_step(false), Ok(WipeStep::Write(5)));
}

#[test]
fn empty_file_wipe_goes_straight_to_remove() {
    let wipe = SecureWipe::new(0);
    assert_eq!(wipe.next_step(false), Ok(WipeStep::Remove));
    assert_eq!(wipe.next_step(true), Ok(WipeStep::Remove));
}

#[test]
fn random_bytes_has_requested_length() {
    let b = file_vault::crypto::random_bytes(1000);
    assert_eq!(b.len(), 1000);
    let b2 = file_vault::crypto::random_bytes(1000);
    assert_ne!(b, b2);
}
