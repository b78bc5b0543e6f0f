use gitffi::clone::{answer_challenge, answer_with, engine_outcome, gitffi_clone, transfer_failure, CloneError};
use gitffi::describe::{descriptor, lavender_provide, render_document, OperationDescription};
use gitffi::resolve::{resolve_offer, CredentialOffer, CredentialSource};
use gitffi::slots::{
    gitffi_clear_credentials, gitffi_last_error, gitffi_last_error_len, gitffi_set_credentials,
    set_err, CredentialSlot, ErrorSlot,
};
use gitffi::text::{decode_text, TextError};

const REMOTE: &str = "https://example.invalid/owner/repo.git";

fn stored(slot: &CredentialSlot) -> Option<(String, String)> {
    slot.pair().map(|(u, p)| (u.clone(), p.clone()))
}

#[test]
fn decode_text_rejects_null() {
    assert_eq!(decode_text(None), Err(TextError::Null));
}

#[test]
fn decode_text_rejects_invalid_utf8() {
    assert_eq!(decode_text(Some(&[0x66, 0xff, 0x6f])), Err(TextError::InvalidEncoding));
    assert_eq!(decode_text(Some(&[0xc3])), Err(TextError::InvalidEncoding));
    assert_eq!(decode_text(Some(&[0xed, 0xa0, 0x80])), Err(TextError::InvalidEncoding));
}

#[test]
fn decode_text_keeps_valid_text() {
    assert_eq!(decode_text(Some("héllo/wörld".as_bytes())), Ok("héllo/wörld".to_string()));
    assert_eq!(decode_text(Some(&[])), Ok(String::new()));
}

#[test]
fn error_slot_starts_empty() {
    let slot = ErrorSlot::new();
    assert_eq!(gitffi_last_error_len(&slot), 0);
    assert_eq!(slot.message(), None);
}

#[test]
fn set_err_replaces_message() {
    let mut slot = ErrorSlot::new();
    set_err(&mut slot, "first failure".to_string());
    set_err(&mut slot, "second".to_string());
    assert_eq!(slot.message(), Some("second".to_string()));
    assert_eq!(gitffi_last_error_len(&slot), 6);
}

#[test]
fn last_error_len_counts_bytes() {
    let mut slot = ErrorSlot::new();
    set_err(&mut slot, "é".to_string());
    assert_eq!(gitffi_last_error_len(&slot), 2);
}

#[test]
fn last_error_copies_whole_message() {
    let mut slot = ErrorSlot::new();
    set_err(&mut slot, "abc".to_string());
    let mut buf = [0xaau8; 6];
    assert_eq!(gitffi_last_error(&slot, &mut buf), 3);
    assert_eq!(buf, [b'a', b'b', b'c', 0, 0xaa, 0xaa]);
}

#[test]
fn last_error_truncates_and_reports_true_length() {
    let mut slot = ErrorSlot::new();
    set_err(&mut slot, "null pointer".to_string());
    let mut buf = [0xaau8; 5];
    let n = gitffi_last_error(&slot, &mut buf);
    assert_eq!(n, 12);
    assert_ne!(n, buf.len());
    assert_eq!(buf, [b'n', b'u', b'l', b'l', 0]);
}

#[test]
fn last_error_exact_fit_still_truncates_by_one() {
    let mut slot = ErrorSlot::new();
    set_err(&mut slot, "abcd".to_string());
    let mut buf = [0xaau8; 4];
    assert_eq!(gitffi_last_error(&slot, &mut buf), 4);
    assert_eq!(buf, [b'a', b'b', b'c', 0]);
}

#[test]
fn last_error_zero_capacity_writes_nothing() {
    let mut slot = ErrorSlot::new();
    set_err(&mut slot, "abc".to_string());
    let mut buf: [u8; 0] = [];
    assert_eq!(gitffi_last_error(&slot, &mut buf), 3);
}

#[test]
fn last_error_on_empty_slot_terminates_buffer() {
    let slot = ErrorSlot::new();
    let mut buf = [0xaau8; 3];
    assert_eq!(gitffi_last_error(&slot, &mut buf), 0);
    assert_eq!(buf, [0, 0xaa, 0xaa]);
}

#[test]
fn set_credentials_stores_pair() {
    let mut slot = CredentialSlot::new();
    assert_eq!(gitffi_set_credentials(&mut slot, Some(b"alice"), Some(b"s3cret")), 0);
    assert!(slot.is_set());
    assert_eq!(stored(&slot), Some(("alice".to_string(), "s3cret".to_string())));
    assert_eq!(gitffi_set_credentials(&mut slot, Some(b"bob"), Some(b"pw")), 0);
    assert_eq!(stored(&slot), Some(("bob".to_string(), "pw".to_string())));
}

#[test]
fn set_credentials_null_handles() {
    let mut slot = CredentialSlot::new();
    assert_eq!(gitffi_set_credentials(&mut slot, None, Some(b"pw")), -1);
    assert_eq!(gitffi_set_credentials(&mut slot, Some(b"alice"), None), -1);
    assert_eq!(gitffi_set_credentials(&mut slot, None, None), -1);
    assert!(!slot.is_set());
}

#[test]
fn set_credentials_bad_encoding_keeps_old_pair() {
    let mut slot = CredentialSlot::new();
    assert_eq!(gitffi_set_credentials(&mut slot, Some(b"alice"), Some(b"pw")), 0);
    assert_eq!(gitffi_set_credentials(&mut slot, Some(&[0xff]), Some(b"pw")), -2);
    assert_eq!(gitffi_set_credentials(&mut slot, Some(b"eve"), Some(&[0xc0, 0x80])), -3);
    assert_eq!(gitffi_set_credentials(&mut slot, Some(&[0xff]), Some(&[0xff])), -2);
    assert_eq!(stored(&slot), Some(("alice".to_string(), "pw".to_string())));
}

#[test]
fn clear_credentials_is_idempotent() {
    let mut slot = CredentialSlot::new();
    gitffi_clear_credentials(&mut slot);
    assert!(!slot.is_set());
    gitffi_clear_credentials(&mut slot);
    assert!(!slot.is_set());
    assert_eq!(gitffi_set_credentials(&mut slot, Some(b"alice"), Some(b"pw")), 0);
    gitffi_clear_credentials(&mut slot);
    assert_eq!(stored(&slot), None);
}

#[test]
fn stored_credentials_are_offered_first() {
    let mut slot = CredentialSlot::new();
    assert_eq!(gitffi_set_credentials(&mut slot, Some(b"alice"), Some(b"pw")), 0);
    let current = slot.current();
    match resolve_offer(&current, Some("git")) {
        CredentialOffer::UserPass(u, p) => {
            assert_eq!(u, "alice");
            assert_eq!(p, "pw");
        }
        _ => panic!("expected the stored pair"),
    }
    match resolve_offer(&current, None) {
        CredentialOffer::UserPass(u, p) => assert_eq!((u.as_str(), p.as_str()), ("alice", "pw")),
        _ => panic!("expected the stored pair"),
    }
}

#[test]
fn suggested_identity_goes_to_agent() {
    let slot = CredentialSlot::new();
    match resolve_offer(&slot, Some("git")) {
        CredentialOffer::Agent(u) => assert_eq!(u, "git"),
        _ => panic!("expected the agent"),
    }
}

#[test]
fn nothing_to_offer_without_credentials() {
    let slot = CredentialSlot::new();
    assert!(matches!(resolve_offer(&slot, None), CredentialOffer::Unavailable));
}

#[test]
fn clone_with_null_locator_fails_with_minus_one() {
    let creds = CredentialSlot::new();
    let mut errors = ErrorSlot::new();
    let outcome = gitffi_clone(&creds, None, Some(b"dest"));
    assert!(matches!(outcome, Err(CloneError::NullArgument)));
    assert_eq!(errors.settle(outcome), -1);
    assert_eq!(errors.message(), Some("null pointer".to_string()));
}

#[test]
fn clone_with_null_destination_fails_with_minus_one() {
    let creds = CredentialSlot::new();
    let mut errors = ErrorSlot::new();
    assert_eq!(errors.settle(gitffi_clone(&creds, Some(REMOTE.as_bytes()), None)), -1);
    assert!(gitffi_last_error_len(&errors) > 0);
}

#[test]
fn clone_with_bad_locator_encoding_fails_with_minus_two() {
    let creds = CredentialSlot::new();
    let mut errors = ErrorSlot::new();
    assert_eq!(errors.settle(gitffi_clone(&creds, Some(&[0xff, 0xfe]), Some(b"dest"))), -2);
    assert_eq!(errors.message(), Some("bad url utf8".to_string()));
}

#[test]
fn clone_with_bad_destination_encoding_fails_with_minus_three() {
    let creds = CredentialSlot::new();
    let mut errors = ErrorSlot::new();
    assert_eq!(errors.settle(gitffi_clone(&creds, Some(REMOTE.as_bytes()), Some(&[0x80]))), -3);
    assert_eq!(errors.message(), Some("bad path utf8".to_string()));
}

#[test]
fn clone_into_non_empty_directory_fails_with_minus_four() {
    let creds = CredentialSlot::new();
    let mut errors = ErrorSlot::new();
    let outcome = gitffi_clone(&creds, Some(REMOTE.as_bytes()), Some(b"src"));
    match &outcome {
        Err(CloneError::Transfer(m)) => {
            assert!(m.contains("exists and is not an empty directory"), "{}", m)
        }
        _ => panic!("expected an engine failure"),
    }
    assert_eq!(errors.settle(outcome), -4);
    assert!(gitffi_last_error_len(&errors) > 0);
}

#[test]
fn clone_with_credentials_into_non_empty_directory_fails_with_minus_four() {
    let mut creds = CredentialSlot::new();
    assert_eq!(gitffi_set_credentials(&mut creds, Some(b"alice"), Some(b"pw")), 0);
    let mut errors = ErrorSlot::new();
    set_err(&mut errors, "older failure".to_string());
    assert_eq!(errors.settle(gitffi_clone(&creds, Some(REMOTE.as_bytes()), Some(b"tests"))), -4);
    let m = errors.message().unwrap();
    assert!(m.contains("exists and is not an empty directory"), "{}", m);
}

#[test]
fn settle_success_keeps_previous_error() {
    let mut errors = ErrorSlot::new();
    set_err(&mut errors, "earlier".to_string());
    assert_eq!(errors.settle(Ok(())), 0);
    assert_eq!(errors.message(), Some("earlier".to_string()));
    let mut empty = ErrorSlot::new();
    assert_eq!(empty.settle(Ok(())), 0);
    assert_eq!(empty.message(), None);
}

#[test]
fn transfer_failure_keeps_engine_text() {
    match transfer_failure(String::new()) {
        CloneError::Transfer(m) => assert_eq!(m, ""),
        _ => panic!("expected a transfer failure"),
    }
    match transfer_failure("remote hung up".to_string()) {
        CloneError::Transfer(m) => assert_eq!(m, "remote hung up"),
        _ => panic!("expected a transfer failure"),
    }
}

#[test]
fn clone_error_codes_and_messages() {
    assert_eq!(CloneError::NullArgument.code(), -1);
    assert_eq!(CloneError::BadLocator.code(), -2);
    assert_eq!(CloneError::BadDestination.code(), -3);
    assert_eq!(CloneError::Transfer("x".to_string()).code(), -4);
    assert_eq!(CloneError::Transfer("x".to_string()).message(), "x");
    assert_eq!(CloneError::BadDestination.message(), "bad path utf8");
}

#[test]
fn description_lists_clone_operation() {
    assert_eq!(
        lavender_provide(),
        r#"[{"name":"clone","symbol":"gitffi_clone","params":["url","path"]}]"#
    );
    let ops = descriptor();
    assert_eq!(ops.len(), 1);
    assert_eq!(ops[0].name, "clone");
    assert_eq!(ops[0].symbol, "gitffi_clone");
    assert_eq!(ops[0].params, vec!["url".to_string(), "path".to_string()]);
}

#[test]
fn description_is_the_same_every_time() {
    assert_eq!(lavender_provide(), lavender_provide());
}

#[test]
fn render_document_escapes_strings() {
    let ops = vec![
        OperationDescription {
            name: "a\"b\\c".to_string(),
            symbol: "s\n\u{1f}é".to_string(),
            params: vec![],
        },
        OperationDescription {
            name: "x".to_string(),
            symbol: "y".to_string(),
            params: vec!["p".to_string()],
        },
    ];
    assert_eq!(
        render_document(&ops),
        "[{\"name\":\"a\\\"b\\\\c\",\"symbol\":\"s\\u000a\\u001fé\",\"params\":[]},{\"name\":\"x\",\"symbol\":\"y\",\"params\":[\"p\"]}]"
    );
    assert_eq!(render_document(&vec![]), "[]");
}

#[test]
fn answer_offers_stored_pair() {
    let mut slot = CredentialSlot::new();
    assert_eq!(gitffi_set_credentials(&mut slot, Some(b"alice"), Some(b"pw")), 0);
    assert!(answer_with(&slot, Some("git")).is_ok());
    assert!(answer_with(&slot, None).is_ok());
    assert!(answer_challenge(&slot, None).is_ok());
}

#[test]
fn answer_uses_agent_for_suggested_identity() {
    let slot = CredentialSlot::new();
    assert!(answer_with(&slot, Some("git")).is_ok());
    assert!(answer_with(&slot, Some("g\0it")).is_err());
}

#[test]
fn answer_without_anything_fails() {
    let slot = CredentialSlot::new();
    match answer_with(&slot, None) {
        Err(e) => assert_eq!(e.message(), "no credentials available"),
        Ok(_) => panic!("expected no credentials"),
    }
}

#[test]
fn answer_rejects_nul_in_stored_pair() {
    let mut slot = CredentialSlot::new();
    assert_eq!(gitffi_set_credentials(&mut slot, Some(b"al\0ice"), Some(b"pw")), 0);
    assert!(answer_with(&slot, None).is_err());
}

#[test]
fn engine_outcome_maps_success_and_failure() {
    assert!(matches!(engine_outcome(Ok(())), Ok(())));
    match engine_outcome(Err("remote hung up".to_string())) {
        Err(CloneError::Transfer(m)) => assert_eq!(m, "remote hung up"),
        _ => panic!("expected a transfer failure"),
    }
    match engine_outcome(Err(String::new())) {
        Err(CloneError::Transfer(m)) => assert_eq!(m, ""),
        _ => panic!("expected a transfer failure"),
    }
}
