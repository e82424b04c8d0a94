use cache_diagnostics::admission::AsyncResultAdmissionDecision;
use cache_diagnostics::exec_completion::{
    completion_token_budget, exec_completion_envelope, join_command, ExecCompletion,
};
use cache_diagnostics::key::{
    key_action, key_file_name, key_from_file_bytes, permissions_need_repair, publish_action,
    random_bytes, random_id, temporary_key_file_name, KeyAction, KeyError, KeyRead, PublishAction,
    PublishResult, KEY_BYTES,
};
use cache_diagnostics::types::OpenError;
use cache_diagnostics::writer::{record_line, run_file_name, RecordSequence, MAX_RECORD_BYTES};

#[test]
fn completion_preserves_small_result() {
    let envelope = exec_completion_envelope("call-1", 42, &["echo".into(), "done".into()], 0, "done");
    let completion = ExecCompletion::with_body(envelope);
    assert_eq!(
        completion.body(),
        "<exec-command-completed call-id=\"call-1\" process-id=\"42\" exit-code=\"0\">\n<command>echo done</command>\n<output>\ndone\n</output>\n</exec-command-completed>"
    );
    assert_eq!(completion.role(), "user");
    assert_eq!(completion.content_kind(), "exec.completion");
    assert_eq!(completion.markers(), ("", ""));
    assert_eq!(ExecCompletion::type_markers(), ("", ""));
}

#[test]
fn completion_envelope_renders_negative_codes_and_joined_commands() {
    let envelope = exec_completion_envelope("c", -7, &["a".into(), "".into(), "b c".into()], -2147483648, "");
    assert_eq!(
        envelope,
        "<exec-command-completed call-id=\"c\" process-id=\"-7\" exit-code=\"-2147483648\">\n<command>a  b c</command>\n<output>\n\n</output>\n</exec-command-completed>"
    );
    assert_eq!(join_command(&[]), "");
    assert_eq!(completion_token_budget(), 968);
}

#[test]
fn key_files_hold_exactly_the_key() {
    assert_eq!(KEY_BYTES, 32);
    assert_eq!(key_from_file_bytes(vec![9; 32]), Ok(vec![9; 32]));
    assert_eq!(key_from_file_bytes(b"malformed".to_vec()), Err(KeyError::InvalidLength));
    assert!(matches!(key_action(KeyRead::Contents(vec![1; 32])), KeyAction::UseExisting(key) if key == vec![1; 32]));
    assert!(matches!(key_action(KeyRead::Contents(vec![1; 33])), KeyAction::Fail));
    assert!(matches!(key_action(KeyRead::NotFound), KeyAction::CreateNew));
    assert!(matches!(key_action(KeyRead::Failed), KeyAction::Fail));
    assert_eq!(publish_action(PublishResult::Published), PublishAction::UseNewKey);
    assert_eq!(publish_action(PublishResult::AlreadyExists), PublishAction::ReadWinningKey);
    assert_eq!(publish_action(PublishResult::Failed), PublishAction::Fail);
    assert!(!permissions_need_repair(0o100600));
    assert!(permissions_need_repair(0o100644));
    assert_eq!(key_file_name(), ".fingerprint-key");
    assert_eq!(temporary_key_file_name("abc"), "..fingerprint-key.abc.tmp");
}

#[test]
fn random_identifiers_are_sixteen_bytes_of_url_safe_base64() {
    let id = random_id().expect("random source should work");
    assert_eq!(id.len(), 22);
    assert!(id.bytes().all(|byte| byte.is_ascii_alphanumeric() || byte == b'-' || byte == b'_'));
    assert_ne!(id, random_id().unwrap());
    assert_eq!(random_bytes(5).unwrap().len(), 5);
}

#[test]
fn record_lines_are_bounded_and_numbered() {
    assert_eq!(record_line(b"{}".to_vec()), Ok(b"{}\n".to_vec()));
    assert_eq!(record_line(vec![b'x'; MAX_RECORD_BYTES - 1]).map(|line| line.len()), Ok(MAX_RECORD_BYTES));
    assert_eq!(record_line(vec![b'x'; MAX_RECORD_BYTES]), Err(OpenError));
    let mut sequence = RecordSequence::new();
    assert_eq!(sequence.reserve(), Ok(1));
    assert_eq!(sequence.reserve(), Ok(1));
    sequence.commit();
    assert_eq!(sequence.reserve(), Ok(2));
    sequence.commit();
    sequence.commit();
    assert_eq!(sequence.reserve(), Ok(4));
    assert_eq!(run_file_name("abc"), "run-abc.jsonl");
    assert_eq!(OpenError::unavailable().message(), "cache diagnostic collection is unavailable");
}

#[test]
fn admission_can_allow_everything() {
    let decision: AsyncResultAdmissionDecision<()> = AsyncResultAdmissionDecision::allow_all();
    assert!(decision.denied_ids.is_empty());
    assert!(decision.permit.is_none());
}
