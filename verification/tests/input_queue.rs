use cache_diagnostics::input_queue::{
    ActiveTurn, CyberAccessProgram, InputQueue, InputQueueActivity, InterAgentCommunication,
    MailboxDeliveryPhase, TurnInput, TurnStartOptions, TurnState, MAX_ASYNC_RESULTS_PER_TURN,
};

type Queue = InputQueue<String, String, u32>;
type Input = TurnInput<String, String>;

fn make_mail(author: &str, recipient: &str, content: &str, trigger_turn: bool) -> InterAgentCommunication {
    InterAgentCommunication {
        author: author.to_string(),
        recipient: recipient.to_string(),
        other_recipients: Vec::new(),
        content: content.to_string(),
        trigger_turn,
    }
}

fn options(parent: Option<&str>, root: Option<&str>) -> TurnStartOptions {
    TurnStartOptions {
        parent_turn_id: parent.map(str::to_string),
        root_turn_id: root.map(str::to_string),
        cyber_access_program: None,
    }
}

fn user_input(text: &str) -> Input {
    TurnInput::UserInput { content: vec![text.to_string()], client_id: None, acceptance_order: None }
}

fn mail_content(input: &Input) -> (&str, bool) {
    match input {
        TurnInput::InterAgentCommunication(mail) => (mail.content.as_str(), mail.trigger_turn),
        _ => panic!("expected mail"),
    }
}

fn user_text(input: &Input) -> &str {
    match input {
        TurnInput::UserInput { content, .. } => content[0].as_str(),
        _ => panic!("expected user input"),
    }
}

#[test]
fn input_queue_notifies_mailbox_subscribers() {
    let mut input_queue = Queue::new();
    assert_eq!(input_queue.subscribe_activity(None), None);
    let one = input_queue.enqueue_mailbox_communication(
        make_mail("/root", "/root/worker", "one", false),
        TurnStartOptions::empty(),
    );
    let two = input_queue.enqueue_mailbox_communication(
        make_mail("/root", "/root/worker", "two", false),
        TurnStartOptions::empty(),
    );
    assert_eq!(one, InputQueueActivity::Mailbox);
    assert_eq!(two, InputQueueActivity::Mailbox);
    assert_eq!(input_queue.subscribe_activity(None), Some(InputQueueActivity::Mailbox));
}

#[test]
fn input_queue_notifies_steer_subscribers() {
    let input_queue = Queue::new();
    let mut turn_state = TurnState::new();
    assert_eq!(input_queue.subscribe_activity(Some(&turn_state)), None);
    let activity = input_queue
        .extend_pending_input_and_accept_mailbox_delivery_for_turn_state(&mut turn_state, vec![user_input("steer")]);
    assert_eq!(activity, InputQueueActivity::Steer);
    assert_eq!(input_queue.subscribe_activity(Some(&turn_state)), Some(InputQueueActivity::Steer));
}

#[test]
fn input_queue_reports_already_pending_steer() {
    let input_queue = Queue::new();
    let mut turn_state = TurnState::new();
    input_queue.extend_pending_input_for_turn_state(&mut turn_state, vec![TurnInput::ResponseItem("passive".to_string())]);
    assert_eq!(input_queue.subscribe_activity(Some(&turn_state)), None);
    input_queue.extend_pending_input_and_accept_mailbox_delivery_for_turn_state(
        &mut turn_state,
        vec![user_input("already pending")],
    );
    assert_eq!(input_queue.subscribe_activity(Some(&turn_state)), Some(InputQueueActivity::Steer));
}

#[test]
fn input_queue_drains_mailbox_in_delivery_order() {
    let mut input_queue = Queue::new();
    input_queue.enqueue_mailbox_communication(make_mail("/root", "/root/worker", "one", false), TurnStartOptions::empty());
    input_queue.enqueue_mailbox_communication(make_mail("/root/worker", "/root", "two", true), TurnStartOptions::empty());
    let (drained, _) = input_queue.drain_mailbox_input_items();
    assert_eq!(drained.len(), 2);
    assert_eq!(mail_content(&drained[0]), ("one", false));
    assert_eq!(mail_content(&drained[1]), ("two", true));
    assert!(!input_queue.has_pending_mailbox_items());
}

#[test]
fn input_queue_uses_unambiguous_trigger_parent_and_first_root() {
    let (parent, peer, root, root2) = (Some("a"), Some("b"), Some("r"), Some("s"));
    let cases: Vec<(Vec<(bool, Option<&str>, Option<&str>)>, Option<&str>, Option<&str>)> = vec![
        (Vec::new(), None, None),
        (vec![(false, Some("q"), root)], None, None),
        (vec![(true, Some(""), root)], None, None),
        (vec![(true, Some("   "), root)], None, None),
        (vec![(true, None, root)], None, None),
        (vec![(true, parent, None)], parent, None),
        (vec![(true, parent, Some(""))], parent, None),
        (vec![(true, parent, root), (true, peer, root)], None, root),
        (vec![(true, parent, root), (true, peer, root2)], None, root),
        (vec![(true, parent, root), (true, None, root)], None, root),
        (vec![(true, parent, root), (true, parent, root)], parent, root),
        (vec![(false, Some("q"), root2), (true, parent, root)], parent, root),
    ];
    for (pending_mails, expected_parent_turn_id, expected_root_turn_id) in cases {
        let mut input_queue = Queue::new();
        for (trigger_turn, parent_turn_id, root_turn_id) in pending_mails {
            input_queue.enqueue_mailbox_communication(
                make_mail("/root", "/root", "task", trigger_turn),
                options(parent_turn_id, root_turn_id),
            );
        }
        let (_, start_options) = input_queue.drain_mailbox_input_items();
        assert_eq!(start_options.parent_turn_id.as_deref(), expected_parent_turn_id);
        assert_eq!(start_options.root_turn_id.as_deref(), expected_root_turn_id);
    }
}

#[test]
fn input_queue_uses_latest_followup_choice_and_ignores_queue_only_mail() {
    for latest in [Some(CyberAccessProgram::Standard), None] {
        let mut input_queue = Queue::new();
        for (trigger_turn, program) in [
            (true, Some(CyberAccessProgram::DaybreakBlue)),
            (true, latest),
            (false, Some(CyberAccessProgram::DaybreakRed)),
        ] {
            input_queue.enqueue_mailbox_communication(
                make_mail("/root", "/root", "task", trigger_turn),
                TurnStartOptions { parent_turn_id: None, root_turn_id: None, cyber_access_program: program },
            );
        }
        let (_, start_options) = input_queue.drain_mailbox_input_items();
        assert_eq!(start_options.cyber_access_program, latest);
    }
}

#[test]
fn input_queue_tracks_pending_trigger_turn_mail() {
    let mut input_queue = Queue::new();
    input_queue.enqueue_mailbox_communication(make_mail("/root", "/root/worker", "queued", false), TurnStartOptions::empty());
    assert!(!input_queue.has_trigger_turn_mailbox_items());
    input_queue.enqueue_mailbox_communication(make_mail("/root", "/root/worker", "wake", true), TurnStartOptions::empty());
    assert!(input_queue.has_trigger_turn_mailbox_items());
}

#[test]
fn cancelled_batch_restores_each_result_with_its_exact_origin() {
    let mut input_queue = Queue::new();
    for (index, origin) in [10u32, 20, 30].into_iter().enumerate() {
        let activity = input_queue.enqueue_async_result(vec![user_input(&format!("result-{index}"))], origin);
        assert_eq!(activity, InputQueueActivity::Steer);
    }
    let origins: Vec<(u64, u32)> = input_queue.pending_async_result_origins().into_iter().map(|(id, origin)| (id, *origin)).collect();
    assert_eq!(origins, vec![(0, 10), (1, 20), (2, 30)]);

    let claimed = input_queue.claim_async_results(&[0, 2]);
    assert_eq!(claimed.iter().map(|result| (result.id, result.origin_turn_store)).collect::<Vec<_>>(), vec![(0, 10), (2, 30)]);
    let remaining: Vec<(u64, u32)> = input_queue.pending_async_result_origins().into_iter().map(|(id, origin)| (id, *origin)).collect();
    assert_eq!(remaining, vec![(1, 20)]);

    assert_eq!(input_queue.restore_async_results(claimed), InputQueueActivity::Steer);
    let restored: Vec<(u64, u32)> = input_queue.pending_async_result_origins().into_iter().map(|(id, origin)| (id, *origin)).collect();
    assert_eq!(restored, vec![(0, 10), (2, 30), (1, 20)]);

    let all = input_queue.claim_async_results(&[0, 1, 2]);
    assert_eq!(all.len(), 3);
    input_queue.restore_async_results(all);
    let again: Vec<(u64, u32)> = input_queue.pending_async_result_origins().into_iter().map(|(id, origin)| (id, *origin)).collect();
    assert_eq!(again, restored);
}

#[test]
fn async_results_drain_in_bounded_batches() {
    let mut input_queue = Queue::new();
    for index in 0..(MAX_ASYNC_RESULTS_PER_TURN + 2) {
        input_queue.enqueue_async_result(vec![user_input(&format!("r{index}"))], index as u32);
    }
    let first = input_queue.drain_next_async_results();
    assert_eq!(first.len(), MAX_ASYNC_RESULTS_PER_TURN);
    assert_eq!(user_text(&first[0]), "r0");
    let second = input_queue.drain_next_async_results();
    assert_eq!(second.len(), 2);
    assert_eq!(user_text(&second[1]), format!("r{}", MAX_ASYNC_RESULTS_PER_TURN + 1));
    assert!(input_queue.drain_next_async_results().is_empty());
}

#[test]
fn pending_input_is_held_while_mail_waits_for_the_next_turn() {
    let mut input_queue = Queue::new();
    let mut active = Some(ActiveTurn { task_sub_id: Some("sub-1".to_string()), turn_state: TurnState::new() });
    input_queue.enqueue_mailbox_communication(make_mail("/root", "/root", "queued", false), TurnStartOptions::empty());
    input_queue.enqueue_async_result(vec![user_input("async")], 5);
    assert!(input_queue.has_pending_input(&active));

    input_queue.defer_mailbox_delivery_to_next_turn(&mut active, "other-sub");
    assert_eq!(active.as_ref().unwrap().turn_state.mailbox_delivery_phase, MailboxDeliveryPhase::CurrentTurn);
    input_queue.defer_mailbox_delivery_to_next_turn(&mut active, "sub-1");
    assert_eq!(active.as_ref().unwrap().turn_state.mailbox_delivery_phase, MailboxDeliveryPhase::NextTurn);
    assert!(!input_queue.has_pending_input(&active));
    let (held, _, held_origins) = input_queue.get_pending_input(&mut active);
    assert!(held.is_empty());
    assert!(held_origins.is_empty());
    assert!(input_queue.has_pending_mailbox_items());

    input_queue.accept_mailbox_delivery_for_current_turn(&mut active, "sub-1");
    assert!(input_queue.has_pending_input(&active));
    let (taken, _, origins) = input_queue.get_pending_input(&mut active);
    assert_eq!(taken.len(), 2);
    assert_eq!(user_text(&taken[0]), "async");
    assert_eq!(mail_content(&taken[1]), ("queued", false));
    assert_eq!(origins, vec![None]);
    assert!(!input_queue.has_pending_input(&active));
}

#[test]
fn buffered_steer_keeps_mail_delivery_for_the_current_turn() {
    let input_queue = Queue::new();
    let mut active = Some(ActiveTurn { task_sub_id: Some("sub-1".to_string()), turn_state: TurnState::new() });
    input_queue.extend_pending_input_for_turn_state(&mut active.as_mut().unwrap().turn_state, vec![user_input("steer")]);
    input_queue.defer_mailbox_delivery_to_next_turn(&mut active, "sub-1");
    assert_eq!(active.as_ref().unwrap().turn_state.mailbox_delivery_phase, MailboxDeliveryPhase::CurrentTurn);
    let taken = input_queue.take_pending_input_for_turn_state(&mut active.as_mut().unwrap().turn_state);
    assert_eq!(taken.len(), 1);
    input_queue.clear_pending(active.as_mut().unwrap());
    assert!(active.as_ref().unwrap().turn_state.pending_input.items.is_empty());
}

#[test]
fn mail_from_async_work_keeps_its_origin() {
    let mut input_queue = Queue::new();
    input_queue.enqueue_mailbox_communication_with_origin(make_mail("/root/w", "/root", "done", true), TurnStartOptions::empty(), Some(42));
    let (items, _, origins) = input_queue.drain_mailbox_input_items_with_origins();
    assert_eq!(items.len(), 1);
    assert_eq!(origins, vec![Some(42)]);
}

#[test]
fn pending_input_matches_what_is_taken() {
    let mut input_queue = Queue::new();
    let mut idle: Option<ActiveTurn<String, String>> = None;
    assert!(!input_queue.has_pending_input(&idle));
    assert!(input_queue.get_pending_input(&mut idle).0.is_empty());

    let mut active = Some(ActiveTurn { task_sub_id: None, turn_state: TurnState::new() });
    input_queue.enqueue_async_result(vec![user_input("async")], 1);
    assert!(!input_queue.has_pending_input(&active));
    assert!(input_queue.get_pending_input(&mut active).0.is_empty());

    let mut with_task = Some(ActiveTurn { task_sub_id: Some("sub".to_string()), turn_state: TurnState::new() });
    assert!(input_queue.has_pending_input(&with_task));
    assert_eq!(input_queue.get_pending_input(&mut with_task).0.len(), 1);
    assert!(!input_queue.has_pending_input(&with_task));
}
