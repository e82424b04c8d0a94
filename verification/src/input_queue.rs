//! Session-scoped pending input: retained asynchronous results, the
//! inter-agent mailbox, and the hand-off of both to the active turn.
//!
//! The queue is a plain data structure; its owner serializes access to it
//! and announces the activity each operation returns to its subscribers.

use vstd::prelude::*;
use std::collections::VecDeque;

verus! {

/// How many retained asynchronous results one turn step takes at most.
pub const MAX_ASYNC_RESULTS_PER_TURN: usize = 8;

/// A message from one agent to another.
pub struct InterAgentCommunication {
    pub author: String,
    pub recipient: String,
    pub other_recipients: Vec<String>,
    pub content: String,
    /// Whether the message asks the recipient to start a turn.
    pub trigger_turn: bool,
}

/// The access program a follow-up turn runs under.
#[derive(Clone, Copy, Debug, PartialEq, Eq, Structural)]
pub enum CyberAccessProgram {
    Standard,
    DaybreakBlue,
    DaybreakRed,
}

/// Options for the turn that pending mail starts.
pub struct TurnStartOptions {
    pub parent_turn_id: Option<String>,
    pub root_turn_id: Option<String>,
    pub cyber_access_program: Option<CyberAccessProgram>,
}

pub open spec fn opt_view(value: Option<String>) -> Option<Seq<char>> {
    match value {
        Option::None => Option::None,
        Option::Some(s) => Option::Some(s@),
    }
}

pub(crate) fn copy_opt_string(value: &Option<String>) -> (copy: Option<String>)
    ensures
        opt_view(copy) == opt_view(*value),
{
    match value {
        Option::None => Option::None,
        Option::Some(s) => Option::Some(s.clone()),
    }
}

impl TurnStartOptions {
    /// The same options, by value.
    pub open spec fn same_as(self, other: TurnStartOptions) -> bool {
        &&& opt_view(self.parent_turn_id) == opt_view(other.parent_turn_id)
        &&& opt_view(self.root_turn_id) == opt_view(other.root_turn_id)
        &&& self.cyber_access_program == other.cyber_access_program
    }

    /// No options chosen.
    pub fn empty() -> (options: Self)
        ensures
            options.parent_turn_id is None,
            options.root_turn_id is None,
            options.cyber_access_program is None,
    {
        TurnStartOptions {
            parent_turn_id: Option::None,
            root_turn_id: Option::None,
            cyber_access_program: Option::None,
        }
    }

    pub fn duplicate(&self) -> (copy: Self)
        ensures
            copy.same_as(*self),
    {
        TurnStartOptions {
            parent_turn_id: copy_opt_string(&self.parent_turn_id),
            root_turn_id: copy_opt_string(&self.root_turn_id),
            cyber_access_program: self.cyber_access_program,
        }
    }
}

/// Input consumed by a regular turn: user content (`U`), a function call's
/// output or another response item (`R`), or inter-agent mail.
pub enum TurnInput<U, R> {
    UserInput { content: Vec<U>, client_id: Option<String>, acceptance_order: Option<u64> },
    FunctionCallOutput(R),
    ResponseItem(R),
    InterAgentCommunication(InterAgentCommunication),
}

/// Input that asks for model work: user input or a function call's output.
pub open spec fn is_steering<U, R>(input: TurnInput<U, R>) -> bool {
    input is UserInput || input is FunctionCallOutput
}

/// Input that is only queue-only mail, which needs no follow-up of its own.
pub open spec fn is_queue_only_mail<U, R>(input: TurnInput<U, R>) -> bool {
    input matches TurnInput::InterAgentCommunication(c) && !c.trigger_turn
}

/// Whether an input is user input or a function call's output.
pub fn is_steering_input<U, R>(input: &TurnInput<U, R>) -> (steering: bool)
    ensures
        steering == is_steering(*input),
{
    match input {
        TurnInput::UserInput { .. } => true,
        TurnInput::FunctionCallOutput(_) => true,
        _ => false,
    }
}

/// Turn-local pending input.
pub struct TurnInputQueue<U, R> {
    pub items: Vec<TurnInput<U, R>>,
}

impl<U, R> TurnInputQueue<U, R> {
    pub fn new() -> (queue: Self)
        ensures
            queue.items@.len() == 0,
    {
        TurnInputQueue { items: Vec::new() }
    }

    /// Whether the turn has user input or a function call's output pending.
    pub fn has_pending_input(&self) -> (pending: bool)
        ensures
            pending == exists|i: int|
                0 <= i < self.items@.len() && is_steering(#[trigger] self.items@[i]),
    {
        let mut i: usize = 0;
        while i < self.items.len()
            invariant
                i <= self.items@.len(),
                forall|j: int| 0 <= j < i ==> !is_steering(#[trigger] self.items@[j]),
            decreases self.items@.len() - i,
        {
            if is_steering_input(&self.items[i]) {
                return true;
            }
            i = i + 1;
        }
        false
    }
}

/// Whether mail reaches the active turn now or waits for the next turn.
#[derive(Clone, Copy, Debug, PartialEq, Eq, Structural)]
pub enum MailboxDeliveryPhase {
    CurrentTurn,
    NextTurn,
}

/// The input state of one turn.
pub struct TurnState<U, R> {
    pub pending_input: TurnInputQueue<U, R>,
    pub mailbox_delivery_phase: MailboxDeliveryPhase,
}

impl<U, R> TurnState<U, R> {
    pub fn new() -> (state: Self)
        ensures
            state.pending_input.items@.len() == 0,
            state.mailbox_delivery_phase == MailboxDeliveryPhase::CurrentTurn,
    {
        TurnState {
            pending_input: TurnInputQueue::new(),
            mailbox_delivery_phase: MailboxDeliveryPhase::CurrentTurn,
        }
    }

    pub fn accepts_mailbox_delivery_for_current_turn(&self) -> (accepts: bool)
        ensures
            accepts == (self.mailbox_delivery_phase == MailboxDeliveryPhase::CurrentTurn),
    {
        match self.mailbox_delivery_phase {
            MailboxDeliveryPhase::CurrentTurn => true,
            MailboxDeliveryPhase::NextTurn => false,
        }
    }

    pub fn accept_mailbox_delivery_for_current_turn(&mut self)
        ensures
            final(self).pending_input == old(self).pending_input,
            final(self).mailbox_delivery_phase == MailboxDeliveryPhase::CurrentTurn,
    {
        self.mailbox_delivery_phase = MailboxDeliveryPhase::CurrentTurn;
    }
}

/// The turn that is running, if any: its task's submission id, when it has a
/// task, and its input state.
pub struct ActiveTurn<U, R> {
    pub task_sub_id: Option<String>,
    pub turn_state: TurnState<U, R>,
}

/// What subscribers of the queue are told.
#[derive(Clone, Copy, Debug, PartialEq, Eq, Structural)]
pub enum InputQueueActivity {
    Mailbox,
    Steer,
}

/// One retained asynchronous result and the turn data it was launched from.
pub struct PendingAsyncResult<U, R, O> {
    pub id: u64,
    pub input: Vec<TurnInput<U, R>>,
    pub origin_turn_store: O,
}

impl<U, R, O> PendingAsyncResult<U, R, O> {
    pub fn input(&self) -> (input: &[TurnInput<U, R>])
        ensures
            input@ == self.input@,
    {
        self.input.as_slice()
    }
}

/// One queued mail, with the start options it asks for and the turn data of
/// the asynchronous work that produced it, if any.
pub struct PendingMailboxCommunication<O> {
    pub communication: InterAgentCommunication,
    pub start_options: TurnStartOptions,
    pub async_result_origin: Option<O>,
}

/// Session-scoped pending input storage.
pub struct InputQueue<U, R, O> {
    mailbox_pending_mails: VecDeque<PendingMailboxCommunication<O>>,
    next_async_result_id: u64,
    pending_async_results: VecDeque<PendingAsyncResult<U, R, O>>,
}

/// The results whose id is (or, with `keep_admitted` false, is not) admitted, in order.
pub open spec fn select<U, R, O>(
    results: Seq<PendingAsyncResult<U, R, O>>,
    admitted: Seq<u64>,
    keep_admitted: bool,
) -> Seq<PendingAsyncResult<U, R, O>>
    decreases results.len(),
{
    if results.len() == 0 {
        Seq::empty()
    } else {
        let rest = select(results.drop_last(), admitted, keep_admitted);
        if admitted.contains(results.last().id) == keep_admitted {
            rest.push(results.last())
        } else {
            rest
        }
    }
}

/// The inputs of a sequence of results, in order.
pub open spec fn inputs_of<U, R, O>(results: Seq<PendingAsyncResult<U, R, O>>) -> Seq<
    TurnInput<U, R>,
>
    decreases results.len(),
{
    if results.len() == 0 {
        Seq::empty()
    } else {
        inputs_of(results.drop_last()) + results.last().input@
    }
}

fn slice_contains(ids: &[u64], id: u64) -> (found: bool)
    ensures
        found == ids@.contains(id),
{
    let mut i: usize = 0;
    while i < ids.len()
        invariant
            i <= ids@.len(),
            forall|j: int| 0 <= j < i ==> ids@[j] != id,
        decreases ids@.len() - i,
    {
        if ids[i] == id {
            assert(ids@[i as int] == id);
            return true;
        }
        i = i + 1;
    }
    false
}

impl<U, R, O> InputQueue<U, R, O> {
    pub closed spec fn pending(&self) -> Seq<PendingAsyncResult<U, R, O>> {
        self.pending_async_results@
    }

    pub closed spec fn mailbox(&self) -> Seq<PendingMailboxCommunication<O>> {
        self.mailbox_pending_mails@
    }

    pub closed spec fn next_id(&self) -> u64 {
        self.next_async_result_id
    }

    /// An empty queue.
    pub fn new() -> (queue: Self)
        ensures
            queue.pending().len() == 0,
            queue.mailbox().len() == 0,
            queue.next_id() == 0,
    {
        InputQueue {
            mailbox_pending_mails: VecDeque::new(),
            next_async_result_id: 0,
            pending_async_results: VecDeque::new(),
        }
    }

    /// Retains an asynchronous result under the next id; subscribers are told
    /// that steering input arrived.
    pub fn enqueue_async_result(&mut self, input: Vec<TurnInput<U, R>>, origin_turn_store: O) -> (activity:
        InputQueueActivity)
        ensures
            activity == InputQueueActivity::Steer,
            final(self).pending() == old(self).pending().push(
                PendingAsyncResult { id: old(self).next_id(), input, origin_turn_store },
            ),
            final(self).next_id() == old(self).next_id().wrapping_add(1),
            final(self).mailbox() == old(self).mailbox(),
    {
        let id = self.next_async_result_id;
        self.next_async_result_id = self.next_async_result_id.wrapping_add(1);
        self.pending_async_results.push_back(PendingAsyncResult { id, input, origin_turn_store });
        InputQueueActivity::Steer
    }

    /// The retained results' ids and origins, in order.
    pub fn pending_async_result_origins(&self) -> (origins: Vec<(u64, &O)>)
        ensures
            origins@.len() == self.pending().len(),
            forall|i: int|
                0 <= i < origins@.len() ==> (#[trigger] origins@[i]).0 == self.pending()[i].id
                    && *(origins@[i].1) == self.pending()[i].origin_turn_store,
    {
        let mut origins: Vec<(u64, &O)> = Vec::new();
        let mut i: usize = 0;
        while i < self.pending_async_results.len()
            invariant
                i <= self.pending().len(),
                origins@.len() == i,
                forall|j: int|
                    0 <= j < i ==> (#[trigger] origins@[j]).0 == self.pending()[j].id && *(
                    origins@[j].1) == self.pending()[j].origin_turn_store,
            decreases self.pending().len() - i,
        {
            let result = &self.pending_async_results[i];
            origins.push((result.id, &result.origin_turn_store));
            i = i + 1;
        }
        origins
    }

    /// Takes the retained results whose ids were admitted, keeping the order of
    /// both the claimed and the remaining results.
    pub fn claim_async_results(&mut self, admitted_ids: &[u64]) -> (admitted: Vec<
        PendingAsyncResult<U, R, O>,
    >)
        ensures
            admitted@ == select(old(self).pending(), admitted_ids@, true),
            final(self).pending() == select(old(self).pending(), admitted_ids@, false),
            admitted@ == old(self).pending().filter(
                |r: PendingAsyncResult<U, R, O>| admitted_ids@.contains(r.id),
            ),
            final(self).pending() == old(self).pending().filter(
                |r: PendingAsyncResult<U, R, O>| !admitted_ids@.contains(r.id),
            ),
            final(self).mailbox() == old(self).mailbox(),
            final(self).next_id() == old(self).next_id(),
    {
        let ghost all = self.pending();
        let mut retained: VecDeque<PendingAsyncResult<U, R, O>> = VecDeque::new();
        let mut admitted: Vec<PendingAsyncResult<U, R, O>> = Vec::new();
        let ghost mut k: int = 0;
        while self.pending_async_results.len() > 0
            invariant
                0 <= k <= all.len(),
                self.pending_async_results@ == all.skip(k),
                admitted@ == select(all.take(k), admitted_ids@, true),
                retained@ == select(all.take(k), admitted_ids@, false),
                self.mailbox_pending_mails == old(self).mailbox_pending_mails,
                self.next_async_result_id == old(self).next_async_result_id,
            decreases all.len() - k,
        {
            match self.pending_async_results.pop_front() {
                Option::Some(result) => {
                    proof {
                        assert(all.take(k + 1).drop_last() == all.take(k));
                        assert(all.take(k + 1).last() == result);
                    }
                    if slice_contains(admitted_ids, result.id) {
                        admitted.push(result);
                    } else {
                        retained.push_back(result);
                    }
                    proof {
                        assert(all.skip(k).subrange(1, all.skip(k).len() as int) == all.skip(k + 1));
                        k = k + 1;
                    }
                },
                Option::None => {},
            }
        }
        assert(all.take(k) == all);
        self.pending_async_results = retained;
        proof {
            lemma_claim_keeps_retention_order(all, admitted_ids@);
        }
        admitted
    }

    /// Puts claimed results back at the front, in their order; subscribers are
    /// told that steering input is pending again.
    pub fn restore_async_results(&mut self, results: Vec<PendingAsyncResult<U, R, O>>) -> (activity:
        InputQueueActivity)
        ensures
            activity == InputQueueActivity::Steer,
            final(self).pending() == results@ + old(self).pending(),
            final(self).mailbox() == old(self).mailbox(),
            final(self).next_id() == old(self).next_id(),
    {
        let ghost claimed = results@;
        let ghost before = self.pending();
        let mut results = results;
        while results.len() > 0
            invariant
                results@.len() <= claimed.len(),
                results@ == claimed.take(results@.len() as int),
                self.pending() == claimed.skip(results@.len() as int) + before,
                self.mailbox_pending_mails == old(self).mailbox_pending_mails,
                self.next_async_result_id == old(self).next_async_result_id,
            decreases results@.len(),
        {
            let ghost m = results@.len() as int;
            match results.pop() {
                Option::Some(result) => {
                    self.pending_async_results.push_front(result);
                    proof {
                        assert(claimed.take(m).subrange(0, m - 1) =~= claimed.take(m - 1));
                        assert(claimed.skip(m - 1) =~= seq![claimed[m - 1]] + claimed.skip(m));
                    }
                },
                Option::None => {},
            }
        }
        assert(claimed.skip(0) == claimed);
        InputQueueActivity::Steer
    }

    /// Takes up to `MAX_ASYNC_RESULTS_PER_TURN` retained results from the front
    /// and returns their inputs, in order.
    pub fn drain_next_async_results(&mut self) -> (inputs: Vec<TurnInput<U, R>>)
        ensures
            ({
                let count = if old(self).pending().len() < MAX_ASYNC_RESULTS_PER_TURN {
                    old(self).pending().len() as int
                } else {
                    MAX_ASYNC_RESULTS_PER_TURN as int
                };
                &&& inputs@ == inputs_of(old(self).pending().take(count))
                &&& final(self).pending() == old(self).pending().skip(count)
            }),
            final(self).mailbox() == old(self).mailbox(),
            final(self).next_id() == old(self).next_id(),
    {
        let ghost all = self.pending();
        let count = if self.pending_async_results.len() < MAX_ASYNC_RESULTS_PER_TURN {
            self.pending_async_results.len()
        } else {
            MAX_ASYNC_RESULTS_PER_TURN
        };
        let mut inputs: Vec<TurnInput<U, R>> = Vec::new();
        let mut taken: usize = 0;
        while taken < count
            invariant
                taken <= count <= all.len(),
                self.pending_async_results@ == all.skip(taken as int),
                inputs@ == inputs_of(all.take(taken as int)),
                self.mailbox_pending_mails == old(self).mailbox_pending_mails,
                self.next_async_result_id == old(self).next_async_result_id,
            decreases count - taken,
        {
            match self.pending_async_results.pop_front() {
                Option::Some(result) => {
                    let mut input = result.input;
                    inputs.append(&mut input);
                    proof {
                        assert(all.take(taken + 1).drop_last() == all.take(taken as int));
                        assert(all.skip(taken as int).subrange(1, all.skip(taken as int).len() as int)
                            == all.skip(taken + 1));
                    }
                },
                Option::None => {},
            }
            taken = taken + 1;
        }
        inputs
    }
}

/// Asking whether the active turn has input pending answers whether taking
/// its pending input now takes anything, as long as no retained result is
/// empty.
pub proof fn lemma_pending_input_is_what_is_taken<U, R, O>(
    queue: InputQueue<U, R, O>,
    active_turn: Option<ActiveTurn<U, R>>,
)
    requires
        forall|i: int| 0 <= i < queue.pending().len() ==> #[trigger] queue.pending()[i].input@.len() > 0,
    ensures
        queue.has_input_for(active_turn) <==> queue.input_count_for(active_turn) > 0,
{
    let pending = queue.pending();
    if pending.len() > 0 {
        let count = if pending.len() < MAX_ASYNC_RESULTS_PER_TURN {
            pending.len() as int
        } else {
            MAX_ASYNC_RESULTS_PER_TURN as int
        };
        let taken = pending.take(count);
        assert(taken.last() == pending[count - 1]);
        assert(inputs_of(taken).len() == inputs_of(taken.drop_last()).len() + taken.last().input@.len());
    }
}

/// Claiming splits the retained results by admission and keeps their order:
/// the claimed results are the admitted ones and the results left pending
/// are the others, each in the order they were retained.
pub proof fn lemma_claim_keeps_retention_order<U, R, O>(
    results: Seq<PendingAsyncResult<U, R, O>>,
    admitted: Seq<u64>,
)
    ensures
        select(results, admitted, true) == results.filter(
            |r: PendingAsyncResult<U, R, O>| admitted.contains(r.id),
        ),
        select(results, admitted, false) == results.filter(
            |r: PendingAsyncResult<U, R, O>| !admitted.contains(r.id),
        ),
    decreases results.len(),
{
    reveal(Seq::filter);
    if results.len() > 0 {
        lemma_claim_keeps_retention_order(results.drop_last(), admitted);
    }
}

/// Claiming results and putting back what was claimed loses and duplicates
/// nothing: the claimed results followed by the retained ones are the
/// results that were pending, each with its id, input and origin.
pub proof fn lemma_claim_then_restore_keeps_every_result<U, R, O>(
    results: Seq<PendingAsyncResult<U, R, O>>,
    admitted: Seq<u64>,
)
    ensures
        (select(results, admitted, true) + select(results, admitted, false)).to_multiset()
            == results.to_multiset(),
    decreases results.len(),
{
    broadcast use vstd::seq_lib::group_to_multiset_ensures;
    broadcast use vstd::multiset::group_multiset_axioms;

    if results.len() == 0 {
        assert(select(results, admitted, true) + select(results, admitted, false) =~= Seq::<
            PendingAsyncResult<U, R, O>,
        >::empty());
    } else {
        let rest = results.drop_last();
        let last = results.last();
        lemma_claim_then_restore_keeps_every_result(rest, admitted);
        let claimed = select(rest, admitted, true);
        let retained = select(rest, admitted, false);
        assert(results == rest.push(last));
        vstd::seq_lib::lemma_multiset_commutative(claimed, retained);
        if admitted.contains(last.id) {
            vstd::seq_lib::lemma_multiset_commutative(claimed.push(last), retained);
            assert(claimed.push(last).to_multiset() == claimed.to_multiset().insert(last));
        } else {
            vstd::seq_lib::lemma_multiset_commutative(claimed, retained.push(last));
            assert(retained.push(last).to_multiset() == retained.to_multiset().insert(last));
        }
        assert(results.to_multiset() == rest.to_multiset().insert(last));
    }
}

/// When every pending id is admitted, the claim takes all results in order and
/// leaves none, so putting them back restores the queue exactly.
pub proof fn lemma_claim_all_then_restore_is_identity<U, R, O>(
    results: Seq<PendingAsyncResult<U, R, O>>,
    admitted: Seq<u64>,
)
    requires
        forall|i: int| 0 <= i < results.len() ==> admitted.contains(#[trigger] results[i].id),
    ensures
        select(results, admitted, true) == results,
        select(results, admitted, false) == Seq::<PendingAsyncResult<U, R, O>>::empty(),
        select(results, admitted, true) + select(results, admitted, false) == results,
    decreases results.len(),
{
    if results.len() > 0 {
        let rest = results.drop_last();
        assert forall|i: int| 0 <= i < rest.len() implies admitted.contains(#[trigger] rest[i].id) by {
            assert(rest[i] == results[i]);
        }
        lemma_claim_all_then_restore_is_identity(rest, admitted);
        assert(admitted.contains(results[results.len() - 1].id));
        assert(rest.push(results.last()) == results);
    }
    assert(select(results, admitted, true) + select(results, admitted, false) == select(results, admitted, true));
}

/// Whitespace as `char::is_whitespace` defines it (the Unicode `White_Space` property).
pub open spec fn is_unicode_whitespace(c: char) -> bool {
    let v = c as u32;
    ||| 0x09 <= v <= 0x0D
    ||| v == 0x20
    ||| v == 0x85
    ||| v == 0xA0
    ||| v == 0x1680
    ||| 0x2000 <= v <= 0x200A
    ||| v == 0x2028
    ||| v == 0x2029
    ||| v == 0x202F
    ||| v == 0x205F
    ||| v == 0x3000
}

/// Text that trims to nothing.
pub open spec fn is_blank(s: Seq<char>) -> bool {
    forall|i: int| 0 <= i < s.len() ==> is_unicode_whitespace(#[trigger] s[i])
}

fn is_whitespace_char(c: char) -> (ws: bool)
    ensures
        ws == is_unicode_whitespace(c),
{
    let v = c as u32;
    (0x09 <= v && v <= 0x0D) || v == 0x20 || v == 0x85 || v == 0xA0 || v == 0x1680 || (0x2000
        <= v && v <= 0x200A) || v == 0x2028 || v == 0x2029 || v == 0x202F || v == 0x205F || v
        == 0x3000
}

/// Whether `s.trim()` is empty.
pub fn is_blank_str(s: &str) -> (blank: bool)
    ensures
        blank == is_blank(s@),
{
    broadcast use vstd::string::axiom_spec_iter;
    let mut chars = s.chars();
    let ghost mut seen: Seq<char> = Seq::empty();
    loop
        invariant
            seen + vstd::std_specs::iter::IteratorSpec::remaining(&chars) == s@,
            vstd::std_specs::iter::IteratorSpec::obeys_prophetic_iter_laws(&chars),
            forall|i: int| 0 <= i < seen.len() ==> is_unicode_whitespace(#[trigger] seen[i]),
            seen.len() <= s@.len(),
        decreases s@.len() - seen.len(),
    {
        let ghost before = vstd::std_specs::iter::IteratorSpec::remaining(&chars);
        match chars.next() {
            Option::None => {
                assert(seen == s@);
                return true;
            },
            Option::Some(c) => {
                proof {
                    assert(before.len() > 0);
                    assert(seen + before == seen.push(c) + vstd::std_specs::iter::IteratorSpec::remaining(&chars)) by {
                        assert(before == seq![c] + before.drop_first());
                    }
                }
                if !is_whitespace_char(c) {
                    assert(s@[seen.len() as int] == c) by {
                        assert(s@ == seen.push(c) + vstd::std_specs::iter::IteratorSpec::remaining(&chars));
                    }
                    return false;
                }
                proof {
                    seen = seen.push(c);
                }
            },
        }
    }
}

pub open spec fn is_trigger<O>(mail: PendingMailboxCommunication<O>) -> bool {
    mail.communication.trigger_turn
}

pub open spec fn parent_of<O>(mail: PendingMailboxCommunication<O>) -> Option<Seq<char>> {
    opt_view(mail.start_options.parent_turn_id)
}

pub open spec fn root_of<O>(mail: PendingMailboxCommunication<O>) -> Option<Seq<char>> {
    opt_view(mail.start_options.root_turn_id)
}

/// The index of the first mail that asks for a turn.
pub open spec fn first_trigger<O>(mails: Seq<PendingMailboxCommunication<O>>) -> Option<int>
    decreases mails.len(),
{
    if mails.len() == 0 {
        Option::None
    } else {
        match first_trigger(mails.drop_last()) {
            Option::Some(i) => Option::Some(i),
            Option::None => if is_trigger(mails.last()) {
                Option::Some(mails.len() - 1)
            } else {
                Option::None
            },
        }
    }
}

/// The index of the latest mail that asks for a turn.
pub open spec fn latest_trigger<O>(mails: Seq<PendingMailboxCommunication<O>>) -> Option<int>
    decreases mails.len(),
{
    if mails.len() == 0 {
        Option::None
    } else if is_trigger(mails.last()) {
        Option::Some(mails.len() - 1)
    } else {
        latest_trigger(mails.drop_last())
    }
}

/// The parent turn that every turn-requesting mail names, when they all name the same one.
pub open spec fn parent_consensus<O>(mails: Seq<PendingMailboxCommunication<O>>) -> Option<Seq<char>> {
    match first_trigger(mails) {
        Option::None => Option::None,
        Option::Some(f) => match parent_of(mails[f]) {
            Option::None => Option::None,
            Option::Some(x) => if forall|j: int|
                0 <= j < mails.len() && is_trigger(#[trigger] mails[j]) ==> parent_of(mails[j])
                    == Option::Some(x) {
                Option::Some(x)
            } else {
                Option::None
            },
        },
    }
}

pub open spec fn non_blank(value: Option<Seq<char>>) -> Option<Seq<char>> {
    match value {
        Option::Some(x) => if is_blank(x) {
            Option::None
        } else {
            Option::Some(x)
        },
        Option::None => Option::None,
    }
}

/// The start options of the turn that draining `mails` starts: the latest
/// follow-up's choices (none when no mail asks for a turn), the parent turn
/// only when every turn-requesting mail names the same non-blank one, and the
/// first turn-requesting mail's root turn, when it names a non-blank parent
/// and a non-blank root.
pub open spec fn drained_options<O>(mails: Seq<PendingMailboxCommunication<O>>, options: TurnStartOptions) -> bool {
    &&& opt_view(options.parent_turn_id) == non_blank(parent_consensus(mails))
    &&& opt_view(options.root_turn_id) == match first_trigger(mails) {
        Option::None => Option::None,
        Option::Some(f) => if non_blank(parent_of(mails[f])) is Some {
            non_blank(root_of(mails[f]))
        } else {
            Option::None
        },
    }
    &&& options.cyber_access_program == match latest_trigger(mails) {
        Option::None => Option::None,
        Option::Some(l) => mails[l].start_options.cyber_access_program,
    }
}

fn non_blank_copy(value: &Option<String>) -> (copy: Option<String>)
    ensures
        opt_view(copy) == non_blank(opt_view(*value)),
{
    match value {
        Option::Some(x) => if is_blank_str(x.as_str()) {
            Option::None
        } else {
            Option::Some(x.clone())
        },
        Option::None => Option::None,
    }
}

fn same_string(a: &Option<String>, b: &Option<String>) -> (same: bool)
    ensures
        same == (opt_view(*a) == opt_view(*b)),
{
    match (a, b) {
        (Option::Some(x), Option::Some(y)) => String::eq(x, y),
        (Option::None, Option::None) => true,
        _ => false,
    }
}

impl<U, R, O> InputQueue<U, R, O> {
    /// Queues mail with its start options; subscribers are told mail arrived.
    pub fn enqueue_mailbox_communication(
        &mut self,
        communication: InterAgentCommunication,
        start_options: TurnStartOptions,
    ) -> (activity: InputQueueActivity)
        ensures
            activity == InputQueueActivity::Mailbox,
            final(self).mailbox() == old(self).mailbox().push(
                PendingMailboxCommunication {
                    communication,
                    start_options,
                    async_result_origin: Option::None,
                },
            ),
            final(self).pending() == old(self).pending(),
            final(self).next_id() == old(self).next_id(),
    {
        self.enqueue_mailbox_communication_with_origin(communication, start_options, Option::None)
    }

    /// Queues mail produced by asynchronous work launched from `async_result_origin`.
    pub fn enqueue_mailbox_communication_with_origin(
        &mut self,
        communication: InterAgentCommunication,
        start_options: TurnStartOptions,
        async_result_origin: Option<O>,
    ) -> (activity: InputQueueActivity)
        ensures
            activity == InputQueueActivity::Mailbox,
            final(self).mailbox() == old(self).mailbox().push(
                PendingMailboxCommunication { communication, start_options, async_result_origin },
            ),
            final(self).pending() == old(self).pending(),
            final(self).next_id() == old(self).next_id(),
    {
        self.mailbox_pending_mails.push_back(
            PendingMailboxCommunication { communication, start_options, async_result_origin },
        );
        InputQueueActivity::Mailbox
    }

    pub fn has_pending_mailbox_items(&self) -> (pending: bool)
        ensures
            pending == (self.mailbox().len() > 0),
    {
        self.mailbox_pending_mails.len() > 0
    }

    /// Whether some queued mail asks for a turn.
    pub fn has_trigger_turn_mailbox_items(&self) -> (pending: bool)
        ensures
            pending == exists|i: int|
                0 <= i < self.mailbox().len() && is_trigger(#[trigger] self.mailbox()[i]),
    {
        let mut i: usize = 0;
        while i < self.mailbox_pending_mails.len()
            invariant
                i <= self.mailbox().len(),
                forall|j: int| 0 <= j < i ==> !is_trigger(#[trigger] self.mailbox()[j]),
            decreases self.mailbox().len() - i,
        {
            if self.mailbox_pending_mails[i].communication.trigger_turn {
                return true;
            }
            i = i + 1;
        }
        false
    }

    /// Drains all queued mail, in delivery order.
    pub fn drain_mailbox_input_items(&mut self) -> (drained: (Vec<TurnInput<U, R>>, TurnStartOptions))
        ensures
            final(self).mailbox().len() == 0,
            final(self).pending() == old(self).pending(),
            drained.0@.len() == old(self).mailbox().len(),
            forall|i: int|
                0 <= i < drained.0@.len() ==> #[trigger] drained.0@[i]
                    == TurnInput::<U, R>::InterAgentCommunication(old(self).mailbox()[i].communication),
            drained_options(old(self).mailbox(), drained.1),
    {
        let (items, options, _origins) = self.drain_mailbox_input_items_with_origins();
        (items, options)
    }

    /// Drains all queued mail, in delivery order, with the turn start options
    /// it asks for and the origin of each mail.
    pub fn drain_mailbox_input_items_with_origins(&mut self) -> (drained: (
        Vec<TurnInput<U, R>>,
        TurnStartOptions,
        Vec<Option<O>>,
    ))
        ensures
            final(self).mailbox().len() == 0,
            final(self).pending() == old(self).pending(),
            final(self).next_id() == old(self).next_id(),
            drained.0@.len() == old(self).mailbox().len(),
            forall|i: int|
                0 <= i < drained.0@.len() ==> #[trigger] drained.0@[i]
                    == TurnInput::<U, R>::InterAgentCommunication(old(self).mailbox()[i].communication),
            drained.2@.len() == old(self).mailbox().len(),
            forall|i: int|
                0 <= i < drained.2@.len() ==> #[trigger] drained.2@[i] == old(
                    self,
                ).mailbox()[i].async_result_origin,
            drained_options(old(self).mailbox(), drained.1),
    {
        let ghost all = self.mailbox();
        let mut items: Vec<TurnInput<U, R>> = Vec::new();
        let mut origins: Vec<Option<O>> = Vec::new();
        let mut seen_trigger = false;
        let mut consensus: Option<String> = Option::None;
        let mut first_parent: Option<String> = Option::None;
        let mut first_root: Option<String> = Option::None;
        let mut latest_options: Option<TurnStartOptions> = Option::None;
        let ghost mut k: int = 0;
        while self.mailbox_pending_mails.len() > 0
            invariant
                0 <= k <= all.len(),
                self.mailbox_pending_mails@ == all.skip(k),
                self.pending_async_results == old(self).pending_async_results,
                self.next_async_result_id == old(self).next_async_result_id,
                items@.len() == k,
                origins@.len() == k,
                forall|i: int|
                    0 <= i < k ==> #[trigger] items@[i] == TurnInput::<U, R>::InterAgentCommunication(
                        all[i].communication,
                    ),
                forall|i: int| 0 <= i < k ==> #[trigger] origins@[i] == all[i].async_result_origin,
                seen_trigger == first_trigger(all.take(k)) is Some,
                seen_trigger ==> opt_view(consensus) == parent_consensus(all.take(k)),
                !seen_trigger ==> consensus is None && first_parent is None && first_root is None,
                seen_trigger ==> opt_view(first_parent) == parent_of(all[first_trigger(all.take(k)).unwrap()]),
                seen_trigger ==> opt_view(first_root) == root_of(all[first_trigger(all.take(k)).unwrap()]),
                first_trigger(all.take(k)) matches Option::Some(f) ==> 0 <= f < k,
                latest_options is Some == latest_trigger(all.take(k)) is Some,
                latest_trigger(all.take(k)) matches Option::Some(l) ==> 0 <= l < k
                    && latest_options.unwrap().cyber_access_program == all[l].start_options.cyber_access_program,
            decreases all.len() - k,
        {
            let ghost prefix = all.take(k);
            match self.mailbox_pending_mails.pop_front() {
                Option::Some(mail) => {
                    let ghost next = all.take(k + 1);
                    proof {
                        assert(next.drop_last() == prefix);
                        assert(next.last() == mail);
                        assert(all.skip(k).subrange(1, all.skip(k).len() as int) == all.skip(k + 1));
                        assert forall|j: int| 0 <= j < k implies next[j] == prefix[j] by {}
                    }
                    if mail.communication.trigger_turn {
                        if !seen_trigger {
                            consensus = copy_opt_string(&mail.start_options.parent_turn_id);
                            first_parent = copy_opt_string(&mail.start_options.parent_turn_id);
                            first_root = copy_opt_string(&mail.start_options.root_turn_id);
                            seen_trigger = true;
                            proof {
                                assert(first_trigger(next) == Option::Some(k));
                                assert forall|j: int| 0 <= j < next.len() && is_trigger(#[trigger] next[j])
                                    implies j == k by {
                                    if j < k {
                                        assert(prefix[j] == next[j]);
                                        lemma_no_trigger_in_prefix(prefix, j);
                                    }
                                }
                            }
                        } else {
                            if !same_string(&consensus, &mail.start_options.parent_turn_id) {
                                consensus = Option::None;
                            }
                            proof {
                                let f = first_trigger(prefix).unwrap();
                                assert(first_trigger(next) == Option::Some(f));
                                assert(next[f] == prefix[f]);
                            }
                        }
                        latest_options = Option::Some(mail.start_options.duplicate());
                    } else {
                        proof {
                            if seen_trigger {
                                let f = first_trigger(prefix).unwrap();
                                assert(next[f] == prefix[f]);
                            }
                        }
                    }
                    items.push(TurnInput::InterAgentCommunication(mail.communication));
                    origins.push(mail.async_result_origin);
                    proof {
                        k = k + 1;
                    }
                },
                Option::None => {},
            }
        }
        assert(all.take(k) == all);
        let mut options = match &latest_options {
            Option::Some(latest) => latest.duplicate(),
            Option::None => TurnStartOptions::empty(),
        };
        options.parent_turn_id = non_blank_copy(&consensus);
        let parent_present = match non_blank_copy(&first_parent) {
            Option::Some(_) => true,
            Option::None => false,
        };
        options.root_turn_id = if parent_present {
            non_blank_copy(&first_root)
        } else {
            Option::None
        };
        (items, options, origins)
    }
}

/// Before the first turn-requesting mail, no mail requests a turn.
pub proof fn lemma_no_trigger_in_prefix<O>(mails: Seq<PendingMailboxCommunication<O>>, j: int)
    requires
        0 <= j < mails.len(),
        first_trigger(mails) is None,
    ensures
        !is_trigger(mails[j]),
    decreases mails.len(),
{
    if j < mails.len() - 1 {
        lemma_no_trigger_in_prefix(mails.drop_last(), j);
    }
}

/// Every input is queue-only mail.
pub open spec fn all_queue_only_mail<U, R>(items: Seq<TurnInput<U, R>>) -> bool {
    forall|i: int| 0 <= i < items.len() ==> is_queue_only_mail(#[trigger] items[i])
}

fn only_queue_only_mail<U, R>(items: &Vec<TurnInput<U, R>>) -> (all: bool)
    ensures
        all == all_queue_only_mail(items@),
{
    let mut i: usize = 0;
    while i < items.len()
        invariant
            i <= items@.len(),
            forall|j: int| 0 <= j < i ==> is_queue_only_mail(#[trigger] items@[j]),
        decreases items@.len() - i,
    {
        let queue_only = match &items[i] {
            TurnInput::InterAgentCommunication(communication) => !communication.trigger_turn,
            _ => false,
        };
        if !queue_only {
            assert(!is_queue_only_mail(items@[i as int]));
            return false;
        }
        i = i + 1;
    }
    true
}

/// The active turn runs the task submitted as `sub_id`.
pub open spec fn turn_matches<U, R>(active: Option<ActiveTurn<U, R>>, sub_id: Seq<char>) -> bool {
    active matches Option::Some(turn) && turn.task_sub_id matches Option::Some(id) && id@ == sub_id
}

/// Whether the active turn runs the task submitted as `sub_id`.
pub fn active_turn_matches<U, R>(active: &Option<ActiveTurn<U, R>>, sub_id: &str) -> (matches: bool)
    ensures
        matches == turn_matches(*active, sub_id@),
{
    match active {
        Option::Some(turn) => match &turn.task_sub_id {
            Option::Some(id) => {
                let id_str: &str = id.as_str();
                str_eq(id_str, sub_id)
            },
            Option::None => false,
        },
        Option::None => false,
    }
}

fn str_eq(a: &str, b: &str) -> (same: bool)
    ensures
        same == (a@ == b@),
{
    let a_chars = a.to_owned();
    let b_chars = b.to_owned();
    String::eq(&a_chars, &b_chars)
}

impl<U, R, O> InputQueue<U, R, O> {
    /// Drops the input buffered for the active turn.
    pub fn clear_pending(&self, active_turn: &mut ActiveTurn<U, R>)
        ensures
            final(active_turn).turn_state.pending_input.items@.len() == 0,
            final(active_turn).turn_state.mailbox_delivery_phase
                == old(active_turn).turn_state.mailbox_delivery_phase,
            final(active_turn).task_sub_id == old(active_turn).task_sub_id,
    {
        active_turn.turn_state.pending_input.items.clear();
    }

    /// Holds mail for the next turn, unless the active turn (running `sub_id`)
    /// has pending input other than queue-only mail, which still needs a follow-up.
    pub fn defer_mailbox_delivery_to_next_turn(&self, active_turn: &mut Option<ActiveTurn<U, R>>, sub_id: &str)
        ensures
            if turn_matches(*old(active_turn), sub_id@) && all_queue_only_mail(
                (*old(active_turn)).unwrap().turn_state.pending_input.items@,
            ) {
                (*final(active_turn)) matches Option::Some(turn) && turn.task_sub_id
                    == (*old(active_turn)).unwrap().task_sub_id && turn.turn_state.pending_input
                    == (*old(active_turn)).unwrap().turn_state.pending_input
                    && turn.turn_state.mailbox_delivery_phase == MailboxDeliveryPhase::NextTurn
            } else {
                *final(active_turn) == *old(active_turn)
            },
    {
        if !active_turn_matches(active_turn, sub_id) {
            return;
        }
        let queue_only = match active_turn {
            Option::Some(turn) => only_queue_only_mail(&turn.turn_state.pending_input.items),
            Option::None => false,
        };
        if !queue_only {
            return;
        }
        match active_turn {
            Option::Some(turn) => {
                turn.turn_state.mailbox_delivery_phase = MailboxDeliveryPhase::NextTurn;
            },
            Option::None => {},
        }
    }

    /// Lets mail reach the active turn (running `sub_id`) again.
    pub fn accept_mailbox_delivery_for_current_turn(&self, active_turn: &mut Option<ActiveTurn<U, R>>, sub_id: &str)
        ensures
            if turn_matches(*old(active_turn), sub_id@) {
                (*final(active_turn)) matches Option::Some(turn) && turn.task_sub_id
                    == (*old(active_turn)).unwrap().task_sub_id && turn.turn_state.pending_input
                    == (*old(active_turn)).unwrap().turn_state.pending_input
                    && turn.turn_state.mailbox_delivery_phase == MailboxDeliveryPhase::CurrentTurn
            } else {
                *final(active_turn) == *old(active_turn)
            },
    {
        if !active_turn_matches(active_turn, sub_id) {
            return;
        }
        match active_turn {
            Option::Some(turn) => self.accept_mailbox_delivery_for_turn_state(&mut turn.turn_state),
            Option::None => {},
        }
    }

    pub fn accept_mailbox_delivery_for_turn_state(&self, turn_state: &mut TurnState<U, R>)
        ensures
            final(turn_state).pending_input == old(turn_state).pending_input,
            final(turn_state).mailbox_delivery_phase == MailboxDeliveryPhase::CurrentTurn,
    {
        turn_state.accept_mailbox_delivery_for_current_turn();
    }

    /// Adds steering input to the turn and lets mail reach it; subscribers are
    /// told that steering input arrived.
    pub fn extend_pending_input_and_accept_mailbox_delivery_for_turn_state(
        &self,
        turn_state: &mut TurnState<U, R>,
        input: Vec<TurnInput<U, R>>,
    ) -> (activity: InputQueueActivity)
        ensures
            activity == InputQueueActivity::Steer,
            final(turn_state).pending_input.items@ == old(turn_state).pending_input.items@ + input@,
            final(turn_state).mailbox_delivery_phase == MailboxDeliveryPhase::CurrentTurn,
    {
        let mut input = input;
        turn_state.pending_input.items.append(&mut input);
        turn_state.accept_mailbox_delivery_for_current_turn();
        InputQueueActivity::Steer
    }

    pub fn extend_pending_input_for_turn_state(&self, turn_state: &mut TurnState<U, R>, input: Vec<TurnInput<U, R>>)
        ensures
            final(turn_state).pending_input.items@ == old(turn_state).pending_input.items@ + input@,
            final(turn_state).mailbox_delivery_phase == old(turn_state).mailbox_delivery_phase,
    {
        let mut input = input;
        turn_state.pending_input.items.append(&mut input);
    }

    pub fn take_pending_input_for_turn_state(&self, turn_state: &mut TurnState<U, R>) -> (taken: Vec<TurnInput<U, R>>)
        ensures
            taken@ == old(turn_state).pending_input.items@,
            final(turn_state).pending_input.items@.len() == 0,
            final(turn_state).mailbox_delivery_phase == old(turn_state).mailbox_delivery_phase,
    {
        let mut taken = Vec::new();
        std::mem::swap(&mut taken, &mut turn_state.pending_input.items);
        taken
    }

    /// The activity already pending when a subscriber joins: steering input when
    /// the turn has user input or a function call's output, or when a turn is
    /// running and asynchronous results are retained; otherwise mail, if any.
    pub fn subscribe_activity(&self, turn_state: Option<&TurnState<U, R>>) -> (pending: Option<
        InputQueueActivity,
    >)
        ensures
            pending == if (turn_state matches Option::Some(ts) && exists|i: int|
                0 <= i < ts.pending_input.items@.len() && is_steering(
                    #[trigger] ts.pending_input.items@[i],
                )) || (turn_state is Some && self.pending().len() > 0) {
                Option::Some(InputQueueActivity::Steer)
            } else if self.mailbox().len() > 0 {
                Option::Some(InputQueueActivity::Mailbox)
            } else {
                Option::None
            },
    {
        let has_pending_steer = match turn_state {
            Option::Some(ts) => ts.pending_input.has_pending_input(),
            Option::None => false,
        };
        let has_pending_async = turn_state.is_some() && self.pending_async_results.len() > 0;
        if has_pending_steer || has_pending_async {
            Option::Some(InputQueueActivity::Steer)
        } else if self.has_pending_mailbox_items() {
            Option::Some(InputQueueActivity::Mailbox)
        } else {
            Option::None
        }
    }

    /// Whether the active turn has input to take now: nothing while mail is
    /// held for the next turn; otherwise its buffered input, retained results
    /// when a task runs, or queued mail.
    pub open spec fn has_input_for(&self, active_turn: Option<ActiveTurn<U, R>>) -> bool {
        match active_turn {
            Option::None => self.mailbox().len() > 0,
            Option::Some(turn) => turn.turn_state.mailbox_delivery_phase
                == MailboxDeliveryPhase::CurrentTurn && (turn.turn_state.pending_input.items@.len()
                > 0 || (turn.task_sub_id is Some && self.pending().len() > 0)
                || self.mailbox().len() > 0),
        }
    }

    /// How many inputs the active turn takes now: nothing while mail is held
    /// for the next turn; otherwise its buffered input, the inputs of up to
    /// `MAX_ASYNC_RESULTS_PER_TURN` retained results when a task runs, and
    /// every queued mail.
    pub open spec fn input_count_for(&self, active_turn: Option<ActiveTurn<U, R>>) -> int {
        let async_count = if self.pending().len() < MAX_ASYNC_RESULTS_PER_TURN {
            self.pending().len() as int
        } else {
            MAX_ASYNC_RESULTS_PER_TURN as int
        };
        let from_async = inputs_of(self.pending().take(async_count)).len() as int;
        match active_turn {
            Option::None => self.mailbox().len() as int,
            Option::Some(turn) => if turn.turn_state.mailbox_delivery_phase
                == MailboxDeliveryPhase::CurrentTurn {
                turn.turn_state.pending_input.items@.len() + (if turn.task_sub_id is Some {
                    from_async
                } else {
                    0int
                }) + self.mailbox().len()
            } else {
                0
            },
        }
    }

    /// Whether the active turn has input to take now: nothing while mail is
    /// held for the next turn; otherwise its buffered input, retained results
    /// when a task runs, or queued mail.
    pub fn has_pending_input(&self, active_turn: &Option<ActiveTurn<U, R>>) -> (pending: bool)
        ensures
            pending == self.has_input_for(*active_turn),
    {
        let (has_turn_pending_input, accepts_mailbox_delivery) = match active_turn {
            Option::Some(turn) => (
                turn.turn_state.pending_input.items.len() > 0 || (turn.task_sub_id.is_some()
                    && self.pending_async_results.len() > 0),
                turn.turn_state.accepts_mailbox_delivery_for_current_turn(),
            ),
            Option::None => (false, true),
        };
        if !accepts_mailbox_delivery {
            return false;
        }
        if has_turn_pending_input {
            return true;
        }
        self.has_pending_mailbox_items()
    }

    /// Takes everything the active turn should see now: its buffered input,
    /// then (when a task runs) up to `MAX_ASYNC_RESULTS_PER_TURN` retained
    /// results, then all queued mail with the start options it asks for.
    /// While mail is held for the next turn, nothing is taken.
    pub fn get_pending_input(&mut self, active_turn: &mut Option<ActiveTurn<U, R>>) -> (taken: (
        Vec<TurnInput<U, R>>,
        TurnStartOptions,
        Vec<Option<O>>,
    ))
        ensures
            ({
                let accepts = match *old(active_turn) {
                    Option::None => true,
                    Option::Some(turn) => turn.turn_state.mailbox_delivery_phase
                        == MailboxDeliveryPhase::CurrentTurn,
                };
                let async_count = if old(self).pending().len() < MAX_ASYNC_RESULTS_PER_TURN {
                    old(self).pending().len() as int
                } else {
                    MAX_ASYNC_RESULTS_PER_TURN as int
                };
                let drains_async = accepts && (*old(active_turn)) is Some
                    && (*old(active_turn)).unwrap().task_sub_id is Some;
                let buffered = match *old(active_turn) {
                    Option::Some(turn) => if accepts {
                        turn.turn_state.pending_input.items@
                    } else {
                        Seq::empty()
                    },
                    Option::None => Seq::empty(),
                };
                let from_async = if drains_async {
                    inputs_of(old(self).pending().take(async_count))
                } else {
                    Seq::empty()
                };
                let mail = old(self).mailbox();
                &&& taken.0@.len() == old(self).input_count_for(*old(active_turn))
                &&& final(self).pending() == if drains_async {
                    old(self).pending().skip(async_count)
                } else {
                    old(self).pending()
                }
                &&& if accepts {
                    &&& final(self).mailbox().len() == 0
                    &&& taken.0@.len() == buffered.len() + from_async.len() + mail.len()
                    &&& taken.0@.subrange(0, (buffered.len() + from_async.len()) as int) == buffered
                        + from_async
                    &&& forall|i: int|
                        0 <= i < mail.len() ==> #[trigger] taken.0@[(buffered.len()
                            + from_async.len()) as int + i] == TurnInput::<U, R>::InterAgentCommunication(
                            mail[i].communication,
                        )
                    &&& drained_options(mail, taken.1)
                    &&& taken.2@.len() == mail.len()
                    &&& forall|i: int|
                        0 <= i < mail.len() ==> #[trigger] taken.2@[i] == mail[i].async_result_origin
                } else {
                    &&& final(self).mailbox() == mail
                    &&& taken.0@.len() == 0
                    &&& taken.1.parent_turn_id is None
                    &&& taken.1.root_turn_id is None
                    &&& taken.1.cyber_access_program is None
                    &&& taken.2@.len() == 0
                }
                &&& match *old(active_turn) {
                    Option::None => (*final(active_turn)) is None,
                    Option::Some(turn) => (*final(active_turn)) matches Option::Some(after)
                        && after.task_sub_id == turn.task_sub_id
                        && after.turn_state.mailbox_delivery_phase
                        == turn.turn_state.mailbox_delivery_phase && (accepts
                        ==> after.turn_state.pending_input.items@.len() == 0) && (!accepts
                        ==> after.turn_state.pending_input == turn.turn_state.pending_input),
                }
            }),
    {
        let (mut pending_input, accepts_mailbox_delivery) = match active_turn {
            Option::Some(turn) => {
                let accepts = turn.turn_state.accepts_mailbox_delivery_for_current_turn();
                let mut pending_input = if accepts {
                    self.take_pending_input_for_turn_state(&mut turn.turn_state)
                } else {
                    Vec::new()
                };
                if accepts && turn.task_sub_id.is_some() {
                    let mut drained = self.drain_next_async_results();
                    pending_input.append(&mut drained);
                }
                (pending_input, accepts)
            },
            Option::None => (Vec::new(), true),
        };
        if !accepts_mailbox_delivery {
            return (pending_input, TurnStartOptions::empty(), Vec::new());
        }
        let ghost prefix = pending_input@;
        let (mut mailbox_items, start_options, origins) =
            self.drain_mailbox_input_items_with_origins();
        pending_input.append(&mut mailbox_items);
        assert(pending_input@.subrange(0, prefix.len() as int) == prefix);
        (pending_input, start_options, origins)
    }
}

} // verus!
