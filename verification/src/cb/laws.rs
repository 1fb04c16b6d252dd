//! What holds of the state machine over any sequence of inputs.

use crate::cb::model::{valid_close_code, Attempt, CoreState, RetryState, MAX_REASON_BYTES};
use crate::common::{ReadyState, WsEvent};
use crate::policy::{lemma_delay_in_window, lemma_grown_bounds, BackoffState, PER_MILLE};
use vstd::prelude::*;

verus! {

/// One input to the state machine.
pub enum Input {
    /// A notification from the transport handle of the given generation.
    Notify { generation: u64, event: WsEvent },
    /// The retry timer has fired.
    RetryFired,
    /// An attempt to open a new transport handle has ended.
    Attempted { opened: bool },
    /// The user closes the connection.
    Close { code: u16, reason_bytes: Option<usize> },
}

impl CoreState {
    /// The state after one input.
    pub open spec fn step(self, input: Input) -> Self {
        match input {
            Input::Notify { generation, event } => self.notified(generation, event),
            Input::RetryFired => self.retry_fired(),
            Input::Attempted { opened } => self.attempted(opened),
            Input::Close { code, reason_bytes } => self.user_closed(code, reason_bytes),
        }
    }

    /// The state after a sequence of inputs.
    pub open spec fn run(self, inputs: Seq<Input>) -> Self
        decreases inputs.len(),
    {
        if inputs.len() == 0 {
            self
        } else {
            self.run(inputs.drop_last()).step(inputs.last())
        }
    }

    /// Whether an input has the host open a new transport handle.
    pub open spec fn connects(self, input: Input) -> bool {
        input is RetryFired && self.attempts_on_retry()
    }

    /// Whether an input makes a new transport handle the current one.
    pub open spec fn replaces(self, input: Input) -> bool {
        input matches Input::Attempted { opened } && self.binds(opened)
    }

    /// Whether an input has the host start the retry timer.
    pub open spec fn schedules(self, input: Input) -> bool {
        match input {
            Input::Notify { generation, event } => event is Close && self.reconnects_on_close(
                generation,
            ),
            Input::Attempted { opened } => self.retries(opened),
            _ => false,
        }
    }

    /// Whether the client will never reconnect again: the user has asked for
    /// the connection to be closed, or the client has no backoff.
    pub open spec fn given_up(self) -> bool {
        self.closing || self.settings.reconnect is None
    }

    /// Whether the status is closing or closed.
    pub open spec fn winding_down(self) -> bool {
        self.status == ReadyState::Closing || self.status == ReadyState::Closed
    }
}

/// Every input leaves a well-formed state well formed.
pub proof fn lemma_step_wf(state: CoreState, input: Input)
    requires
        state.wf(),
    ensures
        state.step(input).wf(),
{
    if let Some(backoff) = state.settings.reconnect {
        lemma_grown_bounds(backoff.policy, backoff.current_interval as int);
    }
}

/// Every sequence of inputs leaves a well-formed state well formed.
pub proof fn lemma_run_wf(state: CoreState, inputs: Seq<Input>)
    requires
        state.wf(),
    ensures
        state.run(inputs).wf(),
    decreases inputs.len(),
{
    if inputs.len() > 0 {
        lemma_run_wf(state, inputs.drop_last());
        lemma_step_wf(state.run(inputs.drop_last()), inputs.last());
    }
}

/// The endpoint and the handlers are fixed for the life of the client, and a
/// client that reconnects always does: no input changes the URL, the
/// subprotocols or the handlers, or adds or removes the backoff.
pub proof fn lemma_settings_fixed(state: CoreState, inputs: Seq<Input>)
    ensures
        state.run(inputs).settings.url == state.settings.url,
        state.run(inputs).settings.protocols == state.settings.protocols,
        state.run(inputs).settings.handlers == state.settings.handlers,
        state.run(inputs).settings.reconnect is Some == state.settings.reconnect is Some,
        state.run(inputs).settings.reconnect is Some ==> state.run(
            inputs,
        ).settings.reconnect->0.policy == state.settings.reconnect->0.policy,
        state.run(inputs).settings.adapters() == state.settings.adapters(),
    decreases inputs.len(),
{
    if inputs.len() > 0 {
        lemma_settings_fixed(state, inputs.drop_last());
    }
}

/// There is one current transport handle at a time: an input either keeps the
/// generation or, where a new handle is bound, moves it on by one. The old
/// handle is then no longer current.
pub proof fn lemma_one_handle(state: CoreState, input: Input)
    ensures
        state.replaces(input) ==> state.step(input).generation == state.generation + 1
            && !state.step(input).current(state.generation),
        !state.replaces(input) ==> state.step(input).generation == state.generation,
{
}

/// The generation never goes back.
pub proof fn lemma_generation_monotonic(state: CoreState, inputs: Seq<Input>)
    ensures
        state.run(inputs).generation >= state.generation,
    decreases inputs.len(),
{
    if inputs.len() > 0 {
        lemma_generation_monotonic(state, inputs.drop_last());
        lemma_one_handle(state.run(inputs.drop_last()), inputs.last());
    }
}

/// A notification that is not heard changes nothing and reaches no handler.
pub proof fn lemma_unheard_notification(
    state: CoreState,
    generation: u64,
    event: WsEvent,
    sample: u32,
)
    requires
        !state.hears(generation),
    ensures
        state.notified(generation, event) == state,
        !state.delivers(generation, event),
        state.retry_after(generation, event, sample) is None,
{
}

impl CoreState {
    /// Whether the handle of the given generation is done with: it has been
    /// replaced, or it is the current one and has been closed.
    pub open spec fn done_with(self, generation: u64) -> bool {
        generation < self.generation || (generation == self.generation && self.status
            == ReadyState::Closed)
    }
}

/// A handle that is done with stays so under every input.
pub proof fn lemma_done_with_step(state: CoreState, generation: u64, input: Input)
    requires
        state.done_with(generation),
    ensures
        state.step(input).done_with(generation),
{
}

/// A handle that has been closed or replaced is never heard again: whatever
/// inputs follow, a notification from it changes nothing and reaches no
/// handler.
pub proof fn lemma_closed_handle_is_silent(
    state: CoreState,
    inputs: Seq<Input>,
    generation: u64,
    event: WsEvent,
    sample: u32,
)
    requires
        state.done_with(generation),
    ensures
        state.run(inputs).done_with(generation),
        !state.run(inputs).hears(generation),
        state.run(inputs).notified(generation, event) == state.run(inputs),
        !state.run(inputs).delivers(generation, event),
        state.run(inputs).retry_after(generation, event, sample) is None,
    decreases inputs.len(),
{
    if inputs.len() > 0 {
        lemma_closed_handle_is_silent(state, inputs.drop_last(), generation, event, sample);
        lemma_done_with_step(state.run(inputs.drop_last()), generation, inputs.last());
    }
    lemma_unheard_notification(state.run(inputs), generation, event, sample);
}

/// A close notification that is heard is the last one heard from its handle,
/// and a handle that is replaced is heard no more.
pub proof fn lemma_handles_end(state: CoreState, input: Input)
    ensures
        input matches Input::Notify { generation, event } ==> (event is Close && state.hears(
            generation,
        ) ==> state.step(input).done_with(generation)),
        state.replaces(input) ==> state.step(input).done_with(state.generation)
            && state.step(input).hears((state.generation + 1) as u64),
{
}

/// At most one retry timer runs at a time: an input starts the timer only
/// when none is running, and the timer is running afterwards.
pub proof fn lemma_one_timer(state: CoreState, input: Input)
    requires
        state.wf(),
        state.schedules(input),
    ensures
        state.retry != RetryState::Scheduled,
        state.step(input).retry == RetryState::Scheduled,
        state.step(input).status == ReadyState::Closed,
{
}

/// At most one attempt to connect is under way at a time: an input asks for
/// an attempt only when the retry timer has fired, and no other attempt is
/// asked for before that one has ended.
pub proof fn lemma_one_attempt(state: CoreState, input: Input)
    requires
        state.connects(input),
    ensures
        state.retry == RetryState::Scheduled,
        state.step(input).retry == RetryState::Attempting,
        forall|next: Input| !state.step(input).connects(next),
{
}

/// An open notification that is heard leaves the backoff inactive
/// and back at the start of its policy, so that the next delay is drawn round
/// the initial interval; a second one changes nothing more.
pub proof fn lemma_open_resets(state: CoreState, generation: u64)
    requires
        state.wf(),
        state.hears(generation),
    ensures
        state.settings.reconnect matches Some(backoff) ==> state.opened(
            generation,
        ).settings.reconnect == Some(BackoffState::fresh(backoff.policy)),
        state.settings.reconnect is None ==> state.opened(generation).settings.reconnect is None,
        state.status == ReadyState::Connecting ==> state.opened(generation).status
            == ReadyState::Open,
        state.opened(generation).opened(generation) == state.opened(generation),
{
    let once = state.opened(generation);
    let twice = once.opened(generation);
    assert(twice.settings == once.settings);
}

/// After an open notification, the next close notification schedules the
/// retry with a delay drawn round the initial interval.
pub proof fn lemma_backoff_restarts(state: CoreState, generation: u64, sample: u32)
    requires
        state.wf(),
        state.hears(generation),
        state.opened(generation).reconnects_on_close(generation),
    ensures
        state.opened(generation).close_reaction(generation, sample).retry_after == Some(
            state.settings.reconnect->0.policy.delay(
                state.settings.reconnect->0.policy.start(),
                sample as int,
            ) as u64,
        ),
{
}

/// The inputs of `n` attempts to connect that fail one after the other: the
/// retry timer fires and the attempt fails, `n` times.
pub open spec fn failed_attempts(n: nat) -> Seq<Input>
    decreases n,
{
    if n == 0 {
        Seq::empty()
    } else {
        failed_attempts((n - 1) as nat).push(Input::RetryFired).push(
            Input::Attempted { opened: false },
        )
    }
}

/// Attempts that fail are retried without end, each after the next delay of
/// the backoff: after `n` failures in a row the connection is still closed,
/// the current handle is the same, a retry is scheduled again, and the
/// backoff has drawn `n` more delays with no reset between them.
pub proof fn lemma_failed_attempts_back_off(state: CoreState, n: nat)
    requires
        state.wf(),
        state.retry == RetryState::Scheduled,
        !state.closing,
        state.generation < u64::MAX,
    ensures
        state.run(failed_attempts(n)).wf(),
        state.run(failed_attempts(n)).retry == RetryState::Scheduled,
        state.run(failed_attempts(n)).status == ReadyState::Closed,
        state.run(failed_attempts(n)).generation == state.generation,
        !state.run(failed_attempts(n)).closing,
        state.run(failed_attempts(n)).settings.reconnect == Some(
            state.settings.reconnect->0.after(n),
        ),
    decreases n,
{
    if n > 0 {
        let before = failed_attempts((n - 1) as nat);
        let fired = before.push(Input::RetryFired);
        let failed = fired.push(Input::Attempted { opened: false });
        lemma_failed_attempts_back_off(state, (n - 1) as nat);
        assert(fired.drop_last() =~= before);
        assert(failed.drop_last() =~= fired);
        assert(state.run(fired) == state.run(before).step(Input::RetryFired));
        assert(state.run(failed) == state.run(fired).step(Input::Attempted { opened: false }));
        lemma_step_wf(state.run(before), Input::RetryFired);
        lemma_step_wf(state.run(fired), Input::Attempted { opened: false });
    }
}

/// A client that has given up reconnecting stays so: no input has the host
/// open a transport handle or start the retry timer, the current handle is
/// never replaced, and a connection that is closing or closed never leaves
/// those two states, nor a closed one that one.
pub proof fn lemma_given_up_step(state: CoreState, input: Input)
    requires
        state.wf(),
        state.given_up(),
    ensures
        state.step(input).wf(),
        state.step(input).given_up(),
        state.step(input).closing == (state.closing || input is Close),
        state.step(input).generation == state.generation,
        !state.connects(input),
        !state.replaces(input),
        !state.schedules(input),
        state.winding_down() ==> state.step(input).winding_down(),
        state.status == ReadyState::Closed ==> state.step(input).status == ReadyState::Closed,
{
    lemma_step_wf(state, input);
}

/// Over any sequence of inputs, a client that has given up reconnecting stays
/// so, keeps its transport handle, and stays closing or closed, or closed,
/// once it is.
pub proof fn lemma_given_up_run(state: CoreState, inputs: Seq<Input>)
    requires
        state.wf(),
        state.given_up(),
    ensures
        state.run(inputs).wf(),
        state.run(inputs).given_up(),
        state.closing ==> state.run(inputs).closing,
        state.run(inputs).generation == state.generation,
        state.winding_down() ==> state.run(inputs).winding_down(),
        state.status == ReadyState::Closed ==> state.run(inputs).status == ReadyState::Closed,
    decreases inputs.len(),
{
    if inputs.len() > 0 {
        lemma_given_up_run(state, inputs.drop_last());
        lemma_given_up_step(state.run(inputs.drop_last()), inputs.last());
    }
}

/// After the user has closed the connection, in whatever state and whether or
/// not the close was refused, no transport handle is ever created again: at
/// no point of any sequence of inputs is the host asked to open one, to start
/// the retry timer, or to take a new handle as the current one.
pub proof fn lemma_close_is_final(
    state: CoreState,
    code: u16,
    reason_bytes: Option<usize>,
    inputs: Seq<Input>,
    k: int,
)
    requires
        state.wf(),
        0 <= k < inputs.len(),
    ensures
        !state.user_closed(code, reason_bytes).run(inputs.take(k)).connects(inputs[k]),
        !state.user_closed(code, reason_bytes).run(inputs.take(k)).schedules(inputs[k]),
        !state.user_closed(code, reason_bytes).run(inputs.take(k)).replaces(inputs[k]),
        state.user_closed(code, reason_bytes).run(inputs).generation == state.generation,
        state.user_closed(code, reason_bytes).run(inputs).closing,
{
    let closed = state.user_closed(code, reason_bytes);
    lemma_given_up_run(closed, inputs.take(k));
    lemma_given_up_step(closed.run(inputs.take(k)), inputs[k]);
    lemma_given_up_run(closed, inputs);
}

/// After the user has closed the connection, the connection is closed once
/// the close notification of the current handle has come, and stays closed
/// whatever follows. Where the close was passed on to the transport, the
/// connection is closing or closed from the moment of the close.
pub proof fn lemma_close_ends_closed(
    state: CoreState,
    code: u16,
    reason_bytes: Option<usize>,
    before: Seq<Input>,
    after: Seq<Input>,
)
    requires
        state.wf(),
    ensures
        state.requests_close(code, reason_bytes) ==> state.user_closed(
            code,
            reason_bytes,
        ).run(before).winding_down(),
        state.user_closed(code, reason_bytes).run(before).notified(
            state.generation,
            WsEvent::Close,
        ).run(after).status == ReadyState::Closed,
{
    let closed = state.user_closed(code, reason_bytes);
    lemma_given_up_run(closed, before);
    let notified = closed.run(before).notified(state.generation, WsEvent::Close);
    lemma_given_up_step(
        closed.run(before),
        Input::Notify { generation: state.generation, event: WsEvent::Close },
    );
    lemma_given_up_run(notified, after);
}

/// The first close of a client is judged by its arguments alone, whatever
/// the status of the handle and whether or not a retry is pending: it is
/// refused exactly where the code is not valid or the reason is too long, and
/// it is passed on to the transport exactly where it is not refused. Refused
/// or not, it gives up reconnecting.
pub proof fn lemma_first_close(state: CoreState, code: u16, reason_bytes: Option<usize>)
    requires
        !state.closing,
    ensures
        state.close_error(code, reason_bytes) is Some <==> !valid_close_code(code) || (
        reason_bytes is Some && reason_bytes->0 > MAX_REASON_BYTES),
        state.requests_close(code, reason_bytes) <==> state.close_error(code, reason_bytes) is None,
        state.user_closed(code, reason_bytes).closing,
        state.user_closed(code, reason_bytes).given_up(),
{
}

/// A second close is a no-op: after a first close, refused or not, every
/// other close, with whatever code and reason, is not refused, asks nothing
/// of the transport, and leaves the state as it is.
pub proof fn lemma_close_twice(
    state: CoreState,
    code: u16,
    reason_bytes: Option<usize>,
    again_code: u16,
    again_reason_bytes: Option<usize>,
)
    ensures
        state.user_closed(code, reason_bytes).close_error(again_code, again_reason_bytes) is None,
        !state.user_closed(code, reason_bytes).requests_close(again_code, again_reason_bytes),
        state.user_closed(code, reason_bytes).user_closed(again_code, again_reason_bytes)
            == state.user_closed(code, reason_bytes),
{
}

/// The user's wish to close is never taken back: once it is set, it is set
/// after every sequence of inputs.
pub proof fn lemma_closing_is_final(state: CoreState, inputs: Seq<Input>)
    requires
        state.closing,
    ensures
        state.run(inputs).closing,
    decreases inputs.len(),
{
    if inputs.len() > 0 {
        lemma_closing_is_final(state, inputs.drop_last());
    }
}

/// A connection that is lost without the user's asking comes back. Where the
/// client reconnects and the user has not closed, a close notification that
/// is heard schedules one retry, with a delay that lies within the current
/// interval less and plus the randomization factor's share. When the timer
/// fires, one attempt to connect is asked for. When the attempt succeeds, the
/// new handle is the current one, of the next generation, and is connecting;
/// the URL, the subprotocols and the handlers are those of before, and the
/// adapters to install are those of the settings. When the new handle
/// reports that it is open, the connection is open and the backoff is back at
/// its start.
pub proof fn lemma_reconnect_cycle(state: CoreState, sample: u32)
    requires
        state.wf(),
        state.hears(state.generation),
        !state.closing,
        state.settings.reconnect is Some,
        state.generation < u64::MAX,
    ensures
        ({
            let backoff = state.settings.reconnect->0;
            let lost = state.closed(state.generation);
            let fired = lost.retry_fired();
            let bound = fired.attempted(true);
            let open = bound.opened(bound.generation);
            let delay = backoff.delay(sample);
            &&& state.close_reaction(state.generation, sample).retry_after == Some(delay as u64)
            &&& backoff.current_interval * (PER_MILLE - backoff.policy.factor()) <= PER_MILLE
                * delay
            &&& PER_MILLE * delay <= backoff.current_interval * (PER_MILLE
                + backoff.policy.factor())
            &&& lost.status == ReadyState::Closed
            &&& lost.retry == RetryState::Scheduled
            &&& lost.attempts_on_retry()
            &&& fired.retry == RetryState::Attempting
            &&& !fired.attempts_on_retry()
            &&& fired.attempt_reaction(true, sample) == (Attempt::Bind {
                generation: (state.generation + 1) as u64,
                adapters: state.settings.adapters(),
            })
            &&& bound.generation == state.generation + 1
            &&& bound.status == ReadyState::Connecting
            &&& bound.retry == RetryState::Idle
            &&& bound.adapters == state.settings.adapters()
            &&& bound.settings.url == state.settings.url
            &&& bound.settings.protocols == state.settings.protocols
            &&& bound.settings.handlers == state.settings.handlers
            &&& bound.wf()
            &&& open.status == ReadyState::Open
            &&& open.generation == state.generation + 1
            &&& open.settings.reconnect == Some(BackoffState::fresh(backoff.policy))
        }),
{
    let backoff = state.settings.reconnect->0;
    lemma_delay_in_window(backoff.policy, backoff.current_interval as int, sample as int);
    lemma_grown_bounds(backoff.policy, backoff.current_interval as int);
}

/// A client without a backoff never reconnects: a close notification that is
/// heard leaves it closed for good, and no retry timer is ever started.
pub proof fn lemma_no_reconnect_is_terminal(
    state: CoreState,
    generation: u64,
    inputs: Seq<Input>,
    k: int,
)
    requires
        state.wf(),
        state.settings.reconnect is None,
        state.hears(generation),
        0 <= k < inputs.len(),
    ensures
        state.closed(generation).status == ReadyState::Closed,
        state.closed(generation).retry == RetryState::Idle,
        state.close_reaction(generation, 0).retry_after is None,
        state.closed(generation).run(inputs).status == ReadyState::Closed,
        !state.closed(generation).run(inputs.take(k)).schedules(inputs[k]),
        !state.closed(generation).run(inputs.take(k)).connects(inputs[k]),
{
    let closed = state.closed(generation);
    lemma_step_wf(state, Input::Notify { generation, event: WsEvent::Close });
    lemma_given_up_run(closed, inputs);
    lemma_given_up_run(closed, inputs.take(k));
    lemma_given_up_step(closed.run(inputs.take(k)), inputs[k]);
}

} // verus!
