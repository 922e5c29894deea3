use vstd::prelude::*;

verus! {

/// The least number of messages the broadcast channel buffers before the oldest is dropped.
pub const CHANNEL_CAPACITY: usize = 100;

/// How many times a response is offered to the channel before it is abandoned.
pub const MAX_ATTEMPTS: u32 = 3;

/// The pause between two attempts, in milliseconds.
pub const RETRY_DELAY_MS: u64 = 100;

/// What the publisher does after an attempt to publish.
#[derive(Clone, Copy, Debug, PartialEq, Eq, Structural)]
pub enum Step {
    /// The message was accepted by the channel: publishing is over.
    Delivered,
    /// Wait this many milliseconds, then make the next attempt.
    RetryAfter(u64),
    /// No attempt is left: the message is abandoned.
    GiveUp,
}

pub open spec fn next_step_spec(attempt: nat, sent: bool) -> Step {
    if sent {
        Step::Delivered
    } else if attempt < MAX_ATTEMPTS {
        Step::RetryAfter(RETRY_DELAY_MS)
    } else {
        Step::GiveUp
    }
}

/// The step after attempt number `attempt` (counted from one), given whether the
/// channel took the message.
pub fn next_step(attempt: u32, sent: bool) -> (r: Step)
    requires
        1 <= attempt <= MAX_ATTEMPTS,
    ensures
        r == next_step_spec(attempt as nat, sent),
{
    if sent {
        Step::Delivered
    } else if attempt < MAX_ATTEMPTS {
        Step::RetryAfter(RETRY_DELAY_MS)
    } else {
        Step::GiveUp
    }
}

/// The number of the attempt after which publishing stops, when from attempt `attempt`
/// on the channel refuses every message: each step is the one `next_step_spec` gives
/// for a refused send.
pub open spec fn last_attempt_refused(attempt: nat) -> nat
    decreases MAX_ATTEMPTS - attempt,
{
    match next_step_spec(attempt, false) {
        Step::RetryAfter(_) => if attempt < MAX_ATTEMPTS {
            last_attempt_refused(attempt + 1)
        } else {
            attempt
        },
        _ => attempt,
    }
}

/// The total pause, in milliseconds, before publishing stops, when from attempt
/// `attempt` on the channel refuses every message.
pub open spec fn pause_when_refused(attempt: nat) -> nat
    decreases MAX_ATTEMPTS - attempt,
{
    match next_step_spec(attempt, false) {
        Step::RetryAfter(ms) => if attempt < MAX_ATTEMPTS {
            (ms + pause_when_refused(attempt + 1)) as nat
        } else {
            ms as nat
        },
        _ => 0,
    }
}

/// With no subscriber at all, a response is offered three times, with a pause of
/// 100 ms after each of the first two refusals, and then abandoned.
pub proof fn lemma_no_subscriber_three_attempts()
    ensures
        forall|k: nat|
            1 <= k < MAX_ATTEMPTS ==> #[trigger] next_step_spec(k, false) == Step::RetryAfter(
                RETRY_DELAY_MS,
            ),
        next_step_spec(MAX_ATTEMPTS as nat, false) == Step::GiveUp,
        last_attempt_refused(1) == 3,
        pause_when_refused(1) == 200,
{
    reveal_with_fuel(last_attempt_refused, 4);
    reveal_with_fuel(pause_when_refused, 4);
}

/// Relies on tokio's `broadcast::Sender`: the sending half of a fan-out channel.
#[verifier::external_type_specification]
#[verifier::external_body]
#[verifier::reject_recursive_types(T)]
pub struct ExSender<T>(tokio::sync::broadcast::Sender<T>);

/// Relies on tokio's `broadcast::Receiver`: one subscriber's receiving half.
#[verifier::external_type_specification]
#[verifier::external_body]
#[verifier::reject_recursive_types(T)]
pub struct ExReceiver<T>(tokio::sync::broadcast::Receiver<T>);

/// Relies on tokio's `broadcast::Sender::new`, which panics on a capacity of zero or
/// above `usize::MAX / 2`.
#[verifier::external_body]
fn open_sender(capacity: usize) -> (r: tokio::sync::broadcast::Sender<String>)
    requires
        0 < capacity <= usize::MAX / 2,
{
    tokio::sync::broadcast::Sender::new(capacity)
}

/// Relies on tokio's `broadcast::Sender::subscribe`: a receiver of the messages sent
/// after the call.
#[verifier::external_body]
fn subscribe_to(tx: &tokio::sync::broadcast::Sender<String>) -> (r:
    tokio::sync::broadcast::Receiver<String>) {
    tx.subscribe()
}

/// Relies on tokio's `broadcast::Sender::send`, which fails exactly when no receiver
/// is attached at the time of the call; whether it succeeds depends on that state.
#[verifier::external_body]
fn send_to(tx: &tokio::sync::broadcast::Sender<String>, msg: String) -> (r: bool) {
    tx.send(msg).is_ok()
}

/// The process-wide fan-out channel that carries serialized responses to every open
/// event stream.
pub struct Hub {
    tx: tokio::sync::broadcast::Sender<String>,
}

impl Hub {
    /// A channel with room for at least `CHANNEL_CAPACITY` pending messages (the channel
    /// rounds its capacity up to a power of two) and no subscriber.
    pub fn new() -> (r: Hub) {
        Hub { tx: open_sender(CHANNEL_CAPACITY) }
    }

    /// A subscription that receives every message published after this call.
    pub fn subscribe(&self) -> tokio::sync::broadcast::Receiver<String> {
        subscribe_to(&self.tx)
    }

    /// Makes attempt number `attempt` to publish `msg`, and says what to do next:
    /// stop if the channel took it, else wait and retry, or give up after the last.
    pub fn publish_attempt(&self, msg: &String, attempt: u32) -> (r: Step)
        requires
            1 <= attempt <= MAX_ATTEMPTS,
        ensures
            r == Step::Delivered || r == next_step_spec(attempt as nat, false),
    {
        let sent = send_to(&self.tx, msg.clone());
        next_step(attempt, sent)
    }
}

} // verus!
