//! Message processing decisions: what a worker concludes about one message, and
//! whether and how a message goes back into the buffer after an attempt.

use crate::mcp::buffer::{BufferedMessage, MessageBuffer};
use vstd::prelude::*;

verus! {

/// Calls `num_cpus::get`, the number of logical CPUs available to this process,
/// which its documentation promises to be at least one.
#[verifier::external_body]
fn cpu_count() -> (n: usize)
    ensures
        n >= 1,
{
    num_cpus::get()
}

/// Configuration for the message processor. Durations are in milliseconds.
#[derive(Debug, Clone, Copy)]
pub struct ProcessorConfig {
    /// Number of worker threads
    pub worker_count: usize,
    /// Maximum retries for failed messages
    pub max_retries: u32,
    /// Delay between retries
    pub retry_delay_ms: u64,
    /// Processing timeout
    pub timeout_ms: u64,
}

impl Default for ProcessorConfig {
    fn default() -> (c: Self)
        ensures
            c.worker_count >= 1,
            c.max_retries == 3,
            c.retry_delay_ms == 5000,
            c.timeout_ms == 30000,
    {
        ProcessorConfig {
            worker_count: cpu_count(),
            max_retries: 3,
            retry_delay_ms: 5000,
            timeout_ms: 30000,
        }
    }
}

/// Message processing result.
#[derive(Debug)]
pub enum ProcessingResult {
    /// Message processed successfully
    Success,
    /// Message processing failed, should be retried after the given milliseconds
    RetryAfter(u64),
    /// Message processing failed permanently
    Error(String),
}

/// What became of one processing attempt.
#[derive(Debug)]
pub enum AttemptOutcome {
    /// The processing finished with this result.
    Finished(ProcessingResult),
    /// The processing did not finish within the configured timeout.
    TimedOut,
}

/// Process a single message: a message that has been attempted three times or more,
/// or whose payload is empty, fails; any other succeeds.
pub fn process_message(msg: &BufferedMessage) -> (r: ProcessingResult)
    ensures
        msg.attempts >= 3 ==> (r matches ProcessingResult::Error(e) && e@ == "Max attempts reached"@),
        msg.attempts < 3 && msg.payload@.len() == 0 ==> (r matches ProcessingResult::Error(e)
            && e@ == "Empty payload"@),
        msg.attempts < 3 && msg.payload@.len() > 0 ==> r is Success,
{
    if msg.attempts >= 3 {
        ProcessingResult::Error(crate::text::owned("Max attempts reached"))
    } else if msg.payload.len() == 0 {
        ProcessingResult::Error(crate::text::owned("Empty payload"))
    } else {
        ProcessingResult::Success
    }
}

/// `now + delay`, or `now` when that sum does not fit.
pub open spec fn delayed(now: u64, delay: u64) -> u64 {
    if now + delay <= u64::MAX {
        (now + delay) as u64
    } else {
        now
    }
}

/// The message to put back into the buffer after an attempt, if any.
pub open spec fn requeued(
    msg: BufferedMessage,
    outcome: AttemptOutcome,
    config: ProcessorConfig,
    now: u64,
) -> Option<BufferedMessage> {
    match outcome {
        AttemptOutcome::Finished(ProcessingResult::Success) => None,
        AttemptOutcome::Finished(ProcessingResult::Error(_)) => if msg.attempts < config.max_retries {
            Some(
                BufferedMessage {
                    attempts: (msg.attempts + 1) as u32,
                    delay_until_ms: Some(delayed(now, config.retry_delay_ms)),
                    ..msg
                },
            )
        } else {
            None
        },
        AttemptOutcome::Finished(ProcessingResult::RetryAfter(d)) => Some(
            BufferedMessage { delay_until_ms: Some(delayed(now, d)), ..msg },
        ),
        AttemptOutcome::TimedOut => if msg.attempts < config.max_retries {
            Some(BufferedMessage { attempts: (msg.attempts + 1) as u32, ..msg })
        } else {
            None
        },
    }
}

/// Decide what goes back into the buffer after an attempt made at `now_ms`: nothing after
/// a success; after a failure or a timeout, the message with one more attempt counted while
/// attempts remain below `max_retries` (a failure also delays it by `retry_delay_ms`);
/// after a request to retry later, the message delayed by the requested time.
pub fn requeue_after(
    msg: BufferedMessage,
    outcome: &AttemptOutcome,
    config: &ProcessorConfig,
    now_ms: u64,
) -> (r: Option<BufferedMessage>)
    ensures
        r == requeued(msg, *outcome, *config, now_ms),
        *outcome matches AttemptOutcome::Finished(ProcessingResult::Success) ==> r is None,
        (*outcome is TimedOut || *outcome matches AttemptOutcome::Finished(ProcessingResult::Error(_)))
            ==> (r is Some <==> msg.attempts < config.max_retries),
        (*outcome matches AttemptOutcome::Finished(ProcessingResult::Error(_)) && r is Some) ==> {
            &&& r.unwrap().attempts == msg.attempts + 1
            &&& now_ms + config.retry_delay_ms <= u64::MAX ==> r.unwrap().delay_until_ms == Some(
                (now_ms + config.retry_delay_ms) as u64,
            )
        },
{
    proof {
        law_requeue_after_attempt(msg, *outcome, *config, now_ms);
    }
    match outcome {
        AttemptOutcome::Finished(ProcessingResult::Success) => None,
        AttemptOutcome::Finished(ProcessingResult::Error(_)) => {
            if msg.attempts < config.max_retries {
                let until = match now_ms.checked_add(config.retry_delay_ms) {
                    Some(t) => t,
                    None => now_ms,
                };
                Some(
                    BufferedMessage {
                        attempts: msg.attempts + 1,
                        delay_until_ms: Some(until),
                        ..msg
                    },
                )
            } else {
                None
            }
        },
        AttemptOutcome::Finished(ProcessingResult::RetryAfter(d)) => {
            let until = match now_ms.checked_add(*d) {
                Some(t) => t,
                None => now_ms,
            };
            Some(BufferedMessage { delay_until_ms: Some(until), ..msg })
        },
        AttemptOutcome::TimedOut => {
            if msg.attempts < config.max_retries {
                Some(BufferedMessage { attempts: msg.attempts + 1, ..msg })
            } else {
                None
            }
        },
    }
}

/// After an attempt: a success puts nothing back; a failure or a timeout puts the same
/// message back, with one more attempt counted, exactly while its attempts are below
/// `max_retries`, and a failure also holds it until `retry_delay_ms` after now (or until
/// now, where that sum does not fit); a request to retry later puts it back unchanged
/// but held for the requested time.
pub proof fn law_requeue_after_attempt(
    msg: BufferedMessage,
    outcome: AttemptOutcome,
    config: ProcessorConfig,
    now: u64,
)
    ensures
        ({
            let r = requeued(msg, outcome, config, now);
            &&& outcome matches AttemptOutcome::Finished(ProcessingResult::Success) ==> r is None
            &&& (outcome is TimedOut || outcome matches AttemptOutcome::Finished(
                ProcessingResult::Error(_),
            )) ==> (r is Some <==> msg.attempts < config.max_retries)
            &&& r matches Some(m) ==> {
                &&& m.id == msg.id
                &&& m.payload == msg.payload
                &&& m.priority == msg.priority
                &&& m.created_at_ms == msg.created_at_ms
                &&& m.max_attempts == msg.max_attempts
            }
            &&& (outcome matches AttemptOutcome::Finished(ProcessingResult::Error(_)) && r is Some) ==> {
                &&& r.unwrap().attempts == msg.attempts + 1
                &&& now + config.retry_delay_ms <= u64::MAX ==> r.unwrap().delay_until_ms == Some(
                    (now + config.retry_delay_ms) as u64,
                )
                &&& now + config.retry_delay_ms > u64::MAX ==> r.unwrap().delay_until_ms == Some(now)
            }
            &&& (outcome is TimedOut && r is Some) ==> {
                &&& r.unwrap().attempts == msg.attempts + 1
                &&& r.unwrap().delay_until_ms == msg.delay_until_ms
            }
            &&& outcome matches AttemptOutcome::Finished(ProcessingResult::RetryAfter(d)) ==> {
                &&& r is Some
                &&& r.unwrap().attempts == msg.attempts
                &&& now + d <= u64::MAX ==> r.unwrap().delay_until_ms == Some((now + d) as u64)
                &&& now + d > u64::MAX ==> r.unwrap().delay_until_ms == Some(now)
            }
        }),
{
}

/// Settle one attempt on `buffer`: the message to retry, if any, is published again.
/// Returns `None` when nothing was requeued, else the result of the publish.
pub fn settle_attempt(
    buffer: &mut MessageBuffer,
    msg: BufferedMessage,
    outcome: &AttemptOutcome,
    config: &ProcessorConfig,
    now_ms: u64,
) -> (r: Option<Result<(), String>>)
    requires
        old(buffer).wf(),
    ensures
        final(buffer).wf(),
        final(buffer).spec_config() == old(buffer).spec_config(),
        requeued(msg, *outcome, *config, now_ms) is None ==> r is None && final(buffer).queues()
            == old(buffer).queues(),
        requeued(msg, *outcome, *config, now_ms) is Some ==> r is Some,
        r matches Some(p) ==> {
            let m = requeued(msg, *outcome, *config, now_ms).unwrap();
            let accepted = m.payload.len() <= old(buffer).spec_config().max_message_size
                && old(buffer).spec_len() < old(buffer).spec_config().capacity;
            &&& p is Ok <==> accepted
            &&& p is Ok ==> final(buffer).queues() == crate::mcp::buffer::pushed(old(buffer).queues(), m)
            &&& p is Err ==> final(buffer).queues() == old(buffer).queues()
        },
{
    match requeue_after(msg, outcome, config, now_ms) {
        None => None,
        Some(m) => Some(buffer.publish(m)),
    }
}

} // verus!
