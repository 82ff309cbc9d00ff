//! The retry orchestrator: melody validation and the fixed-interval retry
//! state machine that arbitrates access to the busy device.
//!
//! The device itself is outside this crate: each open-write-close cycle is
//! performed by the caller, who reports it back as a plain
//! `Result<(), SpeakerError>` event, together with the wall-clock time spent
//! so far.  [`retry_step`] decides what follows each event; iterating it is
//! modelled by [`retry_outcome`], about which the timeout law
//! [`lemma_busy_schedule_times_out`] is proved.

use vstd::prelude::*;
use vstd::string::StrSliceExecFns;
use vstd::string::StringExecFns;
use vstd::arithmetic::div_mod::lemma_fundamental_div_mod;
use vstd::arithmetic::div_mod::lemma_mod_bound;
use vstd::arithmetic::mul::lemma_mul_inequality;
use crate::error::SpeakerError;

verus! {

/// The longest melody the gateway accepts, in characters.
pub const MAX_MELODY_CHARS: usize = 1000;

/// How long the orchestrator sleeps between attempts while the device is
/// busy.  Fixed by design: one contended device, low request volume.
pub const RETRY_INTERVAL_MS: u64 = 1000;

/// What the orchestrator does after seeing one attempt's outcome: either the
/// request is over, with its final result, or the caller should sleep for
/// [`RETRY_INTERVAL_MS`] and attempt again.
pub enum RetryAction {
    Finish(Result<u64, SpeakerError>),
    SleepAndRetry,
}

/// Rejects a melody longer than [`MAX_MELODY_CHARS`] characters; anything
/// shorter is accepted opaquely — the device interprets it, not this crate.
pub fn validate_melody(melody: &str) -> (r: Result<(), SpeakerError>)
    ensures
        r is Ok <==> melody@.len() <= MAX_MELODY_CHARS,
        melody@.len() > MAX_MELODY_CHARS ==> (r matches Err(e) && e matches
            SpeakerError::InvalidMelody(m) && m@ == "Melody exceeds 1000 characters"@),
{
    if melody.unicode_len() > MAX_MELODY_CHARS {
        Err(SpeakerError::InvalidMelody(String::from_str("Melody exceeds 1000 characters")))
    } else {
        Ok(())
    }
}

/// One decision of the retry loop, as a function of the inputs alone.
///
/// A successful write finishes with the count of busy attempts that preceded
/// it; a hard error finishes at once, never retried; a busy report finishes
/// with `Timeout` once the elapsed time has reached the budget, and otherwise
/// asks for one more attempt after a sleep.
pub open spec fn retry_step_spec(
    retries: u64,
    attempt: Result<(), SpeakerError>,
    elapsed_ms: u64,
    timeout_ms: u64,
) -> (RetryAction, u64) {
    match attempt {
        Ok(()) => (RetryAction::Finish(Ok(retries)), retries),
        Err(SpeakerError::DeviceBusy) => if elapsed_ms >= timeout_ms {
            (RetryAction::Finish(Err(SpeakerError::Timeout)), retries)
        } else {
            (RetryAction::SleepAndRetry, (retries + 1) as u64)
        },
        Err(e) => (RetryAction::Finish(Err(e)), retries),
    }
}

/// Decides what follows one device attempt.  `retries` counts the busy
/// attempts already made for this request; `elapsed_ms` is the wall-clock
/// time since the request started; the returned counter replaces `retries`
/// for the next iteration.
pub fn retry_step(
    retries: u64,
    attempt: Result<(), SpeakerError>,
    elapsed_ms: u64,
    timeout_ms: u64,
) -> (r: (RetryAction, u64))
    requires
        retries < u64::MAX,
    ensures
        r == retry_step_spec(retries, attempt, elapsed_ms, timeout_ms),
{
    match attempt {
        Ok(()) => (RetryAction::Finish(Ok(retries)), retries),
        Err(SpeakerError::DeviceBusy) => if elapsed_ms >= timeout_ms {
            (RetryAction::Finish(Err(SpeakerError::Timeout)), retries)
        } else {
            (RetryAction::SleepAndRetry, retries + 1)
        },
        Err(e) => (RetryAction::Finish(Err(e)), retries),
    }
}

/// The final result of the retry loop run over a schedule of attempt events
/// and elapsed-time readings, starting at event `i` with `retries` busy
/// attempts behind it, paired with how many events it consumes from `i` on.
/// `None` means the schedule ended before the loop decided.
pub open spec fn retry_outcome_from(
    events: Seq<Result<(), SpeakerError>>,
    elapsed_ms: Seq<u64>,
    timeout_ms: u64,
    retries: u64,
    i: int,
) -> (Option<Result<u64, SpeakerError>>, int)
    decreases events.len() - i,
{
    if i < 0 || i >= events.len() || i >= elapsed_ms.len() {
        (None, 0)
    } else {
        let (action, next_retries) = retry_step_spec(retries, events[i], elapsed_ms[i], timeout_ms);
        match action {
            RetryAction::Finish(res) => (Some(res), 1),
            RetryAction::SleepAndRetry => {
                let rec = retry_outcome_from(events, elapsed_ms, timeout_ms, next_retries, i + 1);
                (rec.0, rec.1 + 1)
            },
        }
    }
}

/// The retry loop run from the start of a schedule, with no prior attempts.
pub open spec fn retry_outcome(
    events: Seq<Result<(), SpeakerError>>,
    elapsed_ms: Seq<u64>,
    timeout_ms: u64,
) -> (Option<Result<u64, SpeakerError>>, int) {
    retry_outcome_from(events, elapsed_ms, timeout_ms, 0, 0)
}

/// Replays the retry loop over a recorded schedule: the event of each
/// attempt, paired with the elapsed time observed just after it.  Returns
/// the loop's decision and the number of attempts consumed.
#[verifier::loop_isolation(false)]
pub fn run_retry_schedule(
    events: Vec<Result<(), SpeakerError>>,
    elapsed_ms: &Vec<u64>,
    timeout_ms: u64,
) -> (r: (Option<Result<u64, SpeakerError>>, usize))
    requires
        events@.len() == elapsed_ms@.len(),
    ensures
        r.0 == retry_outcome(events@, elapsed_ms@, timeout_ms).0,
        r.1 as int == retry_outcome(events@, elapsed_ms@, timeout_ms).1,
{
    let ghost all = events@;
    let mut rest = events;
    let mut i: usize = 0;
    let mut retries: u64 = 0;
    while i < elapsed_ms.len()
        invariant
            i <= elapsed_ms@.len(),
            all.len() == elapsed_ms@.len(),
            rest@ == all.skip(i as int),
            retries as int <= i as int,
            retry_outcome(all, elapsed_ms@, timeout_ms) == ({
                let rec = retry_outcome_from(all, elapsed_ms@, timeout_ms, retries, i as int);
                (rec.0, rec.1 + i)
            }),
        decreases elapsed_ms@.len() - i,
    {
        let event = rest.remove(0);
        assert(event == all[i as int]);
        let step = retry_step(retries, event, elapsed_ms[i], timeout_ms);
        proof {
            assert(rest@ =~= all.skip(i as int + 1));
        }
        match step.0 {
            RetryAction::Finish(res) => {
                proof {
                    assert(retry_outcome_from(all, elapsed_ms@, timeout_ms, retries, i as int)
                        == (Some(res), 1int));
                }
                return (Some(res), i + 1);
            },
            RetryAction::SleepAndRetry => {
                retries = step.1;
                i = i + 1;
            },
        }
    }
    (None, i)
}

/// A schedule in which every attempt finds the device busy.
pub open spec fn busy_events(n: nat) -> Seq<Result<(), SpeakerError>> {
    Seq::new(n, |i: int| Err(SpeakerError::DeviceBusy))
}

/// The idealised elapsed-time readings of a loop whose attempts are
/// instantaneous and whose sleeps last exactly the retry interval: attempt
/// `i` observes `i` whole intervals, saturating at the largest reading.
pub open spec fn ideal_elapsed(n: nat) -> Seq<u64> {
    Seq::new(
        n,
        |i: int| if i * (RETRY_INTERVAL_MS as int) <= u64::MAX as int {
            (i * (RETRY_INTERVAL_MS as int)) as u64
        } else {
            u64::MAX
        },
    )
}

/// The first attempt index whose ideal elapsed reading has reached the
/// timeout: the timeout divided by the retry interval, rounded up.
pub open spec fn timeout_boundary(timeout_ms: u64) -> int {
    (timeout_ms as int + RETRY_INTERVAL_MS as int - 1) / (RETRY_INTERVAL_MS as int)
}

/// How many attempts a permanently busy device receives under the ideal
/// schedule: every attempt strictly inside the window, plus the one that
/// observes the window spent.
pub open spec fn busy_attempt_count(timeout_ms: u64) -> int {
    timeout_boundary(timeout_ms) + 1
}

proof fn lemma_boundary_bounds(timeout_ms: u64)
    ensures
        0 <= timeout_boundary(timeout_ms),
        timeout_boundary(timeout_ms) * (RETRY_INTERVAL_MS as int) >= timeout_ms as int,
        (timeout_boundary(timeout_ms) - 1) * (RETRY_INTERVAL_MS as int) < timeout_ms as int,
        (timeout_ms as int) / (RETRY_INTERVAL_MS as int) <= timeout_boundary(timeout_ms),
        timeout_boundary(timeout_ms) <= (timeout_ms as int) / (RETRY_INTERVAL_MS as int) + 1,
{
    let t = timeout_ms as int;
    let iv = RETRY_INTERVAL_MS as int;
    let k = timeout_boundary(timeout_ms);
    lemma_fundamental_div_mod(t + iv - 1, iv);
    lemma_mod_bound(t + iv - 1, iv);
    assert(t + iv - 1 == iv * k + (t + iv - 1) % iv);
    lemma_fundamental_div_mod(t, iv);
    lemma_mod_bound(t, iv);
}

/// However short the window, the loop makes at least one attempt.
pub proof fn lemma_busy_attempt_count_positive(timeout_ms: u64)
    ensures
        busy_attempt_count(timeout_ms) >= 1,
{
    lemma_boundary_bounds(timeout_ms);
}

proof fn lemma_busy_outcome_from(n: nat, timeout_ms: u64, retries: u64, i: int)
    requires
        0 <= i <= timeout_boundary(timeout_ms),
        n >= busy_attempt_count(timeout_ms),
    ensures
        retry_outcome_from(busy_events(n), ideal_elapsed(n), timeout_ms, retries, i) == (
            Some(Result::<u64, SpeakerError>::Err(SpeakerError::Timeout)),
            timeout_boundary(timeout_ms) - i + 1,
        ),
    decreases timeout_boundary(timeout_ms) - i,
{
    let t = timeout_ms as int;
    let iv = RETRY_INTERVAL_MS as int;
    let k = timeout_boundary(timeout_ms);
    lemma_boundary_bounds(timeout_ms);
    assert(i < n);
    assert(busy_events(n)[i] == Result::<(), SpeakerError>::Err(SpeakerError::DeviceBusy));
    if i == k {
        // The reading at the boundary has reached the timeout, saturated or not.
        if i * iv <= u64::MAX as int {
            assert(ideal_elapsed(n)[i] == (i * iv) as u64);
            assert(i * iv >= t);
        } else {
            assert(ideal_elapsed(n)[i] == u64::MAX);
        }
        assert(ideal_elapsed(n)[i] >= timeout_ms);
    } else {
        // Strictly inside the window: the reading is exact and below the timeout.
        lemma_mul_inequality(i, k - 1, iv);
        assert(i * iv <= (k - 1) * iv);
        assert(0 <= i * iv) by {
            lemma_mul_inequality(0, i, iv);
        }
        assert(ideal_elapsed(n)[i] == (i * iv) as u64);
        assert(ideal_elapsed(n)[i] < timeout_ms);
        lemma_busy_outcome_from(n, timeout_ms, (retries + 1) as u64, i + 1);
    }
}

/// Law: a device that stays busy for the entire retry window makes the
/// request time out.  Under the ideal schedule the loop performs one attempt
/// per whole interval inside the window and one final attempt that observes
/// the window spent: at least one attempt, and within one of
/// `timeout / interval`.
pub proof fn lemma_busy_schedule_times_out(n: nat, timeout_ms: u64)
    requires
        n >= busy_attempt_count(timeout_ms),
    ensures
        ({
            let r = retry_outcome(busy_events(n), ideal_elapsed(n), timeout_ms);
            &&& r.0 == Some(Result::<u64, SpeakerError>::Err(SpeakerError::Timeout))
            &&& r.1 == busy_attempt_count(timeout_ms)
            &&& r.1 >= 1
            &&& (timeout_ms as int) / (RETRY_INTERVAL_MS as int) + 1 <= r.1
            &&& r.1 <= (timeout_ms as int) / (RETRY_INTERVAL_MS as int) + 2
        }),
{
    lemma_boundary_bounds(timeout_ms);
    lemma_busy_outcome_from(n, timeout_ms, 0, 0);
}

/// Whether a character survives into the log line for a request.
pub open spec fn loggable_char(c: char) -> bool {
    (0x09 <= c as u32 && c as u32 <= 0x0d) || (0x20 <= c as u32 && c as u32 <= 0x7e)
}

/// Keeps exactly the characters of the melody that are safe to echo into a
/// log line — ASCII text, punctuation and whitespace — and drops the rest.
pub fn printable_melody(melody: &str) -> (r: String)
    ensures
        r@ == melody@.filter(|c: char| loggable_char(c)),
{
    let n = melody.unicode_len();
    let mut out = String::new();
    let mut i: usize = 0;
    proof {
        reveal(Seq::filter);
        assert(melody@.subrange(0, 0).filter(|c: char| loggable_char(c)) =~= Seq::<char>::empty());
    }
    while i < n
        invariant
            n == melody@.len(),
            i <= n,
            out@ == melody@.subrange(0, i as int).filter(|c: char| loggable_char(c)),
        decreases n - i,
    {
        let c = melody.get_char(i);
        let u = c as u32;
        if (0x09 <= u && u <= 0x0d) || (0x20 <= u && u <= 0x7e) {
            out.append(melody.substring_char(i, i + 1));
        }
        proof {
            reveal(Seq::filter);
            let s = melody@;
            assert(s.subrange(0, i as int + 1).drop_last() =~= s.subrange(0, i as int));
            assert(s.subrange(0, i as int + 1).last() == s[i as int]);
            assert(out@ =~= s.subrange(0, i as int + 1).filter(|c: char| loggable_char(c)));
        }
        i = i + 1;
    }
    proof {
        assert(melody@.subrange(0, n as int) =~= melody@);
    }
    out
}

} // verus!
