//! The request gateway: from the raw bytes of one HTTP request body to the
//! reply the caller sees.
//!
//! [`melody_from_body`] decodes and validates the body before any device
//! work; [`outcome_to_response`] maps the orchestrator's final outcome to a
//! status code and a human-readable body.  The composition of gateway,
//! orchestrator and device is modelled by [`process_request`] and
//! [`process_sequence`], about which the request-level laws at the end of
//! this module are proved.

use vstd::prelude::*;
use vstd::string::StringExecFns;
use vstd::utf8::valid_utf8;
use vstd::utf8::decode_utf8;
use crate::error::SpeakerError;
use crate::speaker::MAX_MELODY_CHARS;
use crate::speaker::busy_attempt_count;
use crate::speaker::busy_events;
use crate::speaker::ideal_elapsed;
use crate::speaker::lemma_busy_attempt_count_positive;
use crate::speaker::lemma_busy_schedule_times_out;
use crate::speaker::retry_outcome;
use crate::speaker::validate_melody;
use crate::speaker::RETRY_INTERVAL_MS;

verus! {

/// Relies on `String::from_utf8`: it succeeds exactly on the byte sequences
/// that `vstd::utf8::valid_utf8` admits, and then returns the text whose
/// characters are `vstd::utf8::decode_utf8` of the bytes.
#[verifier::external_body]
fn decode_body(bytes: Vec<u8>) -> (r: Option<String>)
    ensures
        r is Some <==> valid_utf8(bytes@),
        r matches Some(s) ==> s@ == decode_utf8(bytes@),
{
    String::from_utf8(bytes).ok()
}

/// Whether the gateway turns the raw body away before any device work: the
/// bytes are not UTF-8, or the decoded melody is too long.
pub open spec fn body_rejected(bytes: Seq<u8>) -> bool {
    !valid_utf8(bytes) || decode_utf8(bytes).len() > MAX_MELODY_CHARS
}

/// The explanation a rejected body is answered with.
pub open spec fn rejection_message(bytes: Seq<u8>) -> Seq<char> {
    if !valid_utf8(bytes) {
        "Invalid UTF-8 in melody data"@
    } else {
        "Melody exceeds 1000 characters"@
    }
}

/// Decodes a request body into the melody to be played, or the validation
/// error that rejects it: non-UTF-8 bytes and over-long melodies are turned
/// away here, before the device is ever touched.
pub fn melody_from_body(bytes: Vec<u8>) -> (r: Result<String, SpeakerError>)
    ensures
        r is Ok <==> !body_rejected(bytes@),
        r matches Ok(m) ==> m@ == decode_utf8(bytes@),
        r matches Err(e) ==> (e matches SpeakerError::InvalidMelody(m) && m@ == rejection_message(
            bytes@,
        )),
{
    match decode_body(bytes) {
        None => Err(
            SpeakerError::InvalidMelody(String::from_str("Invalid UTF-8 in melody data")),
        ),
        Some(m) => match validate_melody(m.as_str()) {
            Ok(()) => Ok(m),
            Err(e) => Err(e),
        },
    }
}

/// The status code each outcome is reported with: success, a client error,
/// the device busy past its window, or a device failure.
pub open spec fn response_status(outcome: Result<u64, SpeakerError>) -> u16 {
    match outcome {
        Ok(_) => 200,
        Err(SpeakerError::InvalidMelody(_)) => 400,
        Err(SpeakerError::Timeout) => 503,
        Err(SpeakerError::DeviceBusy) => 503,
        Err(SpeakerError::DeviceError(_)) => 500,
    }
}

/// The body each outcome is reported with: empty on success, an explanation
/// otherwise.
pub open spec fn response_body_text(outcome: Result<u64, SpeakerError>) -> Seq<char> {
    match outcome {
        Ok(_) => Seq::<char>::empty(),
        Err(SpeakerError::InvalidMelody(m)) => m@,
        Err(SpeakerError::Timeout) => "Device busy - request timed out"@,
        Err(SpeakerError::DeviceBusy) => "Device busy"@,
        Err(SpeakerError::DeviceError(e)) => "Device error: "@ + e@,
    }
}

/// A transport-level reply: a status code and a plain-text body.
#[derive(Debug, PartialEq, Eq)]
pub struct PlayResponse {
    pub status: u16,
    pub body: String,
}

/// Maps the final outcome of a play request to the reply its caller sees.
pub fn outcome_to_response(outcome: Result<u64, SpeakerError>) -> (r: PlayResponse)
    ensures
        r.status == response_status(outcome),
        r.body@ == response_body_text(outcome),
{
    match outcome {
        Ok(_) => PlayResponse { status: 200, body: String::new() },
        Err(SpeakerError::InvalidMelody(m)) => PlayResponse { status: 400, body: m },
        Err(SpeakerError::Timeout) => PlayResponse {
            status: 503,
            body: String::from_str("Device busy - request timed out"),
        },
        Err(SpeakerError::DeviceBusy) => PlayResponse {
            status: 503,
            body: String::from_str("Device busy"),
        },
        Err(SpeakerError::DeviceError(e)) => PlayResponse {
            status: 500,
            body: String::from_str("Device error: ").concat(e.as_str()),
        },
    }
}

/// A model of the device resource: the text it last accepted, and whether
/// some other writer holds it for the duration under consideration.
pub struct DeviceModel {
    pub content: Seq<char>,
    pub held: bool,
}

/// What a request's attempts observe: a held device reports busy at every
/// attempt, an uncontended one accepts every write.
pub open spec fn device_events(dev: DeviceModel, n: nat) -> Seq<Result<(), SpeakerError>> {
    if dev.held {
        busy_events(n)
    } else {
        Seq::new(n, |i: int| Ok(()))
    }
}

/// The device once a request carrying `melody` has run against it: an
/// uncontended device holds the new text, a held one is never written.
pub open spec fn device_after(dev: DeviceModel, melody: Seq<char>) -> DeviceModel {
    if dev.held {
        dev
    } else {
        DeviceModel { content: melody, held: false }
    }
}

/// Everything observable from one request processed against a device whose
/// contention does not change while it runs: the reply, the device
/// afterwards, and the number of write attempts made.
pub struct ProcessResult {
    pub status: u16,
    pub body: Seq<char>,
    pub dev: DeviceModel,
    pub attempts: int,
}

/// One request, from raw body bytes to reply, against the modelled device.
/// A rejected body is answered without any attempt; otherwise the melody
/// reaches the orchestrator, which succeeds at the first attempt on an
/// uncontended device and exhausts the retry window on a held one.
pub open spec fn process_request(bytes: Seq<u8>, dev: DeviceModel, timeout_ms: u64) -> ProcessResult {
    if body_rejected(bytes) {
        ProcessResult { status: 400, body: rejection_message(bytes), dev: dev, attempts: 0 }
    } else if !dev.held {
        let outcome = Result::<u64, SpeakerError>::Ok(0);
        ProcessResult {
            status: response_status(outcome),
            body: response_body_text(outcome),
            dev: device_after(dev, decode_utf8(bytes)),
            attempts: 1,
        }
    } else {
        let outcome = Result::<u64, SpeakerError>::Err(SpeakerError::Timeout);
        ProcessResult {
            status: response_status(outcome),
            body: response_body_text(outcome),
            dev: dev,
            attempts: busy_attempt_count(timeout_ms),
        }
    }
}

/// The requests of several bodies processed in order against one device,
/// each seeing the device as the one before left it.
pub open spec fn process_sequence(bodies: Seq<Seq<u8>>, dev: DeviceModel, timeout_ms: u64) -> (
    Seq<ProcessResult>,
    DeviceModel,
)
    decreases bodies.len(),
{
    if bodies.len() == 0 {
        (Seq::<ProcessResult>::empty(), dev)
    } else {
        let first = process_request(bodies[0], dev, timeout_ms);
        let rest = process_sequence(bodies.drop_first(), first.dev, timeout_ms);
        (seq![first] + rest.0, rest.1)
    }
}

/// Law: a well-formed melody sent to an uncontended device succeeds at the
/// first attempt, with no retries: the reply is 200 with an empty body, the
/// device afterwards holds exactly the melody's text — whose encoding is the
/// very byte sequence of the request body — and exactly one write attempt is
/// made: the retry loop accepts the first event of every such schedule.
pub proof fn lemma_uncontended_success(bytes: Seq<u8>, dev: DeviceModel, timeout_ms: u64)
    requires
        valid_utf8(bytes),
        decode_utf8(bytes).len() <= MAX_MELODY_CHARS,
        !dev.held,
    ensures
        process_request(bytes, dev, timeout_ms).status == 200,
        process_request(bytes, dev, timeout_ms).body == Seq::<char>::empty(),
        process_request(bytes, dev, timeout_ms).dev.content == decode_utf8(bytes),
        vstd::utf8::encode_utf8(process_request(bytes, dev, timeout_ms).dev.content) == bytes,
        !process_request(bytes, dev, timeout_ms).dev.held,
        process_request(bytes, dev, timeout_ms).attempts == 1,
        forall|n: nat|
            n >= 1 ==> retry_outcome(device_events(dev, n), ideal_elapsed(n), timeout_ms) == (
                Some(Result::<u64, SpeakerError>::Ok(0)),
                1int,
            ),
{
    vstd::utf8::decode_utf8_encode_utf8(bytes);
    assert forall|n: nat|
        n >= 1 implies retry_outcome(device_events(dev, n), ideal_elapsed(n), timeout_ms) == (
        Some(Result::<u64, SpeakerError>::Ok(0)),
        1int,
    ) by {
        assert(device_events(dev, n)[0] == Result::<(), SpeakerError>::Ok(()));
        assert(ideal_elapsed(n).len() == n);
    };
}

/// Law: a request whose body does not reach the retry window — the device is
/// held by another writer throughout — is answered 503 after the whole
/// window is spent: at least one attempt, one per whole interval inside the
/// window, and the device is never written.
pub proof fn lemma_held_device_times_out(bytes: Seq<u8>, dev: DeviceModel, timeout_ms: u64)
    requires
        valid_utf8(bytes),
        decode_utf8(bytes).len() <= MAX_MELODY_CHARS,
        dev.held,
    ensures
        process_request(bytes, dev, timeout_ms).status == 503,
        process_request(bytes, dev, timeout_ms).body == "Device busy - request timed out"@,
        process_request(bytes, dev, timeout_ms).dev == dev,
        process_request(bytes, dev, timeout_ms).attempts >= 1,
        (timeout_ms as int) / (RETRY_INTERVAL_MS as int) + 1 <= process_request(
            bytes,
            dev,
            timeout_ms,
        ).attempts <= (timeout_ms as int) / (RETRY_INTERVAL_MS as int) + 2,
        retry_outcome(
            device_events(dev, busy_attempt_count(timeout_ms) as nat),
            ideal_elapsed(busy_attempt_count(timeout_ms) as nat),
            timeout_ms,
        ) == (Some(Result::<u64, SpeakerError>::Err(SpeakerError::Timeout)), busy_attempt_count(
            timeout_ms,
        )),
{
    lemma_busy_attempt_count_positive(timeout_ms);
    lemma_busy_schedule_times_out(busy_attempt_count(timeout_ms) as nat, timeout_ms);
}

/// Law: a melody longer than the bound is turned away with the exact
/// explanation, the device is never opened, and the executable mapping
/// agrees: any error value carrying that explanation is answered 400 with
/// the explanation as body.
pub proof fn lemma_overlong_rejected(bytes: Seq<u8>, dev: DeviceModel, timeout_ms: u64)
    requires
        valid_utf8(bytes),
        decode_utf8(bytes).len() > MAX_MELODY_CHARS,
    ensures
        process_request(bytes, dev, timeout_ms).status == 400,
        process_request(bytes, dev, timeout_ms).body == "Melody exceeds 1000 characters"@,
        process_request(bytes, dev, timeout_ms).dev == dev,
        process_request(bytes, dev, timeout_ms).attempts == 0,
        forall|m: String|
            m@ == rejection_message(bytes) ==> response_status(
                Err(SpeakerError::InvalidMelody(m)),
            ) == 400 && response_body_text(Err(SpeakerError::InvalidMelody(m))) == m@,
{
}

/// Law: a body that is not UTF-8 is turned away with the exact explanation,
/// the device is never opened, and the executable mapping agrees.
pub proof fn lemma_invalid_utf8_rejected(bytes: Seq<u8>, dev: DeviceModel, timeout_ms: u64)
    requires
        !valid_utf8(bytes),
    ensures
        process_request(bytes, dev, timeout_ms).status == 400,
        process_request(bytes, dev, timeout_ms).body == "Invalid UTF-8 in melody data"@,
        process_request(bytes, dev, timeout_ms).dev == dev,
        process_request(bytes, dev, timeout_ms).attempts == 0,
        forall|m: String|
            m@ == rejection_message(bytes) ==> response_status(
                Err(SpeakerError::InvalidMelody(m)),
            ) == 400 && response_body_text(Err(SpeakerError::InvalidMelody(m))) == m@,
{
}

/// Law: repeating a rejected request any number of times never writes to the
/// device and always yields the same reply — the rejection depends on the
/// body alone.
pub proof fn lemma_rejected_repeat_harmless(
    bytes: Seq<u8>,
    dev: DeviceModel,
    timeout_ms: u64,
    n: nat,
)
    requires
        body_rejected(bytes),
    ensures
        ({
            let (replies, after) = process_sequence(Seq::new(n, |i: int| bytes), dev, timeout_ms);
            &&& after == dev
            &&& replies.len() == n
            &&& forall|i: int|
                0 <= i < n ==> replies[i] == process_request(bytes, dev, timeout_ms)
            &&& forall|i: int| 0 <= i < n ==> replies[i].status == 400 && replies[i].attempts == 0
        }),
    decreases n,
{
    if n > 0 {
        let bodies = Seq::new(n, |i: int| bytes);
        assert(bodies.drop_first() =~= Seq::new((n - 1) as nat, |i: int| bytes));
        lemma_rejected_repeat_harmless(bytes, dev, timeout_ms, (n - 1) as nat);
    }
}

/// Law: two melodies sent one after the other to an uncontended device both
/// succeed, and the device is left holding the second — last write wins.
pub proof fn lemma_last_write_wins(
    first_bytes: Seq<u8>,
    second_bytes: Seq<u8>,
    dev: DeviceModel,
    timeout_ms: u64,
)
    requires
        !dev.held,
        valid_utf8(first_bytes),
        decode_utf8(first_bytes).len() <= MAX_MELODY_CHARS,
        valid_utf8(second_bytes),
        decode_utf8(second_bytes).len() <= MAX_MELODY_CHARS,
    ensures
        ({
            let (replies, after) = process_sequence(
                seq![first_bytes, second_bytes],
                dev,
                timeout_ms,
            );
            &&& replies.len() == 2
            &&& replies[0].status == 200 && replies[0].body == Seq::<char>::empty()
            &&& replies[1].status == 200 && replies[1].body == Seq::<char>::empty()
            &&& after.content == decode_utf8(second_bytes)
            &&& !after.held
        }),
{
    let bodies = seq![first_bytes, second_bytes];
    let tail = seq![second_bytes];
    lemma_uncontended_success(first_bytes, dev, timeout_ms);
    let r1 = process_request(first_bytes, dev, timeout_ms);
    lemma_uncontended_success(second_bytes, r1.dev, timeout_ms);
    let r2 = process_request(second_bytes, r1.dev, timeout_ms);
    assert(bodies.drop_first() =~= tail);
    assert(tail.drop_first() =~= Seq::<Seq<u8>>::empty());
    assert(tail[0] == second_bytes);
    assert(process_request(tail[0], r1.dev, timeout_ms) == r2);
    assert(process_sequence(Seq::<Seq<u8>>::empty(), r2.dev, timeout_ms).0
        == Seq::<ProcessResult>::empty());
    assert(process_sequence(Seq::<Seq<u8>>::empty(), r2.dev, timeout_ms).1 == r2.dev);
    assert(process_sequence(tail, r1.dev, timeout_ms).0 =~= seq![r2]);
    assert(process_sequence(bodies, dev, timeout_ms).0 =~= seq![r1] + process_sequence(
        tail,
        r1.dev,
        timeout_ms,
    ).0);
    assert(process_sequence(bodies, dev, timeout_ms).0[0] == r1);
    assert(process_sequence(bodies, dev, timeout_ms).0[1] == r2);
}

} // verus!
