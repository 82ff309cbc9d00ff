// End-to-end gateway behaviour against a mock device: a byte buffer that
// accepts every write, standing in for an uncontended device file.

use spkrd::error::SpeakerError;
use spkrd::server::melody_from_body;
use spkrd::server::outcome_to_response;
use spkrd::server::PlayResponse;
use spkrd::speaker::retry_step;
use spkrd::speaker::RetryAction;

/// Mirrors the serving loop for a device that accepts the first write:
/// decode and validate the body, write once, map the outcome.
fn play_against_free_device(body: Vec<u8>, device: &mut Vec<u8>, timeout_ms: u64) -> PlayResponse {
    let melody = match melody_from_body(body) {
        Ok(m) => m,
        Err(e) => return outcome_to_response(Err(e)),
    };
    device.clear();
    device.extend_from_slice(melody.as_bytes());
    let (action, _retries) = retry_step(0, Ok(()), 0, timeout_ms);
    match action {
        RetryAction::Finish(outcome) => outcome_to_response(outcome),
        RetryAction::SleepAndRetry => panic!("a successful attempt cannot ask for a retry"),
    }
}

#[test]
fn test_server_with_file_device() {
    let mut device: Vec<u8> = Vec::new();
    let melody = "cdefgab";

    let response = play_against_free_device(melody.as_bytes().to_vec(), &mut device, 30_000);

    assert_eq!(response.status, 200);
    assert_eq!(response.body, "");
    assert_eq!(device, melody.as_bytes());
}

#[test]
fn test_melody_validation() {
    let mut device: Vec<u8> = Vec::new();
    let melody = "c".repeat(1001);

    let response = play_against_free_device(melody.into_bytes(), &mut device, 30_000);

    assert_eq!(response.status, 400);
    assert!(response.body.contains("exceeds 1000 characters"));
    assert_eq!(device, b"");
}

#[test]
fn test_multiple_requests() {
    let mut device: Vec<u8> = Vec::new();

    let melody1 = "cdefg";
    let response1 = play_against_free_device(melody1.as_bytes().to_vec(), &mut device, 30_000);
    assert_eq!(response1.status, 200);

    let melody2 = "abcde";
    let response2 = play_against_free_device(melody2.as_bytes().to_vec(), &mut device, 30_000);
    assert_eq!(response2.status, 200);

    assert_eq!(device, melody2.as_bytes());
}

#[test]
fn test_invalid_utf8() {
    let mut device: Vec<u8> = Vec::new();
    let invalid_utf8 = vec![0xFF, 0xFE, 0xFD];

    let response = play_against_free_device(invalid_utf8, &mut device, 30_000);

    assert_eq!(response.status, 400);
    assert!(response.body.contains("Invalid UTF-8"));
    assert_eq!(device, b"");
}

#[test]
fn test_melody_at_the_bound_is_accepted() {
    let melody = "g".repeat(1000);
    let decoded = melody_from_body(melody.clone().into_bytes()).expect("1000 characters fit");
    assert_eq!(decoded, melody);
}

#[test]
fn test_length_counts_characters_not_bytes() {
    // 600 two-byte characters: 1200 bytes, but only 600 characters.
    let melody = "é".repeat(600);
    assert_eq!(melody.as_bytes().len(), 1200);
    let decoded = melody_from_body(melody.clone().into_bytes()).expect("600 characters fit");
    assert_eq!(decoded, melody);
}

#[test]
fn test_empty_body_is_accepted() {
    let decoded = melody_from_body(Vec::new()).expect("an empty melody is valid");
    assert_eq!(decoded, "");
}

#[test]
fn test_decoded_melody_matches_bytes() {
    let decoded = melody_from_body("dó re mí".as_bytes().to_vec()).expect("valid UTF-8");
    assert_eq!(decoded, "dó re mí");
}

#[test]
fn test_overlong_rejection_error_variant() {
    let melody = "x".repeat(1500);
    match melody_from_body(melody.into_bytes()) {
        Err(SpeakerError::InvalidMelody(msg)) => {
            assert_eq!(msg, "Melody exceeds 1000 characters");
        }
        other => panic!("expected InvalidMelody, got {:?}", other),
    }
}
