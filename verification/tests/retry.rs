use rustlingo::error::TranslateError;
use rustlingo::retry::{
    replay, Replay, RetryDecision, RetryState, INITIAL_RETRY_DELAY_MS, MAX_RETRIES,
    MAX_RETRY_DELAY_MS,
};
use rustlingo::translator::Translator;
use rustlingo::types::{
    HttpResponse, TranslateData, TranslateResponse, Translation, TranslationResult,
};

fn rejected(status: u16, body: &str) -> HttpResponse {
    HttpResponse {
        status,
        body: Some(body.to_string()),
        decoded: Err("expected value at line 1 column 1".to_string()),
    }
}

fn translated(text: &str, detected: Option<&str>) -> HttpResponse {
    HttpResponse {
        status: 200,
        body: None,
        decoded: Ok(TranslateResponse {
            data: TranslateData {
                translations: vec![Translation {
                    translated_text: text.to_string(),
                    detected_source_language: detected.map(|language| language.to_string()),
                }],
            },
        }),
    }
}

fn empty_list() -> HttpResponse {
    HttpResponse {
        status: 200,
        body: Some(r#"{"data":{"translations":[]}}"#.to_string()),
        decoded: Ok(TranslateResponse { data: TranslateData { translations: vec![] } }),
    }
}

fn too_many_requests() -> TranslateError {
    TranslateError::HttpStatusFailure { status: 429, body: "Too Many Requests".to_string() }
}

/// Runs a call as a caller would: one response per attempt, a wait recorded in
/// place of each sleep.
fn translate_over(
    responses: Vec<HttpResponse>,
) -> (Result<TranslationResult, TranslateError>, Vec<u64>, usize) {
    let translator = Translator::new("test_key".to_string());
    let mut state = RetryState::new();
    let mut waits = Vec::new();
    let mut attempts = 0;
    for response in &responses {
        attempts += 1;
        match state.decide(translator.parse_response(response)) {
            RetryDecision::Success(result) => return (Ok(result), waits, attempts),
            RetryDecision::Failed(error) => return (Err(error), waits, attempts),
            RetryDecision::Retry { wait_ms, next } => {
                waits.push(wait_ms);
                state = next;
            }
        }
    }
    panic!("the responses ran out before the call ended");
}

#[test]
fn succeeds_after_three_rate_limited_attempts() {
    let responses = vec![
        rejected(429, "Too Many Requests"),
        rejected(429, "Too Many Requests"),
        rejected(429, "Too Many Requests"),
        translated("Hola", Some("en")),
        translated("never read", None),
    ];
    let (outcome, waits, attempts) = translate_over(responses);
    assert_eq!(outcome, Ok(TranslationResult::new("Hola".to_string(), Some("en".to_string()))));
    assert_eq!(waits, vec![1000, 2000, 4000]);
    assert_eq!(attempts, 4);
}

#[test]
fn gives_up_after_six_rate_limited_attempts() {
    let mut responses = Vec::new();
    for attempt in 1..=8 {
        responses.push(rejected(429, &format!("attempt {}", attempt)));
    }
    let (outcome, waits, attempts) = translate_over(responses);
    assert_eq!(
        outcome,
        Err(TranslateError::HttpStatusFailure { status: 429, body: "attempt 6".to_string() })
    );
    assert_eq!(attempts, 6);
    assert_eq!(attempts, 1 + MAX_RETRIES as usize);
    assert_eq!(waits, vec![1000, 2000, 4000, 8000, 16000]);
    assert_eq!(waits.iter().sum::<u64>(), 31000);
}

#[test]
fn server_error_fails_at_once() {
    let (outcome, waits, attempts) =
        translate_over(vec![rejected(500, "Internal Server Error"), translated("Hola", None)]);
    assert_eq!(
        outcome,
        Err(TranslateError::HttpStatusFailure {
            status: 500,
            body: "Internal Server Error".to_string()
        })
    );
    assert_eq!(waits, Vec::<u64>::new());
    assert_eq!(attempts, 1);
}

#[test]
fn empty_translation_list_fails_at_once() {
    let (outcome, waits, attempts) = translate_over(vec![empty_list(), translated("Hola", None)]);
    assert_eq!(outcome, Err(TranslateError::EmptyTranslationList));
    assert_eq!(waits, Vec::<u64>::new());
    assert_eq!(attempts, 1);
}

#[test]
fn first_attempt_success_needs_no_wait() {
    let (outcome, waits, attempts) = translate_over(vec![translated("Bonjour", None)]);
    assert_eq!(outcome, Ok(TranslationResult::new("Bonjour".to_string(), None)));
    assert_eq!(waits, Vec::<u64>::new());
    assert_eq!(attempts, 1);
}

#[test]
fn terminal_failure_after_retries_is_handed_out() {
    let responses = vec![
        rejected(403, "userRateLimitExceeded"),
        rejected(429, ""),
        rejected(404, "Not Found"),
    ];
    let (outcome, waits, attempts) = translate_over(responses);
    assert_eq!(
        outcome,
        Err(TranslateError::HttpStatusFailure { status: 404, body: "Not Found".to_string() })
    );
    assert_eq!(waits, vec![1000, 2000]);
    assert_eq!(attempts, 3);
}

#[test]
fn new_state_starts_at_the_initial_delay() {
    let state = RetryState::new();
    assert_eq!(state.attempts_made, 0);
    assert_eq!(state.current_delay, 1000);
    assert_eq!(INITIAL_RETRY_DELAY_MS, 1000);
    assert_eq!(MAX_RETRY_DELAY_MS, 32000);
    assert_eq!(MAX_RETRIES, 5);
}

#[test]
fn delays_double_up_to_the_cap() {
    let mut state = RetryState::new();
    let mut delays = Vec::new();
    let mut next_delays = Vec::new();
    loop {
        match state.decide(Err(too_many_requests())) {
            RetryDecision::Retry { wait_ms, next } => {
                delays.push(wait_ms);
                next_delays.push(next.current_delay);
                assert_eq!(next.attempts_made, state.attempts_made + 1);
                state = next;
            }
            RetryDecision::Failed(error) => {
                assert_eq!(error, too_many_requests());
                break;
            }
            RetryDecision::Success(_) => panic!("a failure cannot succeed"),
        }
    }
    assert_eq!(delays, vec![1000, 2000, 4000, 8000, 16000]);
    assert_eq!(next_delays, vec![2000, 4000, 8000, 16000, 32000]);
    assert_eq!(state, RetryState { attempts_made: 5, current_delay: 32000 });
}

#[test]
fn delay_stays_at_the_cap() {
    let state = RetryState { attempts_made: 2, current_delay: 32000 };
    assert_eq!(
        state.decide(Err(too_many_requests())),
        RetryDecision::Retry {
            wait_ms: 32000,
            next: RetryState { attempts_made: 3, current_delay: 32000 }
        }
    );
    let odd = RetryState { attempts_made: 0, current_delay: 16001 };
    assert_eq!(
        odd.decide(Err(too_many_requests())),
        RetryDecision::Retry {
            wait_ms: 16001,
            next: RetryState { attempts_made: 1, current_delay: 32000 }
        }
    );
    let huge = RetryState { attempts_made: 0, current_delay: u64::MAX };
    assert_eq!(
        huge.decide(Err(too_many_requests())),
        RetryDecision::Retry {
            wait_ms: u64::MAX,
            next: RetryState { attempts_made: 1, current_delay: 32000 }
        }
    );
}

#[test]
fn exhausted_state_does_not_retry() {
    let state = RetryState { attempts_made: 5, current_delay: 32000 };
    assert_eq!(
        state.decide(Err(too_many_requests())),
        RetryDecision::Failed(too_many_requests())
    );
    let fourth = RetryState { attempts_made: 4, current_delay: 16000 };
    assert_eq!(
        fourth.decide(Err(too_many_requests())),
        RetryDecision::Retry {
            wait_ms: 16000,
            next: RetryState { attempts_made: 5, current_delay: 32000 }
        }
    );
}

#[test]
fn success_ends_the_call_in_any_state() {
    let state = RetryState { attempts_made: 5, current_delay: 32000 };
    assert_eq!(
        state.decide(Ok(TranslationResult::new("Hola".to_string(), None))),
        RetryDecision::Success(TranslationResult::new("Hola".to_string(), None))
    );
}

#[test]
fn transport_failure_is_not_retried() {
    let failure = TranslateError::TransportFailure { detail: "connection refused".to_string() };
    assert_eq!(
        RetryState::new().decide(Err(TranslateError::TransportFailure {
            detail: "connection refused".to_string()
        })),
        RetryDecision::Failed(failure)
    );
}

#[test]
fn replay_of_three_rate_limits_then_success() {
    let played = replay(vec![
        Err(too_many_requests()),
        Err(too_many_requests()),
        Err(too_many_requests()),
        Ok(TranslationResult::new("Hola".to_string(), None)),
        Err(TranslateError::EmptyTranslationList),
    ]);
    assert_eq!(
        played,
        Replay {
            waits: vec![1000, 2000, 4000],
            end: Some(Ok(TranslationResult::new("Hola".to_string(), None))),
            attempts: 4,
        }
    );
}

#[test]
fn replay_of_endless_rate_limits() {
    let mut outcomes = Vec::new();
    for attempt in 1..=10 {
        outcomes.push(Err(TranslateError::HttpStatusFailure {
            status: 429,
            body: format!("attempt {}", attempt),
        }));
    }
    let played = replay(outcomes);
    assert_eq!(played.waits, vec![1000, 2000, 4000, 8000, 16000]);
    assert_eq!(
        played.end,
        Some(Err(TranslateError::HttpStatusFailure { status: 429, body: "attempt 6".to_string() }))
    );
    assert_eq!(played.attempts, 6);
}

#[test]
fn replay_that_runs_out_has_no_end() {
    let played = replay(vec![Err(too_many_requests()), Err(too_many_requests())]);
    assert_eq!(played, Replay { waits: vec![1000, 2000], end: None, attempts: 2 });
    let nothing = replay(vec![]);
    assert_eq!(nothing, Replay { waits: vec![], end: None, attempts: 0 });
}

#[test]
fn replay_of_a_terminal_failure() {
    let played = replay(vec![
        Err(TranslateError::HttpStatusFailure { status: 500, body: "boom".to_string() }),
        Ok(TranslationResult::new("Hola".to_string(), None)),
    ]);
    assert_eq!(played.waits, Vec::<u64>::new());
    assert_eq!(
        played.end,
        Some(Err(TranslateError::HttpStatusFailure { status: 500, body: "boom".to_string() }))
    );
    assert_eq!(played.attempts, 1);
}
