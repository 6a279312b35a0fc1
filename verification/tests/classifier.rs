use rustlingo::classify::{is_rate_limit_error, is_rate_limit_text};
use rustlingo::error::TranslateError;

fn status_failure(status: u16, body: &str) -> TranslateError {
    TranslateError::HttpStatusFailure { status, body: body.to_string() }
}

#[test]
fn throttling_statuses_are_retryable() {
    assert!(is_rate_limit_error(&status_failure(429, "")));
    assert!(is_rate_limit_error(&status_failure(403, "")));
    assert!(is_rate_limit_error(&status_failure(429, "Too Many Requests")));
}

#[test]
fn other_statuses_are_terminal() {
    assert!(!is_rate_limit_error(&status_failure(500, "Internal Server Error")));
    assert!(!is_rate_limit_error(&status_failure(400, "Bad Request")));
    assert!(!is_rate_limit_error(&status_failure(404, "Not Found")));
    assert!(!is_rate_limit_error(&status_failure(503, "")));
}

#[test]
fn marks_in_the_body_are_retryable() {
    assert!(is_rate_limit_error(&status_failure(400, "rate limit exceeded")));
    assert!(is_rate_limit_error(&status_failure(400, "reason: userRateLimitExceeded")));
    assert!(is_rate_limit_error(&status_failure(400, "Quota exceeded for this project")));
    assert!(is_rate_limit_error(&status_failure(500, "upstream said 429")));
}

#[test]
fn marks_are_found_whatever_their_case() {
    assert!(is_rate_limit_text("RATE LIMIT"));
    assert!(is_rate_limit_text("Rate Limit Exceeded"));
    assert!(is_rate_limit_text("dailyQUOTA"));
    assert!(is_rate_limit_text("UserRate"));
}

#[test]
fn texts_without_a_mark_are_not_found() {
    assert!(!is_rate_limit_text(""));
    assert!(!is_rate_limit_text("rate  limit"));
    assert!(!is_rate_limit_text("ratelimit"));
    assert!(!is_rate_limit_text("quot"));
    assert!(!is_rate_limit_text("4 0 3"));
    assert!(!is_rate_limit_text("user rate"));
    assert!(!is_rate_limit_text("connection refused"));
}

#[test]
fn marks_at_the_edges_are_found() {
    assert!(is_rate_limit_text("403"));
    assert!(is_rate_limit_text("x429"));
    assert!(is_rate_limit_text("quota"));
    assert!(is_rate_limit_text("see: quota"));
}

#[test]
fn letters_outside_a_to_z_are_not_folded() {
    assert!(!is_rate_limit_text("RATE L\u{130}MIT"));
    assert!(!is_rate_limit_text("\u{ff51}uota"));
}

#[test]
fn failures_without_a_status_are_terminal() {
    assert!(!is_rate_limit_error(&TranslateError::InvalidUrl));
    assert!(!is_rate_limit_error(&TranslateError::EmptyTranslationList));
    assert!(!is_rate_limit_error(&TranslateError::TransportFailure {
        detail: "connection refused".to_string()
    }));
    assert!(!is_rate_limit_error(&TranslateError::ResponseParseFailure {
        detail: "expected value at line 1 column 1".to_string()
    }));
}

#[test]
fn the_detail_of_a_failure_is_not_classified() {
    assert!(!is_rate_limit_error(&TranslateError::TransportFailure {
        detail: "proxy answered 429, quota exceeded".to_string()
    }));
    assert!(!is_rate_limit_error(&TranslateError::ResponseParseFailure {
        detail: "rate limit".to_string()
    }));
}

#[test]
fn reports_read_as_expected() {
    assert_eq!(TranslateError::InvalidUrl.message(), "Failed to parse API URL");
    assert_eq!(
        TranslateError::TransportFailure { detail: "timed out".to_string() }.message(),
        "Failed to send translation request"
    );
    assert_eq!(
        status_failure(429, "slow down").message(),
        "Translation API request failed with status 429: slow down"
    );
    assert_eq!(
        status_failure(500, "").message(),
        "Translation API request failed with status 500: "
    );
    assert_eq!(
        TranslateError::ResponseParseFailure { detail: "eof".to_string() }.message(),
        "Failed to parse translation response"
    );
    assert_eq!(
        TranslateError::EmptyTranslationList.message(),
        "No translation returned from API"
    );
}

#[test]
fn a_mark_among_the_digits_of_a_status_is_found() {
    assert!(is_rate_limit_error(&status_failure(4030, "")));
    assert!(is_rate_limit_error(&status_failure(14290, "")));
    assert!(!is_rate_limit_error(&status_failure(4003, "")));
}

#[test]
fn no_mark_reaches_from_the_status_into_the_body() {
    assert!(!is_rate_limit_error(&status_failure(40, "3")));
    assert!(!is_rate_limit_error(&status_failure(42, "9 lives")));
    assert!(!is_rate_limit_error(&status_failure(4, "03")));
    assert!(!is_rate_limit_error(&status_failure(500, "ate limit")));
    assert!(!is_rate_limit_error(&status_failure(500, "uota")));
}

#[test]
fn an_ordinary_status_leaves_it_to_the_body() {
    for status in [100u16, 200, 400, 401, 404, 430, 500, 503, 999] {
        assert!(!is_rate_limit_error(&status_failure(status, "plain words")));
        assert!(is_rate_limit_error(&status_failure(status, "Daily Quota used up")));
    }
}

/// The rule as the standard library would apply it, with full lowercasing.
fn mentions_after_lowercasing(text: &str) -> bool {
    let lowered = text.to_lowercase();
    lowered.contains("403")
        || lowered.contains("429")
        || lowered.contains("rate limit")
        || lowered.contains("userrate")
        || lowered.contains("quota")
}

#[test]
fn folding_agrees_with_full_lowercasing() {
    let texts = [
        "",
        "Rate Limit",
        "RATE LIMIT EXCEEDED",
        "rate l\u{130}mit",
        "RATE L\u{130}MIT",
        "rate lim\u{130}t",
        "RATE LIMI\u{130}T",
        "l\u{130}",
        "\u{212a}quota",
        "quo\u{212a}ta",
        "QUOT\u{c5}",
        "\u{3a3}quota\u{3a3}",
        "USERRATE\u{3a3}",
        "\u{1e9e}429",
        "4\u{307}03",
        "40\u{660}3",
        "\u{ff14}\u{ff10}\u{ff13}",
        "\u{ff32}ate limit",
        "user\u{a0}rate",
        "rate\u{a0}limit",
        "Qu\u{d6}ta",
        "QUOTA\u{fb01}",
        "\u{130}429\u{130}",
        "dailyLimitExceeded",
        "Translation API request failed with status 500: Internal Server Error",
    ];
    for text in texts {
        assert_eq!(is_rate_limit_text(text), mentions_after_lowercasing(text), "{:?}", text);
    }
}

#[test]
fn lowercasing_makes_no_mark_that_folding_misses() {
    // Outside `A` to `Z`, lowercasing yields a character of the marks only
    // for U+0130, whose `i` comes with a combining dot that no mark holds.
    let in_marks = |c: char| "0123456789 adeilmoqrstu".contains(c);
    for c in '\u{0}'..=char::MAX {
        let lowered: Vec<char> = c.to_lowercase().collect();
        if c.is_ascii() {
            assert_eq!(lowered, vec![c.to_ascii_lowercase()]);
        } else if lowered.iter().any(|l| in_marks(*l)) {
            assert_eq!(c, '\u{130}');
            assert_eq!(lowered, vec!['i', '\u{307}']);
        }
    }
}
