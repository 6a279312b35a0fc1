//! The failure classifier: which failures are worth another attempt.
//!
//! A failure is retryable when its report, read without regard to the case of
//! the letters `A` to `Z`, mentions a rate limit or an exhausted quota. Every
//! other failure is terminal. Only the report of an HTTP status failure can
//! mention one.

use crate::error::{TranslateError, TranslateErrorView};
use crate::text::{
    ascii_lower, ascii_lowered, chars_of, contains_chars, decimal, has_substring, lower_chars,
    occurs_at,
};
use vstd::prelude::*;

verus! {

/// Whether `text`, with `A` to `Z` read as `a` to `z`, holds one of the marks
/// of a rate limit: `403`, `429`, `rate limit`, `userrate` or `quota`.
pub open spec fn mentions_rate_limit(text: Seq<char>) -> bool {
    let lowered = ascii_lowered(text);
    ||| has_substring(lowered, "403"@)
    ||| has_substring(lowered, "429"@)
    ||| has_substring(lowered, "rate limit"@)
    ||| has_substring(lowered, "userrate"@)
    ||| has_substring(lowered, "quota"@)
}

/// Whether a failure is retryable: whether its report mentions a rate limit.
pub open spec fn is_retryable(error: TranslateErrorView) -> bool {
    mentions_rate_limit(error.message())
}

/// Tells whether `text` mentions a rate limit.
pub fn is_rate_limit_text(text: &str) -> (found: bool)
    ensures
        found == mentions_rate_limit(text@),
{
    let lowered = lower_chars(&chars_of(text));
    contains_chars(&lowered, &chars_of("403"))
        || contains_chars(&lowered, &chars_of("429"))
        || contains_chars(&lowered, &chars_of("rate limit"))
        || contains_chars(&lowered, &chars_of("userrate"))
        || contains_chars(&lowered, &chars_of("quota"))
}

/// Classifies a failure: `true` for a retryable one, `false` for a terminal one.
pub fn is_rate_limit_error(error: &TranslateError) -> (retryable: bool)
    ensures
        retryable == is_retryable(error@),
{
    let report = error.message();
    is_rate_limit_text(report.as_str())
}

/// A response with status 403 or 429 is retryable, whatever its body holds.
pub proof fn lemma_throttling_status_is_retryable(status: u16, body: Seq<char>)
    requires
        status == 403 || status == 429,
    ensures
        is_retryable(TranslateErrorView::HttpStatusFailure { status, body }),
{
    let error = TranslateErrorView::HttpStatusFailure { status, body };
    let head = "Translation API request failed with status "@;
    let digits = decimal(status as nat);
    let lowered = ascii_lowered(error.message());
    let at = head.len() as int;
    reveal_with_fuel(decimal, 3);
    assert forall|j: int| 0 <= j < 3 implies lowered[at + j] == digits[j] by {
        assert(error.message()[at + j] == digits[j]);
    }
    if status == 403 {
        reveal_strlit("403");
        assert(occurs_at(lowered, "403"@, at));
    } else {
        reveal_strlit("429");
        assert(occurs_at(lowered, "429"@, at));
    }
}

/// A mark that stands in `lowered`, where one does.
spec fn mark_in(lowered: Seq<char>) -> Seq<char> {
    if has_substring(lowered, "403"@) {
        "403"@
    } else if has_substring(lowered, "429"@) {
        "429"@
    } else if has_substring(lowered, "rate limit"@) {
        "rate limit"@
    } else if has_substring(lowered, "userrate"@) {
        "userrate"@
    } else {
        "quota"@
    }
}

/// Whether the three characters of `text` from `at` on open one of the marks.
spec fn opens_mark(text: Seq<char>, at: int) -> bool {
    let a = text[at];
    let b = text[at + 1];
    let c = text[at + 2];
    &&& 0 <= at
    &&& at + 2 < text.len()
    &&& {
        ||| a == '4' && b == '0' && c == '3'
        ||| a == '4' && b == '2' && c == '9'
        ||| a == 'r' && b == 'a' && c == 't'
        ||| a == 'u' && b == 's' && c == 'e'
        ||| a == 'q' && b == 'u' && c == 'o'
    }
}

/// A text that mentions a rate limit holds the opening of a mark.
proof fn lemma_mention_opens_mark(text: Seq<char>)
    requires
        mentions_rate_limit(text),
    ensures
        exists|at: int| opens_mark(ascii_lowered(text), at),
{
    reveal_strlit("403");
    reveal_strlit("429");
    reveal_strlit("rate limit");
    reveal_strlit("userrate");
    reveal_strlit("quota");
    let lowered = ascii_lowered(text);
    let mark = mark_in(lowered);
    let at = choose|at: int| occurs_at(lowered, mark, at);
    assert(lowered[at + 0] == mark[0] && lowered[at + 1] == mark[1] && lowered[at + 2] == mark[2]);
    assert(opens_mark(lowered, at));
}

/// Only an HTTP status failure can be retryable: an invalid address, a
/// transport failure, an undecodable response and an empty list of
/// translations are terminal.
pub proof fn lemma_only_status_failure_is_retryable(error: TranslateErrorView)
    ensures
        is_retryable(error) ==> error is HttpStatusFailure,
{
    let text = error.message();
    if !(error is HttpStatusFailure) && mentions_rate_limit(text) {
        // The report would hold the opening of a mark, and none of the four
        // fixed reports does.
        lemma_mention_opens_mark(text);
        match error {
            TranslateErrorView::InvalidUrl => {
                reveal_strlit("Failed to parse API URL");
            },
            TranslateErrorView::TransportFailure { .. } => {
                reveal_strlit("Failed to send translation request");
            },
            TranslateErrorView::ResponseParseFailure { .. } => {
                reveal_strlit("Failed to parse translation response");
            },
            _ => {
                reveal_strlit("No translation returned from API");
            },
        }
    }
}

/// The digits of a number are digits, and there is at least one.
proof fn lemma_decimal_is_digits(n: nat)
    ensures
        decimal(n).len() >= 1,
        forall|i: int| 0 <= i < decimal(n).len() ==> '0' <= #[trigger] decimal(n)[i] <= '9',
    decreases n,
{
    if n >= 10 {
        lemma_decimal_is_digits(n / 10);
    }
}

/// A mark that stands in a part of a text stands in the whole text.
proof fn lemma_mark_in_part(pre: Seq<char>, part: Seq<char>, post: Seq<char>, mark: Seq<char>)
    requires
        has_substring(ascii_lowered(part), mark),
    ensures
        has_substring(ascii_lowered(pre + part + post), mark),
{
    let whole = pre + part + post;
    let at = choose|at: int| occurs_at(ascii_lowered(part), mark, at);
    assert forall|j: int| 0 <= j < mark.len() implies ascii_lowered(whole)[pre.len() + at + j]
        == mark[j] by {
        assert(whole[pre.len() + at + j] == part[at + j]);
    }
    assert(occurs_at(ascii_lowered(whole), mark, pre.len() + at));
}

/// A part of a text that mentions a rate limit makes the whole text mention it.
proof fn lemma_mention_in_part(pre: Seq<char>, part: Seq<char>, post: Seq<char>)
    requires
        mentions_rate_limit(part),
    ensures
        mentions_rate_limit(pre + part + post),
{
    let lowered = ascii_lowered(part);
    if has_substring(lowered, "403"@) {
        lemma_mark_in_part(pre, part, post, "403"@);
    } else if has_substring(lowered, "429"@) {
        lemma_mark_in_part(pre, part, post, "429"@);
    } else if has_substring(lowered, "rate limit"@) {
        lemma_mark_in_part(pre, part, post, "rate limit"@);
    } else if has_substring(lowered, "userrate"@) {
        lemma_mark_in_part(pre, part, post, "userrate"@);
    } else {
        lemma_mark_in_part(pre, part, post, "quota"@);
    }
}

/// Whether `mark` is one of the five marks of a rate limit.
spec fn is_mark(mark: Seq<char>) -> bool {
    ||| mark == "403"@
    ||| mark == "429"@
    ||| mark == "rate limit"@
    ||| mark == "userrate"@
    ||| mark == "quota"@
}

/// No mark begins in the opening words of the report of a status failure.
proof fn lemma_no_mark_begins_in_head(rest: Seq<char>, mark: Seq<char>, at: int)
    requires
        is_mark(mark),
        0 <= at < "Translation API request failed with status "@.len(),
    ensures
        !occurs_at(
            ascii_lowered("Translation API request failed with status "@ + rest),
            mark,
            at,
        ),
{
    reveal_strlit("Translation API request failed with status ");
    reveal_strlit("403");
    reveal_strlit("429");
    reveal_strlit("rate limit");
    reveal_strlit("userrate");
    reveal_strlit("quota");
    let head = "Translation API request failed with status "@;
    let lowered = ascii_lowered(head + rest);
    if occurs_at(lowered, mark, at) {
        // The first character of a mark stands no later in these words than
        // three places before their end, and the third never follows it.
        assert(lowered[at + 0] == mark[0]);
        assert(at + 2 < head.len());
        assert(lowered[at + 2] == mark[2]);
    }
}

/// A status failure is retryable exactly when its status, written in base
/// ten, or its body mentions a rate limit: the words around them mention
/// none, and no mark reaches from one part of the report into the next.
pub proof fn lemma_status_failure_is_retryable_by_status_or_body(status: u16, body: Seq<char>)
    ensures
        is_retryable(TranslateErrorView::HttpStatusFailure { status, body })
            <==> mentions_rate_limit(decimal(status as nat)) || mentions_rate_limit(body),
{
    let head = "Translation API request failed with status "@;
    let digits = decimal(status as nat);
    let report = TranslateErrorView::HttpStatusFailure { status, body }.message();
    let lowered = ascii_lowered(report);
    let h = head.len() as int;
    let d = digits.len() as int;
    reveal_strlit(": ");
    reveal_strlit("403");
    reveal_strlit("429");
    reveal_strlit("rate limit");
    reveal_strlit("userrate");
    reveal_strlit("quota");
    lemma_decimal_is_digits(status as nat);
    if mentions_rate_limit(digits) {
        lemma_mention_in_part(head, digits, ": "@ + body);
        assert(head + digits + (": "@ + body) == report);
    }
    if mentions_rate_limit(body) {
        lemma_mention_in_part(head + digits + ": "@, body, Seq::empty());
    }
    if mentions_rate_limit(report) {
        let mark = mark_in(lowered);
        let at = choose|at: int| occurs_at(lowered, mark, at);
        assert(lowered[at + 0] == mark[0]);
        if at < h {
            // The mark would begin in the opening words.
            assert(report == head + (digits + ": "@ + body));
            lemma_no_mark_begins_in_head(digits + ": "@ + body, mark, at);
        } else if at < h + d {
            // The mark begins with a digit: it is `403` or `429`.
            if at + 3 <= h + d {
                assert forall|j: int| 0 <= j < 3 implies ascii_lowered(digits)[at - h + j]
                    == mark[j] by {
                    assert(lowered[at + j] == mark[j]);
                }
                assert(occurs_at(ascii_lowered(digits), mark, at - h));
            } else {
                // It would hold the colon that follows the status.
                let j = h + d - at;
                assert(lowered[at + j] == mark[j]);
                assert(report[h + d] == ':');
            }
        } else if at < h + d + 2 {
            // The mark would begin with the colon or the space.
            assert(report[at] == ": "@[at - h - d]);
        } else {
            let start = at - h - d - 2;
            assert forall|j: int| 0 <= j < mark.len() implies ascii_lowered(body)[start + j]
                == mark[j] by {
                assert(lowered[at + j] == mark[j]);
            }
            assert(occurs_at(ascii_lowered(body), mark, start));
        }
    }
}

/// A status of three digits other than 403 and 429 decides nothing: a
/// response with such a status is retryable exactly when its body mentions a
/// rate limit.
pub proof fn lemma_plain_status_is_retryable_by_body(status: u16, body: Seq<char>)
    requires
        100 <= status <= 999,
        status != 403,
        status != 429,
    ensures
        is_retryable(TranslateErrorView::HttpStatusFailure { status, body })
            <==> mentions_rate_limit(body),
{
    lemma_status_failure_is_retryable_by_status_or_body(status, body);
    let digits = decimal(status as nat);
    reveal_with_fuel(decimal, 3);
    if mentions_rate_limit(digits) {
        // Three digits hold a mark only by being one.
        lemma_mention_opens_mark(digits);
        let at = choose|at: int| opens_mark(ascii_lowered(digits), at);
        assert(at == 0);
    }
}

} // verus!
