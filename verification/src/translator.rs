//! The translation client: where a request goes, what it holds, and how the
//! response to it is read.

use crate::error::{TranslateError, TranslateErrorView};
use crate::retry::{
    lemma_failure_without_status_ends_the_call, outcome_view, RetryDecisionView, RetryState,
};
use crate::types::{
    HttpResponse, HttpResponseView, TranslateRequest, TranslateRequestView, TranslationResult,
    TranslationResultView,
};
use url::Url;
use vstd::prelude::*;

verus! {

/// The endpoint of the translation API.
pub const TRANSLATE_API_URL: &'static str =
    "https://translation.googleapis.com/language/translate/v2";

/// The error of `Url::parse`. The library carries it without reading it.
#[verifier::external_type_specification]
#[verifier::external_body]
pub struct ExParseError(url::ParseError);

/// Whether `Url::parse` of the url crate reads an absolute URL from `input`.
pub uninterp spec fn is_absolute_url(input: Seq<char>) -> bool;

/// The text of the URL that the url crate reads from `base`, after the pair
/// of `name` and `value` has been added at the end of its query.
pub uninterp spec fn url_with_query_pair(
    base: Seq<char>,
    name: Seq<char>,
    value: Seq<char>,
) -> Seq<char>;

/// Calls `Url::parse` on `base` and, where that gives a URL, adds one pair to
/// its query with `Url::query_pairs_mut` and `append_pair`. The contract
/// claims that the call fails exactly when `base` is no absolute URL, whatever
/// the pair, and that the text of the URL that comes back depends on the three
/// arguments alone. A `base` without `#` has no fragment, and one this short
/// is far from the 4 GiB at which the crate gives up: on such a base the call
/// does not panic.
#[verifier::external_body]
fn parse_with_query_pair(base: &str, name: &str, value: &str) -> (url: Result<
    String,
    url::ParseError,
>)
    requires
        base@.len() <= 0xffff,
        !base@.contains('#'),
    ensures
        match url {
            Ok(text) => is_absolute_url(base@) && text@ == url_with_query_pair(
                base@,
                name@,
                value@,
            ),
            Err(_) => !is_absolute_url(base@),
        },
{
    let mut url = Url::parse(base)?;
    url.query_pairs_mut().append_pair(name, value);
    Ok(url.into())
}

/// Whether `status` is a success status: one from 200 to 299.
pub open spec fn is_success_status(status: u16) -> bool {
    200 <= status < 300
}

/// What a response means: its translation, or the failure that it stands for.
/// A status that is no success status is a failure that carries the status and
/// the body as it came (`Unknown error` for a body that could not be read); a
/// success response must decode and must hold a translation, of which the
/// first is taken.
pub open spec fn response_outcome(response: HttpResponseView) -> Result<
    TranslationResultView,
    TranslateErrorView,
> {
    if !is_success_status(response.status) {
        Err(
            TranslateErrorView::HttpStatusFailure {
                status: response.status,
                body: match response.body {
                    Some(text) => text,
                    None => "Unknown error"@,
                },
            },
        )
    } else {
        match response.decoded {
            Err(detail) => Err(TranslateErrorView::ResponseParseFailure { detail }),
            Ok(decoded) => {
                if !decoded.well_formed() {
                    Err(TranslateErrorView::EmptyTranslationList)
                } else {
                    Ok(
                        TranslationResultView {
                            translated_text: decoded.data.translations[0].translated_text,
                            detected_source_language:
                                decoded.data.translations[0].detected_source_language,
                        },
                    )
                }
            },
        }
    }
}

/// A success response without a translation ends the call at once, in every
/// state, with `EmptyTranslationList`.
pub proof fn lemma_empty_list_ends_the_call(state: RetryState, response: HttpResponseView)
    requires
        is_success_status(response.status),
        response.decoded matches Ok(decoded) && !decoded.well_formed(),
    ensures
        response_outcome(response) == Err::<TranslationResultView, TranslateErrorView>(
            TranslateErrorView::EmptyTranslationList,
        ),
        state.decision(response_outcome(response)) == RetryDecisionView::Failed(
            TranslateErrorView::EmptyTranslationList,
        ),
{
    lemma_failure_without_status_ends_the_call(state, TranslateErrorView::EmptyTranslationList);
}

/// What one attempt sends, and where to. It cannot be printed as a whole: the
/// address holds the API key.
#[derive(PartialEq, Eq)]
pub struct Attempt {
    /// The address that the request is posted to.
    pub url: String,
    /// The body of the request, as JSON text.
    pub body: String,
}

/// A client of the translation API. It holds the API key, which it never
/// changes and hands out only as part of the address of a request.
pub struct Translator {
    api_key: String,
}

/// Mathematical model of a [`Translator`].
pub struct TranslatorView {
    pub api_key: Seq<char>,
}

impl View for Translator {
    type V = TranslatorView;

    closed spec fn view(&self) -> TranslatorView {
        TranslatorView { api_key: self.api_key@ }
    }
}

impl Translator {
    /// A client that signs its requests with `api_key`.
    pub fn new(api_key: String) -> (translator: Self)
        ensures
            translator@.api_key == api_key@,
    {
        Self { api_key }
    }

    /// The address of a request: the endpoint, with the API key as the query
    /// parameter `key`. Fails with `InvalidUrl` exactly when the endpoint is
    /// no absolute URL.
    pub fn build_api_url(&self) -> (url: Result<String, TranslateError>)
        ensures
            match url {
                Ok(text) => is_absolute_url(TRANSLATE_API_URL@) && text@ == url_with_query_pair(
                    TRANSLATE_API_URL@,
                    "key"@,
                    self@.api_key,
                ),
                Err(error) => !is_absolute_url(TRANSLATE_API_URL@) && error@
                    == TranslateErrorView::InvalidUrl,
            },
    {
        proof {
            reveal_strlit("https://translation.googleapis.com/language/translate/v2");
        }
        match parse_with_query_pair(TRANSLATE_API_URL, "key", self.api_key.as_str()) {
            Ok(text) => Ok(text),
            Err(_) => Err(TranslateError::InvalidUrl),
        }
    }

    /// What an attempt to translate `text` sends: the same address and the
    /// same body at every attempt. Fails, with `InvalidUrl`, exactly when the
    /// address cannot be built.
    pub fn prepare_attempt(&self, text: &str, target_lang: &str, source_lang: Option<&str>) -> (
        attempt: Result<Attempt, TranslateError>
    )
        ensures
            match attempt {
                Ok(attempt) => {
                    &&& is_absolute_url(TRANSLATE_API_URL@)
                    &&& attempt.url@ == url_with_query_pair(
                        TRANSLATE_API_URL@,
                        "key"@,
                        self@.api_key,
                    )
                    &&& attempt.body@ == TranslateRequestView::new(
                        text@,
                        target_lang@,
                        match source_lang {
                            Some(source) => Some(source@),
                            None => None,
                        },
                    ).json()
                },
                Err(error) => !is_absolute_url(TRANSLATE_API_URL@) && error@
                    == TranslateErrorView::InvalidUrl,
            },
    {
        let url = match self.build_api_url() {
            Ok(url) => url,
            Err(error) => {
                return Err(error);
            },
        };
        let source = match source_lang {
            Some(source) => Some(String::from_str(source)),
            None => None,
        };
        let request = TranslateRequest::new(
            String::from_str(text),
            String::from_str(target_lang),
            source,
        );
        Ok(Attempt { url, body: request.to_json() })
    }

    /// Reads a response: hands out its translation, or the failure that it
    /// stands for.
    pub fn parse_response(&self, response: &HttpResponse) -> (outcome: Result<
        TranslationResult,
        TranslateError,
    >)
        ensures
            outcome_view(outcome) == response_outcome(response@),
    {
        if response.status < 200 || response.status >= 300 {
            let body = match &response.body {
                Some(text) => text.clone(),
                None => String::from_str("Unknown error"),
            };
            return Err(TranslateError::HttpStatusFailure { status: response.status, body });
        }
        match &response.decoded {
            Err(detail) => Err(TranslateError::ResponseParseFailure { detail: detail.clone() }),
            Ok(decoded) => {
                if decoded.data.translations.len() == 0 {
                    Err(TranslateError::EmptyTranslationList)
                } else {
                    let first = &decoded.data.translations[0];
                    let detected = match &first.detected_source_language {
                        Some(language) => Some(language.clone()),
                        None => None,
                    };
                    Ok(TranslationResult::new(first.translated_text.clone(), detected))
                }
            },
        }
    }
}

} // verus!
