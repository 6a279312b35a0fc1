//! The typed model of what goes out to the translation API and what comes back.

use crate::json::{
    json_member, json_members, json_object, member_views, render_object, MemberView,
};
use vstd::prelude::*;

verus! {

/// One request to the translation API.
#[derive(Debug, PartialEq, Eq)]
pub struct TranslateRequest {
    /// Text to translate
    pub q: String,
    /// Target language code
    pub target: String,
    /// Source language code; `None` lets the service detect the language
    pub source: Option<String>,
    /// The format of the text, always `text`
    pub format: String,
}

/// Mathematical model of a [`TranslateRequest`].
pub struct TranslateRequestView {
    pub q: Seq<char>,
    pub target: Seq<char>,
    pub source: Option<Seq<char>>,
    pub format: Seq<char>,
}

impl View for TranslateRequest {
    type V = TranslateRequestView;

    open spec fn view(&self) -> TranslateRequestView {
        TranslateRequestView {
            q: self.q@,
            target: self.target@,
            source: self.source.deep_view(),
            format: self.format@,
        }
    }
}

impl TranslateRequestView {
    /// The request for `text`, to be translated into `target` from `source`.
    pub open spec fn new(text: Seq<char>, target: Seq<char>, source: Option<Seq<char>>) -> Self {
        TranslateRequestView { q: text, target, source, format: "text"@ }
    }

    /// Whether the request is one that can be sent: there is a text, there is a
    /// target language, and the format is `text`.
    pub open spec fn well_formed(self) -> bool {
        &&& self.q.len() > 0
        &&& self.target.len() > 0
        &&& self.format == "text"@
    }

    /// The members of the JSON object that goes out, in their order: `q`,
    /// `target`, then `source` if there is one, then `format`.
    pub open spec fn members(self) -> Seq<MemberView> {
        let source = match self.source {
            Some(source) => seq![("source"@, source)],
            None => Seq::empty(),
        };
        seq![("q"@, self.q), ("target"@, self.target)] + source + seq![("format"@, self.format)]
    }

    /// The body of the HTTP request, as JSON text.
    pub open spec fn json(self) -> Seq<char> {
        json_object(self.members())
    }
}

impl TranslateRequest {
    /// Builds the request for `text`. The format is fixed to `text`.
    pub fn new(text: String, target: String, source: Option<String>) -> (request: Self)
        ensures
            request@ == TranslateRequestView::new(text@, target@, source.deep_view()),
            request@.well_formed() <==> text@.len() > 0 && target@.len() > 0,
    {
        Self { q: text, target, source, format: String::from_str("text") }
    }

    /// The members of the JSON object that goes out, in their order.
    pub fn members(&self) -> (members: Vec<(String, String)>)
        ensures
            member_views(members@) == self@.members(),
    {
        let mut members: Vec<(String, String)> = Vec::new();
        members.push((String::from_str("q"), self.q.clone()));
        members.push((String::from_str("target"), self.target.clone()));
        match &self.source {
            Some(source) => {
                members.push((String::from_str("source"), source.clone()));
            },
            None => {},
        }
        members.push((String::from_str("format"), self.format.clone()));
        members
    }

    /// The body of the HTTP request, as JSON text.
    pub fn to_json(&self) -> (body: String)
        ensures
            body@ == self@.json(),
    {
        render_object(&self.members())
    }
}

/// Whether the object that holds `members` has a member with this key.
pub open spec fn has_key(members: Seq<MemberView>, key: Seq<char>) -> bool {
    exists|i: int| 0 <= i < members.len() && (#[trigger] members[i]).0 == key
}

/// A request without a source language goes out without a `source` member:
/// its body is the object of `q`, `target` and `format` alone.
pub proof fn lemma_absent_source_is_omitted(request: TranslateRequestView)
    requires
        request.source is None,
    ensures
        !has_key(request.members(), "source"@),
        request.members() == seq![
            ("q"@, request.q),
            ("target"@, request.target),
            ("format"@, request.format),
        ],
        request.json() == "{"@ + json_member(("q"@, request.q)) + ","@ + json_member(
            ("target"@, request.target),
        ) + ","@ + json_member(("format"@, request.format)) + "}"@,
{
    reveal_strlit("q");
    reveal_strlit("target");
    reveal_strlit("format");
    reveal_strlit("source");
    let members = request.members();
    assert(members =~= seq![
        ("q"@, request.q),
        ("target"@, request.target),
        ("format"@, request.format),
    ]);
    assert forall|i: int| 0 <= i < members.len() implies (#[trigger] members[i]).0 != "source"@ by {
        assert(members[i].0[0] != "source"@[0]);
    }
    reveal_with_fuel(json_members, 3);
    assert(members.drop_last() == seq![("q"@, request.q), ("target"@, request.target)]);
    assert(members.drop_last().drop_last() == seq![("q"@, request.q)]);
}

/// A request with a source language goes out with exactly one `source`
/// member, which holds that language as it was given.
pub proof fn lemma_present_source_is_sent(request: TranslateRequestView, source: Seq<char>)
    requires
        request.source == Some(source),
    ensures
        request.members().contains(("source"@, source)),
        forall|i: int|
            0 <= i < request.members().len() && (#[trigger] request.members()[i]).0 == "source"@
                ==> request.members()[i].1 == source,
        request.members() == seq![
            ("q"@, request.q),
            ("target"@, request.target),
            ("source"@, source),
            ("format"@, request.format),
        ],
        request.json() == "{"@ + json_member(("q"@, request.q)) + ","@ + json_member(
            ("target"@, request.target),
        ) + ","@ + json_member(("source"@, source)) + ","@ + json_member(
            ("format"@, request.format),
        ) + "}"@,
{
    reveal_strlit("q");
    reveal_strlit("target");
    reveal_strlit("format");
    reveal_strlit("source");
    let members = request.members();
    assert(members =~= seq![
        ("q"@, request.q),
        ("target"@, request.target),
        ("source"@, source),
        ("format"@, request.format),
    ]);
    assert forall|i: int|
        0 <= i < members.len() && (#[trigger] members[i]).0 == "source"@ implies members[i].1
        == source by {
        if i != 2 {
            assert(members[i].0[0] != "source"@[0]);
        }
    }
    reveal_with_fuel(json_members, 4);
    let three = members.drop_last();
    assert(three == seq![("q"@, request.q), ("target"@, request.target), ("source"@, source)]);
    assert(three.drop_last() == seq![("q"@, request.q), ("target"@, request.target)]);
    assert(three.drop_last().drop_last() == seq![("q"@, request.q)]);
}

/// One entry of the list of translations in a response.
#[derive(Debug, PartialEq, Eq)]
pub struct Translation {
    pub translated_text: String,
    /// The language that the service found the text to be in; present only
    /// where the request named no source language.
    pub detected_source_language: Option<String>,
}

/// The payload of a response: the list of translations.
#[derive(Debug, PartialEq, Eq)]
pub struct TranslateData {
    pub translations: Vec<Translation>,
}

/// The body of a success response, decoded.
#[derive(Debug, PartialEq, Eq)]
pub struct TranslateResponse {
    pub data: TranslateData,
}

/// Mathematical model of a [`Translation`].
pub struct TranslationView {
    pub translated_text: Seq<char>,
    pub detected_source_language: Option<Seq<char>>,
}

/// Mathematical model of a [`TranslateData`].
pub struct TranslateDataView {
    pub translations: Seq<TranslationView>,
}

/// Mathematical model of a [`TranslateResponse`].
pub struct TranslateResponseView {
    pub data: TranslateDataView,
}

impl View for Translation {
    type V = TranslationView;

    open spec fn view(&self) -> TranslationView {
        TranslationView {
            translated_text: self.translated_text@,
            detected_source_language: self.detected_source_language.deep_view(),
        }
    }
}

impl View for TranslateData {
    type V = TranslateDataView;

    open spec fn view(&self) -> TranslateDataView {
        TranslateDataView {
            translations: Seq::new(self.translations@.len(), |i: int| self.translations@[i]@),
        }
    }
}

impl View for TranslateResponse {
    type V = TranslateResponseView;

    open spec fn view(&self) -> TranslateResponseView {
        TranslateResponseView { data: self.data@ }
    }
}

impl TranslateResponseView {
    /// Whether the response is valid: it holds at least one translation.
    pub open spec fn well_formed(self) -> bool {
        self.data.translations.len() > 0
    }
}

/// A response of the translation endpoint, as far as the client reads it.
#[derive(Debug, PartialEq, Eq)]
pub struct HttpResponse {
    /// The numeric status code.
    pub status: u16,
    /// The body as text; `None` where it could not be read.
    pub body: Option<String>,
    /// The body decoded as JSON of the expected shape; where it has another
    /// shape or is no JSON, the decoder's own account of that.
    pub decoded: Result<TranslateResponse, String>,
}

/// Mathematical model of an [`HttpResponse`].
pub struct HttpResponseView {
    pub status: u16,
    pub body: Option<Seq<char>>,
    pub decoded: Result<TranslateResponseView, Seq<char>>,
}

impl View for HttpResponse {
    type V = HttpResponseView;

    open spec fn view(&self) -> HttpResponseView {
        HttpResponseView {
            status: self.status,
            body: self.body.deep_view(),
            decoded: match self.decoded {
                Ok(response) => Ok(response@),
                Err(detail) => Err(detail@),
            },
        }
    }
}

/// The outcome of one successful translation, handed to the caller.
#[derive(Debug, PartialEq, Eq)]
pub struct TranslationResult {
    pub translated_text: String,
    pub detected_source_language: Option<String>,
}

/// Mathematical model of a [`TranslationResult`].
pub struct TranslationResultView {
    pub translated_text: Seq<char>,
    pub detected_source_language: Option<Seq<char>>,
}

impl View for TranslationResult {
    type V = TranslationResultView;

    open spec fn view(&self) -> TranslationResultView {
        TranslationResultView {
            translated_text: self.translated_text@,
            detected_source_language: self.detected_source_language.deep_view(),
        }
    }
}

impl TranslationResult {
    pub fn new(translated_text: String, detected_source_language: Option<String>) -> (result: Self)
        ensures
            result@.translated_text == translated_text@,
            result@.detected_source_language == detected_source_language.deep_view(),
    {
        Self { translated_text, detected_source_language }
    }
}

} // verus!
