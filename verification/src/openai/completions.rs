//! Completions API.

use super::error::{ErrorResponse, ErrorResponseView};
use crate::json::{views, Json, JsonView};
use crate::model::option_view;
use vstd::prelude::*;

verus! {

/// What the service answers: a rejection or a completion.
#[derive(Debug, Clone, PartialEq, Eq)]
pub enum Response {
    Error(ErrorResponse),
    Success(CompletionsResponse),
}

/// A completion.
#[derive(Debug, Clone, PartialEq, Eq)]
pub struct CompletionsResponse {
    pub id: String,
    pub object: String,
    pub created: u64,
    pub model: String,
    pub choices: Vec<Choice>,
    pub usage: Usage,
}

/// One continuation of the prompt.
#[derive(Debug, Clone, PartialEq, Eq)]
pub struct Choice {
    pub text: String,
    pub index: u64,
    pub finish_reason: String,
}

/// The tokens that a completion took.
#[derive(Debug, Clone, Copy, PartialEq, Eq)]
pub struct Usage {
    pub prompt_tokens: u64,
    pub completion_tokens: u64,
    pub total_tokens: u64,
}

/// The mathematical value of a [`Response`].
pub enum ResponseView {
    Error(ErrorResponseView),
    Success(CompletionsResponseView),
}

/// The mathematical value of a [`CompletionsResponse`].
pub struct CompletionsResponseView {
    pub id: Seq<char>,
    pub object: Seq<char>,
    pub created: u64,
    pub model: Seq<char>,
    pub choices: Seq<ChoiceView>,
    pub usage: Usage,
}

/// The mathematical value of a [`Choice`].
pub struct ChoiceView {
    pub text: Seq<char>,
    pub index: u64,
    pub finish_reason: Seq<char>,
}

/// The values of a list of choices, one by one.
pub open spec fn choice_views(choices: Seq<Choice>) -> Seq<ChoiceView> {
    Seq::new(choices.len(), |i: int| choices[i]@)
}

impl View for Choice {
    type V = ChoiceView;

    open spec fn view(&self) -> ChoiceView {
        ChoiceView { text: self.text@, index: self.index, finish_reason: self.finish_reason@ }
    }
}

impl View for CompletionsResponse {
    type V = CompletionsResponseView;

    open spec fn view(&self) -> CompletionsResponseView {
        CompletionsResponseView {
            id: self.id@,
            object: self.object@,
            created: self.created,
            model: self.model@,
            choices: choice_views(self.choices@),
            usage: self.usage,
        }
    }
}

impl View for Response {
    type V = ResponseView;

    open spec fn view(&self) -> ResponseView {
        match self {
            Response::Error(error) => ResponseView::Error(error@),
            Response::Success(completion) => ResponseView::Success(completion@),
        }
    }
}

/// The usage that a document describes: an object whose members
/// `prompt_tokens`, `completion_tokens` and `total_tokens` are whole numbers
/// from 0 to `u64::MAX`.
pub open spec fn usage_of(doc: JsonView) -> Option<Usage> {
    match (
        doc.unsigned_member("prompt_tokens"@),
        doc.unsigned_member("completion_tokens"@),
        doc.unsigned_member("total_tokens"@),
    ) {
        (Some(prompt_tokens), Some(completion_tokens), Some(total_tokens)) => Some(
            Usage { prompt_tokens, completion_tokens, total_tokens },
        ),
        _ => None,
    }
}

impl ChoiceView {
    /// The choice that a document describes: an object whose members `text`
    /// and `finish_reason` are strings and whose member `index` is a whole
    /// number from 0 to `u64::MAX`.
    pub open spec fn of(doc: JsonView) -> Option<ChoiceView> {
        match (
            doc.text_member("text"@),
            doc.unsigned_member("index"@),
            doc.text_member("finish_reason"@),
        ) {
            (Some(text), Some(index), Some(finish_reason)) => Some(
                ChoiceView { text, index, finish_reason },
            ),
            _ => None,
        }
    }
}

/// The choices that a list of documents describes: every one of them has to
/// describe a choice.
pub open spec fn choices_of(docs: Seq<JsonView>) -> Option<Seq<ChoiceView>> {
    if forall|i: int| 0 <= i < docs.len() ==> (#[trigger] ChoiceView::of(docs[i])) is Some {
        Some(Seq::new(docs.len(), |i: int| ChoiceView::of(docs[i])->0))
    } else {
        None
    }
}

impl CompletionsResponseView {
    /// The completion that a document describes: an object whose members
    /// `id`, `object` and `model` are strings, whose member `created` is a
    /// whole number from 0 to `u64::MAX`, whose member `choices` is an array
    /// of choices and whose member `usage` describes a usage.
    pub open spec fn of(doc: JsonView) -> Option<CompletionsResponseView> {
        match (
            doc.text_member("id"@),
            doc.text_member("object"@),
            doc.unsigned_member("created"@),
            doc.text_member("model"@),
            Self::choices_member(doc),
            Self::usage_member(doc),
        ) {
            (Some(id), Some(object), Some(created), Some(model), Some(choices), Some(usage)) => Some(
                CompletionsResponseView { id, object, created, model, choices, usage },
            ),
            _ => None,
        }
    }

    /// The choices under the member `choices`.
    pub open spec fn choices_member(doc: JsonView) -> Option<Seq<ChoiceView>> {
        match doc.member("choices"@) {
            Some(JsonView::Array(docs)) => choices_of(docs),
            _ => None,
        }
    }

    /// The usage under the member `usage`.
    pub open spec fn usage_member(doc: JsonView) -> Option<Usage> {
        match doc.member("usage"@) {
            Some(inner) => usage_of(inner),
            None => None,
        }
    }
}

impl ResponseView {
    /// The answer that a document describes. A document that describes a
    /// rejection is one, whatever else it holds; any other has to describe
    /// a completion.
    pub open spec fn of(doc: JsonView) -> Option<ResponseView> {
        match ErrorResponseView::of(doc) {
            Some(error) => Some(ResponseView::Error(error)),
            None => match CompletionsResponseView::of(doc) {
                Some(completion) => Some(ResponseView::Success(completion)),
                None => None,
            },
        }
    }
}

impl Usage {
    /// Reads a usage from a document, where the document describes one.
    pub fn from_json(doc: &Json) -> (r: Option<Usage>)
        ensures
            r == usage_of(doc@),
    {
        let prompt_tokens = match doc.unsigned_member("prompt_tokens") {
            Some(n) => n,
            None => return None,
        };
        let completion_tokens = match doc.unsigned_member("completion_tokens") {
            Some(n) => n,
            None => return None,
        };
        let total_tokens = match doc.unsigned_member("total_tokens") {
            Some(n) => n,
            None => return None,
        };
        Some(Usage { prompt_tokens, completion_tokens, total_tokens })
    }
}

impl Choice {
    /// Reads a choice from a document, where the document describes one.
    pub fn from_json(doc: &Json) -> (r: Option<Choice>)
        ensures
            option_view(r) == ChoiceView::of(doc@),
    {
        let text = match doc.text_member("text") {
            Some(text) => text,
            None => return None,
        };
        let index = match doc.unsigned_member("index") {
            Some(n) => n,
            None => return None,
        };
        let finish_reason = match doc.text_member("finish_reason") {
            Some(text) => text,
            None => return None,
        };
        Some(Choice { text, index, finish_reason })
    }

    /// Reads a list of choices from a list of documents, where every one of
    /// them describes a choice.
    pub fn list_from_json(docs: &Vec<Json>) -> (r: Option<Vec<Choice>>)
        ensures
            match r {
                Some(choices) => choices_of(views(docs@)) == Some(choice_views(choices@)),
                None => choices_of(views(docs@)) is None,
            },
    {
        let mut choices: Vec<Choice> = Vec::new();
        let mut i: usize = 0;
        while i < docs.len()
            invariant
                i <= docs.len(),
                choices.len() == i,
                forall|j: int|
                    0 <= j < i ==> #[trigger] ChoiceView::of(views(docs@)[j]) == Some(choices[j]@),
            decreases docs.len() - i,
        {
            match Choice::from_json(&docs[i]) {
                Some(choice) => {
                    choices.push(choice);
                },
                None => {
                    assert(ChoiceView::of(views(docs@)[i as int]) is None);
                    return None;
                },
            }
            i += 1;
        }
        assert(choices_of(views(docs@))->0 =~= choice_views(choices@));
        Some(choices)
    }
}

impl CompletionsResponse {
    /// Reads a completion from a document, where the document describes
    /// one.
    pub fn from_json(doc: &Json) -> (r: Option<CompletionsResponse>)
        ensures
            option_view(r) == CompletionsResponseView::of(doc@),
    {
        let id = match doc.text_member("id") {
            Some(text) => text,
            None => return None,
        };
        let object = match doc.text_member("object") {
            Some(text) => text,
            None => return None,
        };
        let created = match doc.unsigned_member("created") {
            Some(n) => n,
            None => return None,
        };
        let model = match doc.text_member("model") {
            Some(text) => text,
            None => return None,
        };
        let choices = match doc.member("choices") {
            Some(inner) => match inner.items() {
                Some(docs) => match Choice::list_from_json(docs) {
                    Some(choices) => choices,
                    None => return None,
                },
                None => return None,
            },
            None => return None,
        };
        let usage = match doc.member("usage") {
            Some(inner) => match Usage::from_json(inner) {
                Some(usage) => usage,
                None => return None,
            },
            None => return None,
        };
        Some(CompletionsResponse { id, object, created, model, choices, usage })
    }
}

impl Response {
    /// Reads an answer from a document, where the document describes one:
    /// a rejection first, and a completion only where it describes none.
    pub fn from_json(doc: &Json) -> (r: Option<Response>)
        ensures
            option_view(r) == ResponseView::of(doc@),
    {
        match ErrorResponse::from_json(doc) {
            Some(error) => Some(Response::Error(error)),
            None => match CompletionsResponse::from_json(doc) {
                Some(completion) => Some(Response::Success(completion)),
                None => None,
            },
        }
    }
}

} // verus!
