//! Classifying a provider response into a terminal outcome.

use vstd::prelude::*;
use vstd::string::StringExecFns;
use crate::text::{is_text, texts};

verus! {

/// One safety rating of a prompt or a candidate.
#[derive(Clone, Debug, PartialEq, Eq)]
pub struct SafetyRating {
    pub category: String,
    pub blocked: Option<bool>,
}

/// What the provider says about the prompt itself.
#[derive(Clone, Debug, PartialEq, Eq)]
pub struct PromptFeedback {
    pub block_reason: Option<String>,
    pub safety_ratings: Vec<SafetyRating>,
}

/// One text segment of a candidate.
#[derive(Clone, Debug, PartialEq, Eq)]
pub struct ResponsePart {
    pub text: String,
}

/// The content of a candidate.
#[derive(Clone, Debug, PartialEq, Eq)]
pub struct ResponseContent {
    pub parts: Vec<ResponsePart>,
}

/// One generated answer.
#[derive(Clone, Debug, PartialEq, Eq)]
pub struct Candidate {
    pub content: Option<ResponseContent>,
    pub finish_reason: Option<String>,
    pub safety_ratings: Vec<SafetyRating>,
}

/// A provider response with a success status.
#[derive(Clone, Debug, PartialEq, Eq)]
pub struct GeminiResponse {
    pub candidates: Vec<Candidate>,
    pub prompt_feedback: Option<PromptFeedback>,
}

/// The terminal result of one translation request.
#[derive(Clone, Debug, PartialEq, Eq)]
pub enum Outcome {
    /// The complete answer.
    Success(String),
    /// An answer cut off at the token limit: displayable, with a caveat.
    Truncated(String),
    /// Refused by policy: the reason and the blocked safety categories.
    Blocked(String, Vec<String>),
    /// No answer: a readable message.
    Failed(String),
}

/// The mathematical value of an [`Outcome`].
pub enum OutcomeView {
    Success(Seq<char>),
    Truncated(Seq<char>),
    Blocked(Seq<char>, Seq<Seq<char>>),
    Failed(Seq<char>),
}

impl View for Outcome {
    type V = OutcomeView;

    open spec fn view(&self) -> OutcomeView {
        match self {
            Outcome::Success(text) => OutcomeView::Success(text@),
            Outcome::Truncated(text) => OutcomeView::Truncated(text@),
            Outcome::Blocked(reason, categories) => OutcomeView::Blocked(
                reason@,
                texts(categories@),
            ),
            Outcome::Failed(message) => OutcomeView::Failed(message@),
        }
    }
}

/// The categories of the ratings that are flagged as blocked, in order.
pub open spec fn blocked_categories(ratings: Seq<SafetyRating>) -> Seq<Seq<char>>
    decreases ratings.len(),
{
    if ratings.len() == 0 {
        Seq::empty()
    } else {
        let before = blocked_categories(ratings.drop_last());
        if ratings.last().blocked == Some(true) {
            before.push(ratings.last().category@)
        } else {
            before
        }
    }
}

/// The first text segment of a candidate's content, if it has one.
pub open spec fn first_text(candidate: Candidate) -> Option<Seq<char>> {
    match candidate.content {
        Some(content) => if content.parts@.len() > 0 {
            Some(content.parts@[0].text@)
        } else {
            None
        },
        None => None,
    }
}

/// The outcome of a candidate that stopped normally or gave no finish
/// indicator.
pub open spec fn extracted(candidate: Candidate) -> OutcomeView {
    match first_text(candidate) {
        Some(text) => OutcomeView::Success(text),
        None => OutcomeView::Failed("empty content"@),
    }
}

/// The outcome of the first candidate, by its finish indicator.
pub open spec fn classified_candidate(candidate: Candidate) -> OutcomeView {
    match candidate.finish_reason {
        None => extracted(candidate),
        Some(reason) => if reason@ == "STOP"@ {
            extracted(candidate)
        } else if reason@ == "SAFETY"@ {
            OutcomeView::Blocked("safety filter"@, blocked_categories(candidate.safety_ratings@))
        } else if reason@ == "MAX_TOKENS"@ {
            match first_text(candidate) {
                Some(text) => OutcomeView::Truncated(text),
                None => OutcomeView::Failed("token limit, no content"@),
            }
        } else if reason@ == "RECITATION"@ {
            OutcomeView::Blocked("recitation"@, Seq::empty())
        } else {
            OutcomeView::Failed("unexpected finish reason: "@ + reason@)
        },
    }
}

/// The prompt-level block indicator of a response, if it carries one.
pub open spec fn prompt_block(response: GeminiResponse) -> Option<(Seq<char>, Seq<Seq<char>>)> {
    match response.prompt_feedback {
        Some(feedback) => match feedback.block_reason {
            Some(reason) => Some((reason@, blocked_categories(feedback.safety_ratings@))),
            None => None,
        },
        None => None,
    }
}

/// The outcome that a response stands for. A prompt-level block wins over
/// everything else; then the first candidate decides.
pub open spec fn classified(response: GeminiResponse) -> OutcomeView {
    match prompt_block(response) {
        Some((reason, categories)) => OutcomeView::Blocked(reason, categories),
        None => if response.candidates@.len() == 0 {
            OutcomeView::Failed("empty response"@)
        } else {
            classified_candidate(response.candidates@[0])
        },
    }
}

/// Collects the categories of the ratings that are flagged as blocked.
pub fn collect_blocked(ratings: &Vec<SafetyRating>) -> (out: Vec<String>)
    ensures
        texts(out@) == blocked_categories(ratings@),
{
    let mut out: Vec<String> = Vec::new();
    let mut i: usize = 0;
    proof {
        assert(texts(out@) =~= blocked_categories(ratings@.take(0)));
    }
    while i < ratings.len()
        invariant
            i <= ratings.len(),
            texts(out@) == blocked_categories(ratings@.take(i as int)),
        decreases ratings.len() - i,
    {
        let ghost before = out@;
        proof {
            assert(ratings@.take(i + 1).drop_last() =~= ratings@.take(i as int));
            assert(ratings@.take(i + 1).last() == ratings@[i as int]);
        }
        let rating = &ratings[i];
        let flagged = match rating.blocked {
            Some(b) => b,
            None => false,
        };
        if flagged {
            out.push(rating.category.clone());
            proof {
                assert(texts(out@) =~= texts(before).push(rating.category@));
            }
        }
        i += 1;
    }
    proof {
        assert(ratings@.take(i as int) =~= ratings@);
    }
    out
}

/// The first text segment of a candidate's content.
fn first_text_of(candidate: &Candidate) -> (text: Option<String>)
    ensures
        match text {
            Some(t) => first_text(*candidate) == Some(t@),
            None => first_text(*candidate) is None,
        },
{
    match &candidate.content {
        Some(content) => {
            if content.parts.len() > 0 {
                Some(content.parts[0].text.clone())
            } else {
                None
            }
        },
        None => None,
    }
}

/// Extraction for a candidate that stopped normally.
fn extract(candidate: &Candidate) -> (outcome: Outcome)
    ensures
        outcome@ == extracted(*candidate),
{
    match first_text_of(candidate) {
        Some(text) => Outcome::Success(text),
        None => Outcome::Failed(String::from_str("empty content")),
    }
}

/// Classifies a candidate by its finish indicator.
pub fn classify_candidate(candidate: &Candidate) -> (outcome: Outcome)
    ensures
        outcome@ == classified_candidate(*candidate),
{
    match &candidate.finish_reason {
        None => extract(candidate),
        Some(reason) => {
            if is_text(reason, "STOP") {
                extract(candidate)
            } else if is_text(reason, "SAFETY") {
                Outcome::Blocked(
                    String::from_str("safety filter"),
                    collect_blocked(&candidate.safety_ratings),
                )
            } else if is_text(reason, "MAX_TOKENS") {
                match first_text_of(candidate) {
                    Some(text) => Outcome::Truncated(text),
                    None => Outcome::Failed(String::from_str("token limit, no content")),
                }
            } else if is_text(reason, "RECITATION") {
                let none: Vec<String> = Vec::new();
                proof {
                    assert(texts(none@) =~= Seq::<Seq<char>>::empty());
                }
                Outcome::Blocked(String::from_str("recitation"), none)
            } else {
                Outcome::Failed(
                    String::from_str("unexpected finish reason: ").concat(reason.as_str()),
                )
            }
        },
    }
}

/// Maps a provider response to its terminal outcome. The function reads
/// nothing but the response.
pub fn classify(response: &GeminiResponse) -> (outcome: Outcome)
    ensures
        outcome@ == classified(*response),
{
    if let Some(feedback) = &response.prompt_feedback {
        if let Some(reason) = &feedback.block_reason {
            return Outcome::Blocked(reason.clone(), collect_blocked(&feedback.safety_ratings));
        }
    }
    if response.candidates.len() == 0 {
        Outcome::Failed(String::from_str("empty response"))
    } else {
        classify_candidate(&response.candidates[0])
    }
}

/// A response that carries a prompt-level block indicator is classified as
/// blocked, with that reason, whatever its candidates hold.
pub proof fn lemma_prompt_block_wins(response: GeminiResponse)
    requires
        prompt_block(response) is Some,
    ensures
        match prompt_block(response) {
            Some((reason, categories)) => classified(response) == OutcomeView::Blocked(
                reason,
                categories,
            ),
            None => false,
        },
{
}

/// A response without a prompt-level block whose first candidate stopped at
/// the length limit and has a first text segment is classified as truncated,
/// with that text unchanged.
pub proof fn lemma_length_limit_keeps_text(response: GeminiResponse, text: Seq<char>)
    requires
        prompt_block(response) is None,
        response.candidates@.len() > 0,
        response.candidates@[0].finish_reason is Some,
        response.candidates@[0].finish_reason->0@ == "MAX_TOKENS"@,
        first_text(response.candidates@[0]) == Some(text),
    ensures
        classified(response) == OutcomeView::Truncated(text),
{
    // The finish indicators tested before this one differ from it in length.
    reveal_strlit("MAX_TOKENS");
    reveal_strlit("STOP");
    reveal_strlit("SAFETY");
    assert("MAX_TOKENS"@.len() == 10);
    assert("STOP"@.len() == 4);
    assert("SAFETY"@.len() == 6);
}

} // verus!
