//! The read side of the application, and the decisions taken on the way
//! from a prediction request to a submitted signal.
//!
//! Fetching market data and calling the model are the caller's business.
//! What is decided here: which strategy a request selects, what the model's
//! HTTP response means, and which signal its answer amounts to.

use crate::metrics::AccuracyMetrics;
use crate::reply::{LlmReply, LlmReplyView};
use crate::signal::Signal;
use crate::state::BotState;
use crate::text::same_text;
use vstd::prelude::*;
use vstd::slice::slice_to_vec;

verus! {

/// The HTTP status of a response that carries an answer.
pub const HTTP_OK: u16 = 200;

/// What `serde_json` reads from `body` as a chat completion.
///
/// `Err` holds the decoder's message if `body` is not a JSON document.
/// Otherwise `Ok` holds the string found under `choices`, index 0,
/// `message`, `content`, or `None` if that path is missing somewhere or
/// ends in something other than a string.
pub uninterp spec fn completion_text(body: Seq<u8>) -> Result<Option<Seq<char>>, Seq<char>>;

/// Decodes `body` with `serde_json::from_slice` into a `serde_json::Value`
/// and looks up `["choices"][0]["message"]["content"]` as a string.
///
/// The contract claims only that the outcome is a function of the bytes:
/// decoding fails or succeeds, and finds the same text, whenever it is
/// given the same body.
#[verifier::external_body]
fn decode_completion(body: &[u8]) -> (decoded: Result<Option<String>, String>)
    ensures
        match decoded {
            Ok(Some(text)) => completion_text(body@) == Ok::<Option<Seq<char>>, Seq<char>>(
                Some(text@),
            ),
            Ok(None) => completion_text(body@) == Ok::<Option<Seq<char>>, Seq<char>>(None),
            Err(detail) => completion_text(body@) == Err::<Option<Seq<char>>, Seq<char>>(detail@),
        },
{
    match serde_json::from_slice::<serde_json::Value>(body) {
        Ok(document) => Ok(
            document["choices"][0]["message"]["content"].as_str().map(String::from),
        ),
        Err(error) => Err(error.to_string()),
    }
}

/// Why no reply could be read from the model's response.
#[derive(Debug, PartialEq, Eq)]
pub enum InferenceError {
    /// The service answered with a status other than 200.
    Api { status: u16, body: Vec<u8> },
    /// The body is not a JSON document; `detail` is the decoder's message.
    Malformed { detail: String },
    /// The document holds no text where the completion belongs.
    NoContent,
}

/// Mathematical model of an [`InferenceError`].
pub enum InferenceErrorView {
    Api { status: u16, body: Seq<u8> },
    Malformed { detail: Seq<char> },
    NoContent,
}

impl View for InferenceError {
    type V = InferenceErrorView;

    open spec fn view(&self) -> InferenceErrorView {
        match self {
            InferenceError::Api { status, body } => InferenceErrorView::Api {
                status: *status,
                body: body@,
            },
            InferenceError::Malformed { detail } => InferenceErrorView::Malformed {
                detail: detail@,
            },
            InferenceError::NoContent => InferenceErrorView::NoContent,
        }
    }
}

/// Why a prediction request was turned down before any call was made.
#[derive(Clone, Copy, Debug, PartialEq, Eq, Structural)]
pub enum PredictionError {
    /// The strategy needs an API key and none was given.
    ApiKeyRequired,
    /// The strategy is known but is served elsewhere.
    NotImplemented,
    /// No strategy goes by that name.
    UnknownStrategy,
}

/// The call a prediction request asks for.
#[derive(Debug, PartialEq, Eq)]
pub enum PredictionPlan {
    /// Ask the hosted model, authorised by `api_key`.
    Inference { api_key: String },
}

/// Mathematical model of a [`PredictionPlan`].
pub enum PredictionPlanView {
    Inference { api_key: Seq<char> },
}

impl View for PredictionPlan {
    type V = PredictionPlanView;

    open spec fn view(&self) -> PredictionPlanView {
        match self {
            PredictionPlan::Inference { api_key } => PredictionPlanView::Inference {
                api_key: api_key@,
            },
        }
    }
}

/// Whether `strategy` names a strategy that another service runs.
pub open spec fn is_served_elsewhere(strategy: Seq<char>) -> bool {
    strategy == "deepseek"@ || strategy == "qwen-vertex"@ || strategy == "gpt-oss-vertex"@
}

/// What a request for `strategy` with `api_key` leads to.
pub open spec fn prediction_plan(strategy: Seq<char>, api_key: Option<Seq<char>>) -> Result<
    PredictionPlanView,
    PredictionError,
> {
    if strategy == "gemma"@ {
        match api_key {
            Some(key) => Ok(PredictionPlanView::Inference { api_key: key }),
            None => Err(PredictionError::ApiKeyRequired),
        }
    } else if is_served_elsewhere(strategy) {
        Err(PredictionError::NotImplemented)
    } else {
        Err(PredictionError::UnknownStrategy)
    }
}

/// What a decoded completion amounts to: the reply read from its text, or
/// the reason there is none.
pub open spec fn completion_reply(decoded: Result<Option<Seq<char>>, Seq<char>>) -> Result<
    LlmReplyView,
    InferenceErrorView,
> {
    match decoded {
        Ok(Some(text)) => Ok(LlmReplyView::parse(text)),
        Ok(None) => Err(InferenceErrorView::NoContent),
        Err(detail) => Err(InferenceErrorView::Malformed { detail }),
    }
}

/// What an HTTP response of the model's service amounts to.
pub open spec fn response_reply(status: u16, body: Seq<u8>) -> Result<
    LlmReplyView,
    InferenceErrorView,
> {
    if status != HTTP_OK {
        Err(InferenceErrorView::Api { status, body })
    } else {
        completion_reply(completion_text(body))
    }
}

/// The view of a result whose two sides have views.
pub open spec fn reply_result_view(result: Result<LlmReply, InferenceError>) -> Result<
    LlmReplyView,
    InferenceErrorView,
> {
    match result {
        Ok(reply) => Ok(reply@),
        Err(error) => Err(error@),
    }
}

/// The read side of the application.
#[derive(Debug, PartialEq, Eq)]
pub struct BotStateService {
    pub state: BotState,
}

impl BotStateService {
    /// A service over `state`.
    pub fn new(state: BotState) -> (service: BotStateService)
        ensures
            service.state == state,
    {
        BotStateService { state }
    }

    /// The bot's unique identifier.
    pub fn bot_id(&self) -> (bot_id: &String)
        ensures
            *bot_id == self.state.bot_id,
    {
        &self.state.bot_id
    }

    /// The latest prediction signal.
    pub fn latest_signal(&self) -> (signal: &Option<Signal>)
        ensures
            *signal == self.state.latest_signal,
    {
        &self.state.latest_signal
    }

    /// The accuracy record.
    pub fn accuracy_24h(&self) -> (metrics: &AccuracyMetrics)
        ensures
            *metrics == self.state.accuracy_24h,
    {
        &self.state.accuracy_24h
    }

    /// The number of followers.
    pub fn follower_count(&self) -> (count: u64)
        ensures
            count == self.state.follower_count,
    {
        self.state.follower_count
    }

    /// Decides what a prediction request asks for.
    ///
    /// `gemma` asks for a call to the hosted model and needs an API key.
    /// `deepseek`, `qwen-vertex` and `gpt-oss-vertex` are served elsewhere.
    /// Any other name is unknown.
    pub fn plan_prediction(strategy: &str, api_key: Option<String>) -> (plan: Result<
        PredictionPlan,
        PredictionError,
    >)
        ensures
            match plan {
                Ok(plan) => prediction_plan(
                    strategy@,
                    match api_key {
                        Some(key) => Some(key@),
                        None => None,
                    },
                ) == Ok::<PredictionPlanView, PredictionError>(plan@),
                Err(error) => prediction_plan(
                    strategy@,
                    match api_key {
                        Some(key) => Some(key@),
                        None => None,
                    },
                ) == Err::<PredictionPlanView, PredictionError>(error),
            },
            plan is Ok <==> strategy@ == "gemma"@ && api_key is Some,
    {
        if same_text(strategy, "gemma") {
            match api_key {
                Some(key) => Ok(PredictionPlan::Inference { api_key: key }),
                None => Err(PredictionError::ApiKeyRequired),
            }
        } else if same_text(strategy, "deepseek") || same_text(strategy, "qwen-vertex")
            || same_text(strategy, "gpt-oss-vertex") {
            Err(PredictionError::NotImplemented)
        } else {
            Err(PredictionError::UnknownStrategy)
        }
    }

    /// Reads the model's answer into a reply.
    pub fn parse_llm_response(content: &str) -> (reply: LlmReply)
        ensures
            reply@ == LlmReplyView::parse(content@),
            reply@.within_limits(),
    {
        LlmReply::parse(content)
    }

    /// Turns a decoded completion into a reply: the text is read as an
    /// answer, a missing text and a failed decoding are reported.
    pub fn reply_from_completion(decoded: Result<Option<String>, String>) -> (reply: Result<
        LlmReply,
        InferenceError,
    >)
        ensures
            reply_result_view(reply) == completion_reply(
                match decoded {
                    Ok(Some(text)) => Ok(Some(text@)),
                    Ok(None) => Ok(None),
                    Err(detail) => Err(detail@),
                },
            ),
            reply is Ok <==> decoded matches Ok(Some(_)),
    {
        match decoded {
            Ok(Some(text)) => Ok(LlmReply::parse(text.as_str())),
            Ok(None) => Err(InferenceError::NoContent),
            Err(detail) => Err(InferenceError::Malformed { detail }),
        }
    }

    /// Reads the reply out of an HTTP response of the model's service.
    ///
    /// A status other than 200 is an API error that carries status and
    /// body. Otherwise the body is decoded as a chat completion and its
    /// text read as an answer.
    pub fn read_inference_response(status: u16, body: &[u8]) -> (reply: Result<
        LlmReply,
        InferenceError,
    >)
        ensures
            reply_result_view(reply) == response_reply(status, body@),
            status != 200 ==> reply is Err,
    {
        if status != HTTP_OK {
            return Err(InferenceError::Api { status, body: slice_to_vec(body) });
        }
        let decoded = decode_completion(body);
        BotStateService::reply_from_completion(decoded)
    }
}

} // verus!
