use vstd::prelude::*;
use vstd::string::StringExecFns;
use crate::codec::{encode_view, extract_scalar, first_or_zero, to_input_tensor, EncodeError, InputTensor, OutputTypeError, RawOutput, TensorView};

verus! {

pub const STATUS_OK: u16 = 200;
pub const STATUS_BAD_REQUEST: u16 = 400;
pub const STATUS_INTERNAL_ERROR: u16 = 500;

/// Every way a request can fail after it has reached the service.
#[derive(Debug, PartialEq, Eq)]
pub enum RequestError {
    /// The body is not JSON of the form `{ "features": [number, ...] }`; the
    /// decoder's reason.
    Parse(String),
    /// The feature list is empty.
    EmptyFeatures,
    /// The features could not be shaped into the model's input; the reason.
    Shape(String),
    /// The model failed to run; the runtime's reason.
    Inference(String),
    /// The model's output could not be read as floats; the runtime's reason.
    OutputType(String),
}

/// The HTTP status of each failure: the caller's fault is `400`, the
/// service's own is `500`.
pub open spec fn error_status(e: RequestError) -> u16 {
    match e {
        RequestError::Parse(_) => STATUS_BAD_REQUEST,
        RequestError::EmptyFeatures => STATUS_BAD_REQUEST,
        RequestError::Shape(_) => STATUS_BAD_REQUEST,
        RequestError::Inference(_) => STATUS_INTERNAL_ERROR,
        RequestError::OutputType(_) => STATUS_INTERNAL_ERROR,
    }
}

/// The fixed text that opens each failure's response; the reason, where
/// there is one, follows it.
pub open spec fn headline_text(e: RequestError) -> Seq<char> {
    match e {
        RequestError::Parse(_) => "invalid request body: "@,
        RequestError::EmptyFeatures => "features cannot be empty"@,
        RequestError::Shape(_) => "bad features shape: "@,
        RequestError::Inference(_) => "inference error: "@,
        RequestError::OutputType(_) => "bad output type: "@,
    }
}

/// The whole plain-text response: the headline, then the reason.
pub open spec fn message_text(e: RequestError) -> Seq<char> {
    match e {
        RequestError::Parse(m) => headline_text(e) + m@,
        RequestError::EmptyFeatures => headline_text(e),
        RequestError::Shape(m) => headline_text(e) + m@,
        RequestError::Inference(m) => headline_text(e) + m@,
        RequestError::OutputType(m) => headline_text(e) + m@,
    }
}

impl RequestError {
    pub fn status(&self) -> (r: u16)
        ensures
            r == error_status(*self),
    {
        match self {
            RequestError::Parse(_) => STATUS_BAD_REQUEST,
            RequestError::EmptyFeatures => STATUS_BAD_REQUEST,
            RequestError::Shape(_) => STATUS_BAD_REQUEST,
            RequestError::Inference(_) => STATUS_INTERNAL_ERROR,
            RequestError::OutputType(_) => STATUS_INTERNAL_ERROR,
        }
    }

    pub fn headline(&self) -> (r: String)
        ensures
            r@ == headline_text(*self),
    {
        match self {
            RequestError::Parse(_) => "invalid request body: ".to_owned(),
            RequestError::EmptyFeatures => "features cannot be empty".to_owned(),
            RequestError::Shape(_) => "bad features shape: ".to_owned(),
            RequestError::Inference(_) => "inference error: ".to_owned(),
            RequestError::OutputType(_) => "bad output type: ".to_owned(),
        }
    }

    /// The plain-text body of the failure's response.
    pub fn message(&self) -> (r: String)
        ensures
            r@ == message_text(*self),
    {
        let head = self.headline();
        match self.reason() {
            Some(reason) => head.concat(reason.as_str()),
            None => head,
        }
    }

    /// The underlying reason, for the failures that carry one.
    pub fn reason(&self) -> (r: Option<&String>)
        ensures
            match *self {
                RequestError::Parse(m) => r == Some(&m),
                RequestError::EmptyFeatures => r is None,
                RequestError::Shape(m) => r == Some(&m),
                RequestError::Inference(m) => r == Some(&m),
                RequestError::OutputType(m) => r == Some(&m),
            },
    {
        match self {
            RequestError::Parse(m) => Some(m),
            RequestError::EmptyFeatures => None,
            RequestError::Shape(m) => Some(m),
            RequestError::Inference(m) => Some(m),
            RequestError::OutputType(m) => Some(m),
        }
    }
}

/// The answer to one request.
#[derive(Debug, PartialEq, Eq)]
pub enum Reply {
    /// `200` with `{ "risk": <score> }`.
    Scored(u32),
    /// The failure's status with a plain-text message.
    Failed(RequestError),
}

pub open spec fn reply_status(reply: Reply) -> u16 {
    match reply {
        Reply::Scored(_) => STATUS_OK,
        Reply::Failed(e) => error_status(e),
    }
}

impl Reply {
    pub fn status(&self) -> (r: u16)
        ensures
            r == reply_status(*self),
    {
        match self {
            Reply::Scored(_) => STATUS_OK,
            Reply::Failed(e) => e.status(),
        }
    }
}

/// What to do once the body has been decoded.
pub enum Step {
    /// Run the model on this tensor, then hand its outcome to `conclude`.
    Infer(InputTensor),
    /// Answer at once.
    Respond(Reply),
}

/// The tensor that a decoded body leads to, or the failure that it ends in.
pub open spec fn accepted(parsed: Result<Vec<u32>, String>) -> Result<TensorView, RequestError> {
    match parsed {
        Err(m) => Err(RequestError::Parse(m)),
        Ok(features) => if features.len() == 0 {
            Err(RequestError::EmptyFeatures)
        } else {
            Ok(encode_view(features@))
        },
    }
}

/// The reply that the model's outcome leads to.
pub open spec fn concluded(outcome: Result<RawOutput, String>) -> Reply {
    match outcome {
        Err(m) => Reply::Failed(RequestError::Inference(m)),
        Ok(RawOutput::Unreadable(m)) => Reply::Failed(RequestError::OutputType(m)),
        Ok(RawOutput::Floats(flat)) => Reply::Scored(first_or_zero(flat@)),
    }
}

/// Decides what follows a decoded body: `parsed` holds the feature values, or
/// the decoder's reason for refusing the body.
pub fn accept_body(parsed: Result<Vec<u32>, String>) -> (r: Step)
    ensures
        match r {
            Step::Infer(t) => t.wf() && accepted(parsed) == Ok::<TensorView, RequestError>(t@),
            Step::Respond(reply) => accepted(parsed) matches Err(e) && reply == Reply::Failed(e),
        },
{
    match parsed {
        Err(m) => Step::Respond(Reply::Failed(RequestError::Parse(m))),
        Ok(features) => match to_input_tensor(features) {
            Ok(t) => Step::Infer(t),
            Err(EncodeError::Empty) => Step::Respond(Reply::Failed(RequestError::EmptyFeatures)),
            Err(EncodeError::Shape(m)) => Step::Respond(Reply::Failed(RequestError::Shape(m))),
        },
    }
}

/// Decides the reply from the model's outcome: its output, or the runtime's
/// reason for failing.
pub fn conclude(outcome: Result<RawOutput, String>) -> (r: Reply)
    ensures
        r == concluded(outcome),
{
    match outcome {
        Err(m) => Reply::Failed(RequestError::Inference(m)),
        Ok(output) => match extract_scalar(&output) {
            Ok(score) => Reply::Scored(score),
            Err(OutputTypeError(m)) => Reply::Failed(RequestError::OutputType(m)),
        },
    }
}

/// Every non-empty feature list goes on to the model, and every output of
/// floats that the model returns is answered with `200` and a score.
pub proof fn lemma_nonempty_features_are_scored(features: Vec<u32>, flat: Vec<u32>)
    requires
        features.len() > 0,
    ensures
        accepted(Ok(features)) is Ok,
        concluded(Ok(RawOutput::Floats(flat))) == Reply::Scored(first_or_zero(flat@)),
        reply_status(concluded(Ok(RawOutput::Floats(flat)))) == STATUS_OK,
{
}

/// An empty feature list is refused with `400` and the message "features
/// cannot be empty", before the model is run.
pub proof fn lemma_empty_features_are_refused(features: Vec<u32>)
    requires
        features.len() == 0,
    ensures
        accepted(Ok(features)) == Err::<TensorView, RequestError>(RequestError::EmptyFeatures),
        error_status(RequestError::EmptyFeatures) == STATUS_BAD_REQUEST,
        message_text(RequestError::EmptyFeatures) == "features cannot be empty"@,
{
}

/// A body that does not decode is answered with `400`, whatever the reason.
pub proof fn lemma_malformed_body_is_bad_request(reason: String)
    ensures
        accepted(Err(reason)) matches Err(e) && error_status(e) == STATUS_BAD_REQUEST,
{
}

/// The tensor fed to the model for `N` features has shape `[1, N]`, and its
/// element `(0, i)` is feature `i`.
pub proof fn lemma_tensor_row_matches_features(features: Vec<u32>)
    requires
        features.len() > 0,
    ensures
        accepted(Ok(features)) matches Ok(t) && t.shape == seq![1nat, features.len() as nat]
            && forall|i: int| 0 <= i < features.len() ==> #[trigger] t.at(0, i) == features@[i],
{
    let t = encode_view(features@);
    assert forall|i: int| 0 <= i < features.len() implies #[trigger] t.at(0, i) == features@[i] by {
        assert(0 * t.shape[1] + i == i);
    }
}

} // verus!
