//! A single-route scoring service's core: shaping a feature vector into the
//! model's input tensor, reading a scalar back out of the model's output, and
//! mapping every failure of a request to its HTTP status.
//!
//! Feature values and scores are IEEE-754 single-precision numbers, carried
//! here as their 32-bit patterns (`f32::to_bits` / `f32::from_bits`): the
//! library never does arithmetic on them, it only moves them.

mod codec;
mod config;
mod handler;

pub use codec::{encode_view, first_or_zero, extract_scalar, to_input_tensor, EncodeError, OutputTypeError, InputTensor, RawOutput, TensorView, ZERO_BITS};
pub use config::{Config, DEFAULT_LISTEN_ADDR, DEFAULT_MODEL_PATH};
pub use handler::{accept_body, accepted, conclude, concluded, error_status, reply_status, RequestError, Reply, Step};
pub use handler::{lemma_malformed_body_is_bad_request, lemma_empty_features_are_refused, lemma_nonempty_features_are_scored, lemma_tensor_row_matches_features};
pub use handler::{STATUS_BAD_REQUEST, STATUS_INTERNAL_ERROR, STATUS_OK};
