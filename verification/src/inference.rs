//! The decisions of the inference fan-out: where a request goes, and whether
//! its response is taken.

use vstd::prelude::*;
use vstd::string::StringExecFns;

verus! {

/// The base of the inference endpoint; the model identifier follows it.
pub const ENDPOINT: &'static str = "https://api-inference.huggingface.co/models";

/// The one status with which a response is taken.
pub const STATUS_OK: u16 = 200;

/// Why an image got no manifest from the endpoint.
#[derive(Debug, Clone, Copy, PartialEq, Eq)]
pub enum InferenceError {
    /// The request did not get through, or the response had another status
    /// than `STATUS_OK`.
    InferenceRequestFailed,
}

impl InferenceError {
    /// The text of the diagnostic for this error.
    pub open spec fn message_of(self) -> Seq<char> {
        match self {
            InferenceError::InferenceRequestFailed => "Inference request failed."@,
        }
    }

    /// The diagnostic for this error.
    pub fn message(&self) -> (m: String)
        ensures
            m@ == self.message_of(),
    {
        match self {
            InferenceError::InferenceRequestFailed => String::from_str("Inference request failed."),
        }
    }
}

/// The address that the image of a request for `model` is posted to.
pub open spec fn request_url_of(model: Seq<char>) -> Seq<char> {
    ENDPOINT@ + seq!['/'] + model
}

/// Builds the address that the image of a request for `model` is posted to.
pub fn request_url(model: &str) -> (url: String)
    ensures
        url@ == request_url_of(model@),
{
    proof {
        reveal_strlit("/");
        assert("/"@ =~= seq!['/']);
    }
    String::from_str(ENDPOINT).concat("/").concat(model)
}

/// Decides whether a response is taken. `status` is the status of the
/// response, or nothing where the request did not get through.
pub fn check_response(status: Option<u16>) -> (r: Result<(), InferenceError>)
    ensures
        r is Ok <==> status == Some(STATUS_OK),
        r is Err ==> r->Err_0 == InferenceError::InferenceRequestFailed,
{
    match status {
        Some(code) => if code == STATUS_OK {
            Ok(())
        } else {
            Err(InferenceError::InferenceRequestFailed)
        },
        None => Err(InferenceError::InferenceRequestFailed),
    }
}

} // verus!
