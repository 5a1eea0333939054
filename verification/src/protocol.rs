use crate::primes::{is_prime, is_prime_spec};
use vstd::prelude::*;
use vstd::string::StringExecFns;

verus! {

/// A decoded request: the method named by the peer and the number to test.
#[derive(Debug)]
pub struct Request {
    pub method: String,
    pub number: usize,
}

/// A successful answer: the method echoed back and the primality verdict.
#[derive(Debug)]
pub struct Response {
    pub method: String,
    pub prime: bool,
}

impl PartialEq for Response {
    fn eq(&self, other: &Response) -> (r: bool) {
        self.method == other.method && self.prime == other.prime
    }
}

impl vstd::std_specs::cmp::PartialEqSpecImpl for Response {
    open spec fn obeys_eq_spec() -> bool {
        true
    }

    open spec fn eq_spec(&self, other: &Response) -> bool {
        self.method@ == other.method@ && self.prime == other.prime
    }
}

/// The error message sent back when the inbound bytes did not decode,
/// wrapping the decoder's own diagnostic.
pub open spec fn decode_failure_message(detail: Seq<char>) -> Seq<char> {
    "JSON decode failed: "@ + detail
}

/// The error message for a well-formed request whose method is not served.
pub open spec fn unknown_method_message(method: Seq<char>) -> Seq<char> {
    "unknown method: "@ + method
}

/// What `handle_request` returns for a given decode outcome: a response
/// exactly when the method is `isPrime`, and otherwise the error message
/// matching the failure.
pub open spec fn handle_request_post(
    decoded: Result<Request, String>,
    r: Result<Response, String>,
) -> bool {
    match decoded {
        Ok(req) => {
            if req.method@ == "isPrime"@ {
                &&& r matches Ok(resp)
                &&& resp.method@ == req.method@
                &&& resp.prime == is_prime_spec(req.number as int)
            } else {
                &&& r matches Err(msg)
                &&& msg@ == unknown_method_message(req.method@)
            }
        },
        Err(detail) => {
            &&& r matches Err(msg)
            &&& msg@ == decode_failure_message(detail@)
        },
    }
}

/// Answer one request, given the outcome of decoding the inbound bytes:
/// a decode failure or an unknown method yields the corresponding error
/// message; otherwise the number's primality is computed and echoed back
/// under the request's method name.
pub fn handle_request(decoded: Result<Request, String>) -> (r: Result<Response, String>)
    ensures
        handle_request_post(decoded, r),
{
    match decoded {
        Ok(req) => {
            if req.method == "isPrime".to_owned() {
                let prime = is_prime(req.number);
                Ok(Response { method: req.method, prime })
            } else {
                let mut msg = "unknown method: ".to_owned();
                msg.append(req.method.as_str());
                Err(msg)
            }
        },
        Err(detail) => {
            let mut msg = "JSON decode failed: ".to_owned();
            msg.append(detail.as_str());
            Err(msg)
        },
    }
}

/// The JSON text of a response: a two-field object with the method under
/// `method` and the verdict under `prime`.
pub open spec fn response_json(method: Seq<char>, prime: bool) -> Seq<char> {
    "{\"method\":\""@ + method + "\",\"prime\":"@ + (if prime {
        "true"@
    } else {
        "false"@
    }) + "}"@
}

/// Encode a response as its JSON text.
pub fn encode_response(resp: &Response) -> (r: String)
    ensures
        r@ == response_json(resp.method@, resp.prime),
{
    let mut s = "{\"method\":\"".to_owned();
    s.append(resp.method.as_str());
    s.append("\",\"prime\":");
    if resp.prime {
        s.append("true");
    } else {
        s.append("false");
    }
    s.append("}");
    proof {
        assert(s@ =~= response_json(resp.method@, resp.prime));
    }
    s
}

/// What the connection task does after one exchange, per the error
/// taxonomy: a served request keeps the connection open; a decode failure
/// sends a best-effort diagnostic and closes; an unknown method closes
/// without sending a body.
pub enum Step {
    Respond { json: String },
    FailDecode { message: String },
    FailMethod { message: String },
}

/// What `connection_step` decides for a given decode outcome: the reply
/// category and its exact text.
pub open spec fn connection_step_post(decoded: Result<Request, String>, step: Step) -> bool {
    match decoded {
        Ok(req) => {
            if req.method@ == "isPrime"@ {
                &&& step matches Step::Respond { json }
                &&& json@ == response_json(req.method@, is_prime_spec(req.number as int))
            } else {
                &&& step matches Step::FailMethod { message }
                &&& message@ == unknown_method_message(req.method@)
            }
        },
        Err(detail) => {
            &&& step matches Step::FailDecode { message }
            &&& message@ == decode_failure_message(detail@)
        },
    }
}

impl Step {
    /// The bytes to write back for this step, if any: the response text for
    /// a served request, the diagnostic for a decode failure, and nothing
    /// for an unknown method.
    pub fn reply(&self) -> (r: Option<&String>)
        ensures
            match self {
                Step::Respond { json } => r matches Some(s) && s@ == json@,
                Step::FailDecode { message } => r matches Some(s) && s@ == message@,
                Step::FailMethod { .. } => r is None,
            },
    {
        match self {
            Step::Respond { json } => Some(json),
            Step::FailDecode { message } => Some(message),
            Step::FailMethod { .. } => None,
        }
    }

    /// The line to log for this step: each failure is logged, a served
    /// request is not.
    pub fn diagnostic(&self) -> (r: Option<&String>)
        ensures
            match self {
                Step::Respond { .. } => r is None,
                Step::FailDecode { message } => r matches Some(s) && s@ == message@,
                Step::FailMethod { message } => r matches Some(s) && s@ == message@,
            },
    {
        match self {
            Step::Respond { .. } => None,
            Step::FailDecode { message } => Some(message),
            Step::FailMethod { message } => Some(message),
        }
    }

    /// Whether the connection stays open after this step: only after a
    /// successfully served request.
    pub fn keep_open(&self) -> (r: bool)
        ensures
            r == (self matches Step::Respond { .. }),
    {
        match self {
            Step::Respond { .. } => true,
            _ => false,
        }
    }
}

/// Decide one full exchange of the prime-check connection loop: answer the
/// decoded request and classify the outcome, so that the caller only
/// performs the chosen action.
pub fn connection_step(decoded: Result<Request, String>) -> (step: Step)
    ensures
        connection_step_post(decoded, step),
{
    let decode_failed = decoded.is_err();
    match handle_request(decoded) {
        Ok(response) => {
            let json = encode_response(&response);
            Step::Respond { json }
        },
        Err(message) => {
            if decode_failed {
                Step::FailDecode { message }
            } else {
                Step::FailMethod { message }
            }
        },
    }
}

/// The observable content of a handling outcome: the field values of the
/// response, or the error message.
pub open spec fn outcome_view(r: Result<Response, String>) -> Result<(Seq<char>, bool), Seq<char>> {
    match r {
        Ok(resp) => Ok((resp.method@, resp.prime)),
        Err(msg) => Err(msg@),
    }
}

/// Handling is a function of the decoded request alone: any two outcomes
/// allowed for the same decode outcome carry the same content, so repeating
/// an identical request on an open connection repeats the same answer.
pub proof fn lemma_handle_request_deterministic(
    decoded: Result<Request, String>,
    r1: Result<Response, String>,
    r2: Result<Response, String>,
)
    requires
        handle_request_post(decoded, r1),
        handle_request_post(decoded, r2),
    ensures
        outcome_view(r1) == outcome_view(r2),
{
}

} // verus!
