//! The decisions of the HTTP entry point.
//!
//! A request is first authenticated; its body is then read as an
//! interaction by the caller; a Ping is answered at once and every other
//! interaction is handed to a Lambda function, whose reply, or an apology
//! when it fails, goes back to Discord.

use crate::discord::types::{Interaction, InteractionCallbackType, InteractionResponse, InteractionType, EPHEMERAL_FLAG};
use crate::discord::verification::{request_verdict, verify_discord_signature};
use crate::json::{json_quote, json_string_literal};
use crate::lambda_invoker::{lambda_route, route_of, LambdaInvokerError, LambdaReply, LambdaRoute, RouteSpec};
use crate::text::{utf8_lossy, utf8_lossy_text};
use vstd::prelude::*;
use vstd::string::StringExecFns;

verus! {

/// An HTTP response: status, content type and body.
#[derive(Debug)]
pub struct HttpResponse {
    pub status: u16,
    pub content_type: String,
    pub body: String,
}

impl HttpResponse {
    /// The status code.
    pub fn status(&self) -> (s: u16)
        ensures
            s == self.status,
    {
        self.status
    }
}

/// The content type of every response.
pub open spec fn json_content_type() -> Seq<char> {
    "application/json"@
}

/// The body of an error response: a JSON object whose `error` is the message.
pub open spec fn error_body(message: Seq<char>) -> Seq<char> {
    "{\"error\":"@ + json_string_literal(message) + "}"@
}

/// Whether a status code is one that an HTTP response can carry.
pub open spec fn valid_status(status: u16) -> bool {
    100 <= status <= 999
}

/// A JSON response with `status`; `body` is the outcome of serializing the
/// payload, and a failed serialization gives the empty object.
pub fn build_json_response(status: u16, body: Result<String, serde_json::Error>) -> (r: HttpResponse)
    requires
        valid_status(status),
    ensures
        r.status == status,
        r.content_type@ == json_content_type(),
        match body {
            Ok(t) => r.body@ == t@,
            Err(_) => r.body@ == "{}"@,
        },
{
    let text = match body {
        Ok(t) => t,
        Err(_) => "{}".to_string(),
    };
    HttpResponse { status, content_type: "application/json".to_string(), body: text }
}

/// A JSON response with `status` whose body is `{"error": message}`.
pub fn build_error_response(status: u16, message: String) -> (r: HttpResponse)
    requires
        valid_status(status),
    ensures
        r.status == status,
        r.content_type@ == json_content_type(),
        r.body@ == error_body(message@),
{
    let body = match json_quote(message.as_str()) {
        Ok(quoted) => Ok("{\"error\":".to_string().concat(quoted.as_str()).concat("}")),
        Err(e) => Err(e),
    };
    build_json_response(status, body)
}

/// The text of the reply when the Lambda side fails.
pub open spec fn processing_error_text() -> Seq<char> {
    "An error occurred while processing your interaction. Please try again later."@
}

/// Whether `r` is the error response with `status` and `message`.
pub open spec fn is_error_response(r: HttpResponse, status: u16, message: Seq<char>) -> bool {
    &&& r.status == status
    &&& r.content_type@ == json_content_type()
    &&& r.body@ == error_body(message)
}

/// The body of a request whose signature verified, with the headers and key
/// that it verified under. Only `authenticate_request` makes one.
pub struct AuthenticatedRequest {
    body: String,
    public_key: Ghost<Seq<char>>,
    signature: Ghost<Seq<char>>,
    timestamp: Ghost<Seq<char>>,
}

impl AuthenticatedRequest {
    /// The signature verified under the key over the timestamp and the body.
    #[verifier::type_invariant]
    spec fn signed(self) -> bool {
        request_verdict(self.public_key@, self.signature@, self.timestamp@, self.body@) is Valid
    }

    /// The body, as text.
    pub closed spec fn body_text(&self) -> Seq<char> {
        self.body@
    }

    /// The public key that the signature verified under.
    pub closed spec fn public_key_text(&self) -> Seq<char> {
        self.public_key@
    }

    /// The signature header.
    pub closed spec fn signature_text(&self) -> Seq<char> {
        self.signature@
    }

    /// The timestamp header.
    pub closed spec fn timestamp_text(&self) -> Seq<char> {
        self.timestamp@
    }

    /// Whether the request's signature verifies under its key.
    pub open spec fn is_signed(&self) -> bool {
        request_verdict(
            self.public_key_text(),
            self.signature_text(),
            self.timestamp_text(),
            self.body_text(),
        ) is Valid
    }

    /// The body, as text, for the caller to read the interaction from.
    pub fn body(&self) -> (b: &str)
        ensures
            b@ == self.body_text(),
    {
        self.body.as_str()
    }
}

/// Authenticates a request from its signature and timestamp headers (empty
/// when absent) and its raw body.
///
/// On success, gives the body as text, each invalid UTF-8 sequence replaced,
/// held as an `AuthenticatedRequest`;
/// otherwise gives the 401 response to send: for a missing signature, a
/// missing timestamp, or a signature that does not verify.
pub fn authenticate_request(public_key: &str, signature: &str, timestamp: &str, body: &[u8]) -> (res:
    Result<AuthenticatedRequest, HttpResponse>)
    ensures
        signature@.len() == 0 ==> (res matches Err(r) && is_error_response(
            r,
            401,
            "Missing signature header"@,
        )),
        signature@.len() != 0 && timestamp@.len() == 0 ==> (res matches Err(r)
            && is_error_response(r, 401, "Missing timestamp header"@)),
        signature@.len() != 0 && timestamp@.len() != 0 ==> {
            let verdict = request_verdict(
                public_key@,
                signature@,
                timestamp@,
                utf8_lossy_text(body@),
            );
            if verdict is Valid {
                res matches Ok(a) && a.body_text() == utf8_lossy_text(body@)
                    && a.public_key_text() == public_key@ && a.signature_text() == signature@
                    && a.timestamp_text() == timestamp@
            } else {
                res matches Err(r) && is_error_response(r, 401, "Invalid request signature"@)
            }
        },
{
    let body_text = utf8_lossy(body);
    if signature.is_empty() {
        return Err(build_error_response(401, "Missing signature header".to_string()));
    }
    if timestamp.is_empty() {
        return Err(build_error_response(401, "Missing timestamp header".to_string()));
    }
    match verify_discord_signature(public_key, signature, timestamp, body_text.as_str()) {
        Ok(()) => Ok(
            AuthenticatedRequest {
                body: body_text,
                public_key: Ghost(public_key@),
                signature: Ghost(signature@),
                timestamp: Ghost(timestamp@),
            },
        ),
        Err(_) => Err(build_error_response(401, "Invalid request signature".to_string())),
    }
}

/// The next step of the entry point.
pub enum HandlerAction {
    /// Send this response.
    Reply(HttpResponse),
    /// Send this interaction reply as JSON with this status.
    ReplyWith { status: u16, response: InteractionResponse },
    /// Invoke the Lambda function of this name with the interaction.
    Invoke(String),
}

/// Whether `a` answers with the apology for a failure on the Lambda side.
pub open spec fn is_apology(a: HandlerAction) -> bool {
    a matches HandlerAction::ReplyWith { status, response: r } && status == 200 && r.is_message_reply(
        processing_error_text(),
        Some(EPHEMERAL_FLAG),
    )
}

/// Decides what to do with an authenticated request, given the interaction
/// read from its body, or `None` when the body was not an interaction. Only
/// a request whose signature verified can be dispatched.
pub fn dispatch_interaction(request: &AuthenticatedRequest, interaction: Option<&Interaction>) -> (a:
    HandlerAction)
    ensures
        request.is_signed(),
        match interaction {
            None => a matches HandlerAction::Reply(r) && is_error_response(
                r,
                400,
                "Invalid request body"@,
            ),
            Some(i) => if i.interaction_type == InteractionType::Ping {
                a matches HandlerAction::ReplyWith { status, response: r } && status == 200 && r.response_type
                    == InteractionCallbackType::Pong && r.data is None
            } else {
                match route_of(*i) {
                    RouteSpec::Invoke(f) => a matches HandlerAction::Invoke(g) && g@ == f,
                    RouteSpec::Reply(t) => a matches HandlerAction::Reply(r) && r.status == 200
                        && r.content_type@ == json_content_type() && r.body@ == t,
                    _ => is_apology(a),
                }
            },
        },
{
    proof {
        use_type_invariant(request);
    }
    match interaction {
        None => HandlerAction::Reply(build_error_response(400, "Invalid request body".to_string())),
        Some(i) => {
            if i.interaction_type == InteractionType::Ping {
                HandlerAction::ReplyWith { status: 200, response: InteractionResponse::pong() }
            } else {
                match lambda_route(i) {
                    Ok(LambdaRoute::Invoke(f)) => HandlerAction::Invoke(f),
                    Ok(LambdaRoute::Reply(t)) => HandlerAction::Reply(
                        build_json_response(200, Ok(t)),
                    ),
                    Err(_) => HandlerAction::ReplyWith {
                        status: 200,
                        response: InteractionResponse::ephemeral_message(
                            "An error occurred while processing your interaction. Please try again later.".to_string(),
                        ),
                    },
                }
            }
        },
    }
}

/// Decides the response to an interaction that went to a Lambda function,
/// from the outcome of the invocation.
pub fn complete_invocation(outcome: Result<LambdaReply, LambdaInvokerError>) -> (a: HandlerAction)
    ensures
        match outcome {
            Ok(LambdaReply::Payload(t)) => a matches HandlerAction::Reply(r) && r.status == 200
                && r.content_type@ == json_content_type() && r.body@ == t@,
            Ok(LambdaReply::Empty) => a matches HandlerAction::Reply(r) && r.status == 200
                && r.content_type@ == json_content_type() && r.body@ == "null"@,
            Err(_) => is_apology(a),
        },
{
    match outcome {
        Ok(LambdaReply::Payload(t)) => HandlerAction::Reply(build_json_response(200, Ok(t))),
        Ok(LambdaReply::Empty) => HandlerAction::Reply(build_json_response(200, Ok("null".to_string()))),
        Err(_) => HandlerAction::ReplyWith {
            status: 200,
            response: InteractionResponse::ephemeral_message(
                "An error occurred while processing your interaction. Please try again later.".to_string(),
            ),
        },
    }
}

} // verus!
