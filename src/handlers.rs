//! Request and response shapes of the HTTP operations, and what each operation
//! answers for each outcome of the work it hands to the agent and the
//! transcript store.
use vstd::prelude::*;
use vstd::string::*;

verus! {

/// Body of a request that opens a session.
pub struct SessionRequest {
    pub prompt: String,
}

/// Generic status/message body.
pub struct ApiResponse {
    pub message: String,
    pub status: String,
}

/// Body answered when a session was opened.
pub struct StartSessionResponse {
    pub message: String,
    pub status: String,
    /// The 128-bit session identifier.
    pub session_id: u128,
}

/// Body of a follow-up prompt into an existing session.
pub struct SessionReplyRequest {
    pub session_id: u128,
    pub prompt: String,
}

/// Body of a request that ends a session.
pub struct EndSessionRequest {
    pub session_id: u128,
}

/// Names of the registered extensions.
pub struct ExtensionsResponse {
    pub extensions: Vec<String>,
}

/// The active provider and model.
pub struct ProviderConfig {
    pub provider: String,
    pub model: String,
}

/// Result of adding or removing an extension, signalled in the body.
pub struct ExtensionResponse {
    pub error: bool,
    pub message: Option<String>,
}

/// What came of driving the agent over a history.
pub enum ReplyOutcome {
    /// The reply stream produced a message; this is its concatenated text.
    Replied(String),
    /// The reply stream ended without producing a message.
    NoReply,
    /// The reply call failed; this is the failure text.
    Failed(String),
}

/// Body of the answer to a start-session request.
pub enum StartSessionBody {
    Started(StartSessionResponse),
    Failed(ApiResponse),
}

/// An HTTP status code with a body.
pub struct Answer<B> {
    pub status_code: u16,
    pub body: B,
}

pub open spec fn api_response_is(r: ApiResponse, message: Seq<char>, status: Seq<char>) -> bool {
    r.message@ == message && r.status@ == status
}

/// What opening session `session_id` answers for `outcome`.
pub open spec fn start_session_answer(
    a: Answer<StartSessionBody>,
    session_id: u128,
    outcome: ReplyOutcome,
) -> bool {
    match outcome {
        ReplyOutcome::Replied(text) => a.status_code == 200 && (a.body matches
            StartSessionBody::Started(s) && s.message@ == text@ && s.status@ == "success"@
            && s.session_id == session_id),
        ReplyOutcome::NoReply => a.status_code == 200 && (a.body matches StartSessionBody::Started(
            s,
        ) && s.message@ == "Session started but no response generated"@ && s.status@
            == "warning"@ && s.session_id == session_id),
        ReplyOutcome::Failed(e) => a.status_code == 500 && (a.body matches StartSessionBody::Failed(
            f,
        ) && api_response_is(f, "Failed to start session: "@ + e@, "error"@)),
    }
}

/// What a reply to a session answers: `None` when the session has no
/// transcript, else the outcome of driving the agent.
pub open spec fn reply_session_answer(a: Answer<ApiResponse>, outcome: Option<ReplyOutcome>) -> bool {
    match outcome {
        None => a.status_code == 404 && api_response_is(a.body, "Session not found"@, "error"@),
        Some(ReplyOutcome::Replied(text)) => a.status_code == 200 && api_response_is(
            a.body,
            "Reply: "@ + text@,
            "success"@,
        ),
        Some(ReplyOutcome::NoReply) => a.status_code == 200 && api_response_is(
            a.body,
            "Reply processed but no response generated"@,
            "warning"@,
        ),
        Some(ReplyOutcome::Failed(e)) => a.status_code == 500 && api_response_is(
            a.body,
            "Failed to reply to session: "@ + e@,
            "error"@,
        ),
    }
}

/// Bits that hold the version and variant of an identifier.
pub const UUID_VERSION_VARIANT_MASK: u128 = 0xF000C000000000000000u128;

/// Version 4 (random), variant RFC 4122, in the bits of
/// `UUID_VERSION_VARIANT_MASK`.
pub const UUID_V4_BITS: u128 = 0x40008000000000000000u128;

/// Relies on `uuid::Uuid::new_v4`: a fresh random identifier whose version
/// field is 4 and whose variant is RFC 4122, read by `Uuid::as_u128` as its
/// 128-bit big-endian value. Nothing more is promised of the value.
#[verifier::external_body]
fn new_session_id() -> (r: u128)
    ensures
        r & UUID_VERSION_VARIANT_MASK == UUID_V4_BITS,
{
    uuid::Uuid::new_v4().as_u128()
}

/// Opens a session for `req`: mints a fresh identifier and turns the prompt
/// into the first prompt of that session.
pub fn begin_session(req: SessionRequest) -> (r: SessionReplyRequest)
    ensures
        r.prompt@ == req.prompt@,
        r.session_id & UUID_VERSION_VARIANT_MASK == UUID_V4_BITS,
{
    SessionReplyRequest { session_id: new_session_id(), prompt: req.prompt }
}

fn api_response(message: String, status: &str) -> (r: ApiResponse)
    ensures
        r.message@ == message@,
        r.status@ == status@,
{
    ApiResponse { message, status: String::from_str(status) }
}

/// Answer to a start-session request for session `session_id`, given what
/// came of driving the agent over the one-message history.
pub fn start_session_handler(session_id: u128, outcome: ReplyOutcome) -> (r: Answer<
    StartSessionBody,
>)
    ensures
        start_session_answer(r, session_id, outcome),
{
    match outcome {
        ReplyOutcome::Replied(text) => Answer {
            status_code: 200,
            body: StartSessionBody::Started(
                StartSessionResponse {
                    message: text,
                    status: String::from_str("success"),
                    session_id,
                },
            ),
        },
        ReplyOutcome::NoReply => Answer {
            status_code: 200,
            body: StartSessionBody::Started(
                StartSessionResponse {
                    message: String::from_str("Session started but no response generated"),
                    status: String::from_str("warning"),
                    session_id,
                },
            ),
        },
        ReplyOutcome::Failed(e) => Answer {
            status_code: 500,
            body: StartSessionBody::Failed(
                api_response(
                    String::from_str("Failed to start session: ").concat(e.as_str()),
                    "error",
                ),
            ),
        },
    }
}

/// Answer to a reply request: `None` when the session has no transcript,
/// else what came of driving the agent over the extended history.
pub fn reply_session_handler(outcome: Option<ReplyOutcome>) -> (r: Answer<ApiResponse>)
    ensures
        reply_session_answer(r, outcome),
{
    match outcome {
        None => Answer {
            status_code: 404,
            body: api_response(String::from_str("Session not found"), "error"),
        },
        Some(ReplyOutcome::Replied(text)) => Answer {
            status_code: 200,
            body: api_response(String::from_str("Reply: ").concat(text.as_str()), "success"),
        },
        Some(ReplyOutcome::NoReply) => Answer {
            status_code: 200,
            body: api_response(
                String::from_str("Reply processed but no response generated"),
                "warning",
            ),
        },
        Some(ReplyOutcome::Failed(e)) => Answer {
            status_code: 500,
            body: api_response(
                String::from_str("Failed to reply to session: ").concat(e.as_str()),
                "error",
            ),
        },
    }
}

/// Answer to a summarize request: `None` when the session has no transcript,
/// else what came of the summarization pass.
pub fn summarize_session_handler(outcome: Option<ReplyOutcome>) -> (r: Answer<ApiResponse>)
    ensures
        outcome is None ==> r.status_code == 404 && api_response_is(
            r.body,
            "Session not found"@,
            "error"@,
        ),
        outcome matches Some(ReplyOutcome::Replied(text)) ==> r.status_code == 200
            && api_response_is(r.body, "Summary: "@ + text@, "success"@),
        outcome matches Some(ReplyOutcome::NoReply) ==> r.status_code == 200 && api_response_is(
            r.body,
            "Summarization produced no response"@,
            "warning"@,
        ),
        outcome matches Some(ReplyOutcome::Failed(e)) ==> r.status_code == 500 && api_response_is(
            r.body,
            "Failed to summarize session: "@ + e@,
            "error"@,
        ),
{
    match outcome {
        None => Answer {
            status_code: 404,
            body: api_response(String::from_str("Session not found"), "error"),
        },
        Some(ReplyOutcome::Replied(text)) => Answer {
            status_code: 200,
            body: api_response(String::from_str("Summary: ").concat(text.as_str()), "success"),
        },
        Some(ReplyOutcome::NoReply) => Answer {
            status_code: 200,
            body: api_response(String::from_str("Summarization produced no response"), "warning"),
        },
        Some(ReplyOutcome::Failed(e)) => Answer {
            status_code: 500,
            body: api_response(
                String::from_str("Failed to summarize session: ").concat(e.as_str()),
                "error",
            ),
        },
    }
}

/// Answer of the unauthenticated liveness probe.
pub fn metrics_handler() -> (r: ApiResponse)
    ensures
        api_response_is(r, "ok"@, "success"@),
{
    api_response(String::from_str("ok"), "success")
}

/// Answer to an end-session request, given whether the transcript was removed.
pub fn end_session_handler(removed: bool) -> (r: Answer<ApiResponse>)
    ensures
        removed ==> r.status_code == 200 && api_response_is(r.body, "Session ended"@, "success"@),
        !removed ==> r.status_code == 404 && api_response_is(
            r.body,
            "Session not found"@,
            "error"@,
        ),
{
    if removed {
        Answer { status_code: 200, body: api_response(String::from_str("Session ended"), "success") }
    } else {
        Answer {
            status_code: 404,
            body: api_response(String::from_str("Session not found"), "error"),
        }
    }
}

/// Answer to a list request, given the names that the extension manager
/// listed or its failure text.
pub fn list_extensions_handler(listed: Result<Vec<String>, String>) -> (r: ExtensionsResponse)
    ensures
        listed matches Ok(names) ==> r.extensions@ == names@,
        listed is Err ==> r.extensions@.len() == 1 && r.extensions@[0]@
            == "Failed to list extensions"@,
{
    match listed {
        Ok(names) => ExtensionsResponse { extensions: names },
        Err(_) => {
            let mut extensions: Vec<String> = Vec::new();
            extensions.push(String::from_str("Failed to list extensions"));
            ExtensionsResponse { extensions }
        },
    }
}

/// A stored setting, or "Not configured" when it is absent.
pub open spec fn configured_or_not(v: Option<String>) -> Seq<char> {
    match v {
        Some(s) => s@,
        None => "Not configured"@,
    }
}

fn or_not_configured(v: Option<String>) -> (r: String)
    ensures
        r@ == configured_or_not(v),
{
    match v {
        Some(s) => s,
        None => String::from_str("Not configured"),
    }
}

/// Answer to a provider-configuration request, given the stored provider and
/// model names; each absent one reads "Not configured".
pub fn get_provider_config_handler(provider: Option<String>, model: Option<String>) -> (r:
    ProviderConfig)
    ensures
        r.provider@ == configured_or_not(provider),
        r.model@ == configured_or_not(model),
{
    ProviderConfig { provider: or_not_configured(provider), model: or_not_configured(model) }
}

/// Answer to an add-extension request, given the agent's registration result
/// (the failure rendered as text).
pub fn add_extension_response(registered: Result<(), String>) -> (r: ExtensionResponse)
    ensures
        registered is Ok ==> !r.error && r.message is None,
        registered matches Err(e) ==> r.error && (r.message matches Some(m) && m@
            == "Failed to add extension configuration, error: "@ + e@),
{
    match registered {
        Ok(_) => ExtensionResponse { error: false, message: None },
        Err(e) => ExtensionResponse {
            error: true,
            message: Some(
                String::from_str("Failed to add extension configuration, error: ").concat(
                    e.as_str(),
                ),
            ),
        },
    }
}

/// Answer to a remove-extension request: removal of an unknown name is a
/// no-op, so it always succeeds.
pub fn remove_extension_handler() -> (r: ExtensionResponse)
    ensures
        !r.error,
        r.message is None,
{
    ExtensionResponse { error: false, message: None }
}

} // verus!
