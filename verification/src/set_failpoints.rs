//! Setting fail points over HTTP.

use vstd::prelude::*;
use vstd::string::StringExecFns;

verus! {

/// The variable of the environment that holds the token of those who may set fail points.
pub const FAILPOINT_AUTH_TOKEN_ENV: &'static str = "FAILPOINT_AUTH_TOKEN";

/// A request to set a fail point.
#[derive(Debug)]
pub struct FailpointConf {
    pub name: String,
    pub actions: String,
}

/// What is said of a fail point that was set.
#[derive(Debug)]
pub struct FailpointConfResponse {
    pub response: String,
}

/// The reply to a request to set a fail point.
#[derive(Debug)]
pub enum FailpointReply {
    /// It was set.
    Json(FailpointConfResponse),
    /// It was not, with a status and the reason.
    Text { status: u16, message: String },
}

/// What a request to set a fail point leads to.
#[derive(Debug)]
pub enum FailpointStep {
    /// The fail point `name` gets `actions`.
    Configure { name: String, actions: String },
    /// Nothing is set: this is the reply.
    Reply(FailpointReply),
}

/// What `fail::cfg` says when the fail point `name` gets `actions`: nothing, or why it cannot read
/// the actions.
pub uninterp spec fn failpoint_result(name: Seq<char>, actions: Seq<char>) -> Result<
    (),
    Seq<char>,
>;

/// What a result says, by its text.
pub open spec fn result_text(result: Result<(), String>) -> Result<(), Seq<char>> {
    match result {
        Ok(_) => Ok(()),
        Err(e) => Err(e@),
    }
}

/// `fail::cfg`: sets the actions of the fail point `name`. Whether it can do so, and what it says
/// if not, depends on its arguments alone, and in fact on the actions alone: it fails exactly where
/// they cannot be read. A count in the actions is read as a `usize`, so a count of 2^32 or more is
/// refused where a `usize` has 32 bits. That the fail point has the actions from then on is not
/// claimed: the table of fail points belongs to the whole process.
#[verifier::external_body]
fn configure_failpoint(name: &String, actions: &String) -> (result: Result<(), String>)
    ensures
        result_text(result) == failpoint_result(name@, actions@),
{
    fail::cfg(name, actions)
}

/// The token that is set up: an empty one counts as none.
pub open spec fn required_token(expected: Option<String>) -> Option<Seq<char>> {
    match expected {
        Some(token) if token@.len() > 0 => Some(token@),
        _ => None,
    }
}

/// Whether the one who sent `auth_token` may set fail points. Where a token is set up, that token
/// has to be sent. Where none is set up, the endpoint is open: a request that sends no token is
/// served, whoever it comes from, and only one that sends a token is refused. A node that others
/// can reach therefore has to set up a token, or be built without fail points.
pub open spec fn authorized(auth_token: Option<String>, expected: Option<String>) -> bool {
    match required_token(expected) {
        Some(required) => auth_token matches Some(token) && token@ == required,
        None => auth_token is None,
    }
}

/// Whether the one who sent `auth_token` may set fail points. Where no token is set up, everyone
/// may who sends none.
pub fn is_authorized(auth_token: &Option<String>, expected: &Option<String>) -> (may: bool)
    ensures
        may == authorized(*auth_token, *expected),
{
    match expected {
        Some(required) if !required.as_str().is_empty() => match auth_token {
            Some(token) => *token == *required,
            None => false,
        },
        _ => auth_token.is_none(),
    }
}

/// Whether `reply` is the text `message` with the status `status`.
pub open spec fn is_text_reply(reply: FailpointReply, status: u16, message: Seq<char>) -> bool {
    reply matches FailpointReply::Text { status: s, message: m } && s == status && m@ == message
}

/// Whether `reply` tells of `result`, for the fail point `name`.
pub open spec fn tells_result(
    reply: FailpointReply,
    name: Seq<char>,
    result: Result<(), Seq<char>>,
) -> bool {
    match result {
        Ok(_) => reply matches FailpointReply::Json(r) && r.response@ == "Set failpoint "@ + name,
        Err(e) => is_text_reply(reply, 500, "Failed to set failpoint: "@ + e),
    }
}

/// The reply when setting the fail point `name` came to `result`.
pub fn reply_with(name: &String, result: Result<(), String>) -> (reply: FailpointReply)
    ensures
        tells_result(reply, name@, result_text(result)),
{
    match result {
        Ok(_) => FailpointReply::Json(
            FailpointConfResponse {
                response: "Set failpoint ".to_owned().concat(name.as_str()),
            },
        ),
        Err(e) => FailpointReply::Text {
            status: 500,
            message: "Failed to set failpoint: ".to_owned().concat(e.as_str()),
        },
    }
}

/// What a request to set a fail point leads to. `enabled` says whether fail points are compiled in.
/// Where no token is set up, a request without a token is served.
pub fn failpoint_step(
    request: FailpointConf,
    auth_token: &Option<String>,
    expected: &Option<String>,
    enabled: bool,
) -> (step: FailpointStep)
    ensures
        match step {
            FailpointStep::Configure { name, actions } => {
                &&& enabled
                &&& authorized(*auth_token, *expected)
                &&& name@ == request.name@
                &&& actions@ == request.actions@
            },
            FailpointStep::Reply(reply) => if enabled {
                &&& !authorized(*auth_token, *expected)
                &&& is_text_reply(reply, 403, "Failpoint endpoint is disabled or unauthorized"@)
            } else {
                is_text_reply(reply, 400, "Failpoints are not enabled at a feature level"@)
            },
        },
{
    if !enabled {
        return FailpointStep::Reply(
            FailpointReply::Text {
                status: 400,
                message: "Failpoints are not enabled at a feature level".to_owned(),
            },
        );
    }
    if !is_authorized(auth_token, expected) {
        return FailpointStep::Reply(
            FailpointReply::Text {
                status: 403,
                message: "Failpoint endpoint is disabled or unauthorized".to_owned(),
            },
        );
    }
    FailpointStep::Configure { name: request.name, actions: request.actions }
}

/// Sets a fail point for one who may, and replies how it went: performs what `failpoint_step`
/// says. `enabled` says whether fail points are compiled in. Where no token is set up, a request
/// without a token is served.
pub fn set_failpoint(
    request: FailpointConf,
    auth_token: &Option<String>,
    expected: &Option<String>,
    enabled: bool,
) -> (reply: FailpointReply)
    ensures
        if !enabled {
            is_text_reply(reply, 400, "Failpoints are not enabled at a feature level"@)
        } else if !authorized(*auth_token, *expected) {
            is_text_reply(reply, 403, "Failpoint endpoint is disabled or unauthorized"@)
        } else {
            tells_result(reply, request.name@, failpoint_result(request.name@, request.actions@))
        },
{
    match failpoint_step(request, auth_token, expected, enabled) {
        FailpointStep::Reply(reply) => reply,
        FailpointStep::Configure { name, actions } => {
            let result = configure_failpoint(&name, &actions);
            reply_with(&name, result)
        },
    }
}

/// Where a token is set up, nobody may set fail points without sending that very token.
pub proof fn a_token_that_is_set_up_is_needed(
    auth_token: Option<String>,
    expected: Option<String>,
)
    requires
        expected matches Some(token) && token@.len() > 0,
    ensures
        authorized(auth_token, expected) <==> (auth_token matches Some(sent) && sent@
            == expected->0@),
{
}

/// Where no token is set up, a request that sends none is served, and one that sends some token is
/// not: no token passes for one that was not set up.
pub proof fn without_a_token_set_up_none_is_sent(
    auth_token: Option<String>,
    expected: Option<String>,
)
    requires
        expected matches Some(token) ==> token@.len() == 0,
    ensures
        authorized(auth_token, expected) <==> auth_token is None,
{
}

/// A reply tells of success exactly where the fail point was set, and names it, and of failure with
/// the status of an error of the server, and says why.
pub proof fn replies_tell_how_it_went(
    reply: FailpointReply,
    name: Seq<char>,
    result: Result<(), String>,
)
    ensures
        tells_result(reply, name, result_text(result)) <==> match reply {
            FailpointReply::Json(said) => result is Ok && said.response@ == "Set failpoint "@
                + name,
            FailpointReply::Text { status, message } => {
                &&& result matches Err(e)
                &&& status == 500
                &&& message@ == "Failed to set failpoint: "@ + e@
            },
        },
{
}

/// A reply is a text exactly where it has that status and that message.
pub proof fn text_replies_have_a_status_and_a_message(
    reply: FailpointReply,
    status: u16,
    message: Seq<char>,
)
    ensures
        is_text_reply(reply, status, message) <==> (reply matches FailpointReply::Text {
            status: said,
            message: text,
        } && said == status && text@ == message),
{
}

} // verus!
