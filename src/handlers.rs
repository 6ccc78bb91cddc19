//! What each endpoint decides: which command to run, whether a restart is
//! authorized, and how a command's outcome becomes a reply.
use vstd::prelude::*;

use crate::auth::{normalized, secrets_match};
use crate::command::{output_text, decode_output, CommandOutcome, CommandSpec};
use crate::config::Config;

verus! {

pub const STATUS_OK: u16 = 200;

pub const STATUS_UNAUTHORIZED: u16 = 401;

pub const STATUS_INTERNAL_SERVER_ERROR: u16 = 500;

/// How long, in seconds, a request may take before it is answered with a
/// server error.
pub const REQUEST_TIMEOUT_SECS: u64 = 5;

/// The body of the reply to a request that ran out of time.
pub const TIMED_OUT: &'static str = "request timed out";

/// The orchestration client that every command runs.
pub const CLIENT_PROGRAM: &'static str = "kubectl";

/// The body of the reply to a restart request with a wrong secret.
pub const INVALID_PASSWORD: &'static str = "Invalid password";

/// The body of a reply: plain text, or a string to be sent as JSON.
#[derive(Clone, Debug)]
pub enum ReplyBody {
    Text(String),
    JsonString(String),
}

/// An HTTP status code and a body.
#[derive(Clone, Debug)]
pub struct Reply {
    pub status: u16,
    pub body: ReplyBody,
}

/// The body of a restart request: the candidate secret.
#[derive(Clone, Debug)]
pub struct RestartRequest {
    pub password: String,
}

/// What the restart endpoint does with a request: answer at once without
/// running anything, or run the command and map its outcome with
/// `restart_server_reply`.
#[derive(Clone, Debug)]
pub enum RestartStep {
    Reject(Reply),
    Run(CommandSpec),
}

/// `r` has status `status` and the plain text `text` as its body.
pub open spec fn is_text_reply(r: Reply, status: u16, text: Seq<char>) -> bool {
    &&& r.status == status
    &&& r.body matches ReplyBody::Text(t) && t@ == text
}

/// The query for the orchestration client's version and availability.
pub open spec fn health_check_command_view() -> (Seq<char>, Seq<Seq<char>>) {
    (CLIENT_PROGRAM@, seq!["version"@, "--client"@])
}

/// The rollout restart of the managed workload.
pub open spec fn restart_command_view() -> (Seq<char>, Seq<Seq<char>>) {
    (CLIENT_PROGRAM@, seq!["rollout"@, "restart"@, "deployment/minecraft-server"@])
}

/// The body of a failure reply: the captured error output of a command that
/// exited unsuccessfully, or the reason it could not be started.
pub open spec fn failure_text(o: CommandOutcome) -> Seq<char> {
    match o {
        CommandOutcome::Exited { stderr, .. } => output_text(stderr@),
        CommandOutcome::SpawnFailed { reason } => reason@,
    }
}

/// Whether the command ran and reported success.
pub open spec fn succeeded(o: CommandOutcome) -> bool {
    o matches CommandOutcome::Exited { success, .. } && success
}

/// Whether a restart request with `password` passes the secret `secret`.
pub open spec fn restart_authorized(password: Seq<char>, secret: Seq<char>) -> bool {
    normalized(password) == normalized(secret)
}

/// A restart request whose secret equals the configured one up to letter
/// case and surrounding white space is treated as one that carries the
/// configured secret exactly: both are authorized, so both run the same
/// restart command.
pub proof fn lemma_normalized_secret_acts_as_exact(password: Seq<char>, secret: Seq<char>)
    requires
        normalized(password) == normalized(secret),
    ensures
        restart_authorized(password, secret),
        restart_authorized(secret, secret),
{
}

/// The command that the health endpoint runs.
pub fn health_check_command() -> (r: CommandSpec)
    ensures
        r.view_parts() == health_check_command_view(),
{
    let mut args: Vec<String> = Vec::new();
    args.push("version".to_owned());
    args.push("--client".to_owned());
    let r = CommandSpec { program: CLIENT_PROGRAM.to_owned(), args };
    assert(r.view_parts().1 =~= health_check_command_view().1);
    r
}

/// The command that the restart endpoint runs once the secret is accepted.
pub fn restart_command() -> (r: CommandSpec)
    ensures
        r.view_parts() == restart_command_view(),
{
    let mut args: Vec<String> = Vec::new();
    args.push("rollout".to_owned());
    args.push("restart".to_owned());
    args.push("deployment/minecraft-server".to_owned());
    let r = CommandSpec { program: CLIENT_PROGRAM.to_owned(), args };
    assert(r.view_parts().1 =~= restart_command_view().1);
    r
}

/// The 500 reply for a command that failed or could not be started.
fn failure_reply(outcome: CommandOutcome) -> (r: Reply)
    requires
        !succeeded(outcome),
    ensures
        is_text_reply(r, STATUS_INTERNAL_SERVER_ERROR, failure_text(outcome)),
{
    let text = match outcome {
        CommandOutcome::Exited { stderr, .. } => decode_output(stderr),
        CommandOutcome::SpawnFailed { reason } => reason,
    };
    Reply { status: STATUS_INTERNAL_SERVER_ERROR, body: ReplyBody::Text(text) }
}

/// The health endpoint's reply to the outcome of the health query: 200 with
/// the command's output when it succeeded, else 500 with its error output
/// or the reason it could not be started.
pub fn health_check_reply(outcome: CommandOutcome) -> (r: Reply)
    ensures
        succeeded(outcome) ==> is_text_reply(r, STATUS_OK, output_text(outcome->stdout@)),
        !succeeded(outcome) ==> is_text_reply(r, STATUS_INTERNAL_SERVER_ERROR, failure_text(outcome)),
{
    match outcome {
        CommandOutcome::Exited { success: true, stdout, .. } => Reply {
            status: STATUS_OK,
            body: ReplyBody::Text(decode_output(stdout)),
        },
        _ => failure_reply(outcome),
    }
}

/// The reply to a request whose handler did not finish within
/// `REQUEST_TIMEOUT_SECS`: a server error.
pub fn timeout_reply() -> (r: Reply)
    ensures
        is_text_reply(r, STATUS_INTERNAL_SERVER_ERROR, TIMED_OUT@),
{
    Reply { status: STATUS_INTERNAL_SERVER_ERROR, body: ReplyBody::Text(TIMED_OUT.to_owned()) }
}

/// The hint endpoint's reply: always 200 with the configured hint as a JSON
/// string. No secret is asked for.
pub fn password_hint(config: &Config) -> (r: Reply)
    ensures
        r.status == STATUS_OK,
        r.body matches ReplyBody::JsonString(h) && h@ == config.secret_hint_view(),
{
    Reply { status: STATUS_OK, body: ReplyBody::JsonString(config.secret_hint().to_owned()) }
}

/// The restart endpoint's first step. A request whose secret does not match
/// is answered 401 and runs nothing; one whose secret matches runs the
/// restart command.
pub fn restart_server(config: &Config, request: &RestartRequest) -> (r: RestartStep)
    ensures
        !restart_authorized(request.password@, config.secret_view()) ==> (r matches RestartStep::Reject(
            reply,
        ) && is_text_reply(reply, STATUS_UNAUTHORIZED, INVALID_PASSWORD@)),
        restart_authorized(request.password@, config.secret_view()) ==> (r matches RestartStep::Run(
            cmd,
        ) && cmd.view_parts() == restart_command_view()),
{
    if !secrets_match(request.password.as_str(), config.secret()) {
        RestartStep::Reject(
            Reply { status: STATUS_UNAUTHORIZED, body: ReplyBody::Text(INVALID_PASSWORD.to_owned()) },
        )
    } else {
        RestartStep::Run(restart_command())
    }
}

/// The restart endpoint's reply to the outcome of the restart command: 200
/// with an empty body when it succeeded, else 500 with its error output or
/// the reason it could not be started.
pub fn restart_server_reply(outcome: CommandOutcome) -> (r: Reply)
    ensures
        succeeded(outcome) ==> is_text_reply(r, STATUS_OK, Seq::<char>::empty()),
        !succeeded(outcome) ==> is_text_reply(r, STATUS_INTERNAL_SERVER_ERROR, failure_text(outcome)),
{
    match outcome {
        CommandOutcome::Exited { success: true, .. } => Reply {
            status: STATUS_OK,
            body: ReplyBody::Text(String::new()),
        },
        _ => failure_reply(outcome),
    }
}

} // verus!
