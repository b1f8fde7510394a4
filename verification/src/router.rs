//! Routing: from a command and its reply target to the one action taken.

use vstd::prelude::*;
use crate::command::Command;
use crate::command::is_transform;
use crate::completion::CompletionRequest;
use crate::completion::build_request;
use crate::completion::request_for;

verus! {

/// What the inbound update carries as the message it replies to: nothing,
/// a non-text message, or the text of a text message.
pub enum ReplyTarget {
    /// The command message is not a reply to another message.
    Missing,
    /// The replied-to message has no text (a sticker, a photo, ...).
    NonText,
    /// The replied-to message's text.
    Text(String),
}

/// The one action a command invocation calls for. Exactly one reply is sent
/// per invocation; only a transform command on present, non-empty text leads
/// to an outbound completion request.
pub enum Action {
    /// Send the fixed guidance to reply to a message.
    AskForReply,
    /// Send the fixed guidance that the replied message is not a text message.
    ExplainNotText,
    /// Issue this completion request and reply with its outcome.
    RequestCompletion(CompletionRequest),
    /// Send the static command list.
    SendHelp,
    /// Send the fixed "not implemented" notice.
    SendNotImplemented,
}

/// An action's variant, without the request payload. The routing decision at
/// the specification level is over this type.
pub enum ActionKind {
    /// Guidance: reply to a message.
    AskForReply,
    /// Guidance: the replied message is not a text message.
    ExplainNotText,
    /// An outbound completion request is issued.
    Request,
    /// The static command list is sent.
    Help,
    /// The fixed "not implemented" notice is sent.
    NotImplemented,
}

/// The variant of an action.
pub open spec fn kind_of(a: Action) -> ActionKind {
    match a {
        Action::AskForReply => ActionKind::AskForReply,
        Action::ExplainNotText => ActionKind::ExplainNotText,
        Action::RequestCompletion(_) => ActionKind::Request,
        Action::SendHelp => ActionKind::Help,
        Action::SendNotImplemented => ActionKind::NotImplemented,
    }
}

/// The kind of action that a command with the given reply target decides on.
pub open spec fn spec_route(cmd: Command, target: ReplyTarget) -> ActionKind {
    match cmd {
        Command::Help => ActionKind::Help,
        Command::SummarizeRecent => ActionKind::NotImplemented,
        _ => match target {
            ReplyTarget::Missing => ActionKind::AskForReply,
            ReplyTarget::NonText => ActionKind::ExplainNotText,
            ReplyTarget::Text(s) => if s@.len() == 0 {
                ActionKind::ExplainNotText
            } else {
                ActionKind::Request
            },
        },
    }
}

/// Decides the one action for a command invocation. A completion request is
/// built exactly when the command transforms text and the target text is
/// present and non-empty, and then carries the fixed model identifier, the
/// command's instruction and the target text verbatim.
pub fn route(cmd: &Command, target: &ReplyTarget) -> (a: Action)
    ensures
        kind_of(a) == spec_route(*cmd, *target),
        (a matches Action::RequestCompletion(req) ==> (target matches ReplyTarget::Text(s)
            && request_for(req, *cmd, s@))),
{
    match cmd {
        Command::Help => Action::SendHelp,
        Command::SummarizeRecent => Action::SendNotImplemented,
        _ => match target {
            ReplyTarget::Missing => Action::AskForReply,
            ReplyTarget::NonText => Action::ExplainNotText,
            ReplyTarget::Text(s) => {
                if s.as_str().is_empty() {
                    Action::ExplainNotText
                } else {
                    Action::RequestCompletion(build_request(cmd, s.as_str()))
                }
            },
        },
    }
}

/// The fixed guidance when the command message is not a reply.
pub open spec fn spec_reply_guidance() -> Seq<char> {
    "Reply to a message for this command."@
}

/// The fixed guidance when the replied message is not a text message.
pub open spec fn spec_not_text_guidance() -> Seq<char> {
    "The replied message is not a text message."@
}

/// The fixed notice for the unimplemented command.
pub open spec fn spec_not_implemented_text() -> Seq<char> {
    "This command is not implemented yet."@
}

/// The fixed guidance when the command message is not a reply.
pub fn reply_guidance() -> (r: &'static str)
    ensures
        r@ == spec_reply_guidance(),
{
    "Reply to a message for this command."
}

/// The fixed guidance when the replied message is not a text message.
pub fn not_text_guidance() -> (r: &'static str)
    ensures
        r@ == spec_not_text_guidance(),
{
    "The replied message is not a text message."
}

/// The fixed notice for the unimplemented command.
pub fn not_implemented_text() -> (r: &'static str)
    ensures
        r@ == spec_not_implemented_text(),
{
    "This command is not implemented yet."
}

/// The reply text an action sends without a completion exchange: the fixed
/// guidance messages, the static command list, or the fixed notice. An
/// action that issues a completion request has no static reply; its reply
/// comes from the exchange's outcome.
pub fn static_reply(a: &Action) -> (m: Option<&'static str>)
    ensures
        match *a {
            Action::AskForReply => m matches Some(t) && t@ == spec_reply_guidance(),
            Action::ExplainNotText => m matches Some(t) && t@ == spec_not_text_guidance(),
            Action::SendHelp => m matches Some(t) && t@ == crate::command::spec_help_text(),
            Action::SendNotImplemented => m matches Some(t) && t@ == spec_not_implemented_text(),
            Action::RequestCompletion(_) => m is None,
        },
{
    match a {
        Action::AskForReply => Some(reply_guidance()),
        Action::ExplainNotText => Some(not_text_guidance()),
        Action::SendHelp => Some(crate::command::help_text()),
        Action::SendNotImplemented => Some(not_implemented_text()),
        Action::RequestCompletion(_) => None,
    }
}

/// A transform command without a reply target only asks the user to reply to
/// a message: no completion request is issued.
pub proof fn lemma_missing_target_asks_for_reply(cmd: Command)
    requires
        is_transform(cmd),
    ensures
        spec_route(cmd, ReplyTarget::Missing) == ActionKind::AskForReply,
        spec_route(cmd, ReplyTarget::Missing) != ActionKind::Request,
{
}

/// A transform command on a non-text or empty reply target only explains
/// that the replied message is not a text message: no completion request is
/// issued.
pub proof fn lemma_non_text_target_is_guidance(cmd: Command, target: ReplyTarget)
    requires
        is_transform(cmd),
        target is NonText || (target matches ReplyTarget::Text(s) && s@.len() == 0),
    ensures
        spec_route(cmd, target) == ActionKind::ExplainNotText,
        spec_route(cmd, target) != ActionKind::Request,
{
}

/// SummarizeRecent never issues an outbound completion request, whatever the
/// reply target.
pub proof fn lemma_summarize_recent_never_requests(target: ReplyTarget)
    ensures
        spec_route(Command::SummarizeRecent, target) == ActionKind::NotImplemented,
        spec_route(Command::SummarizeRecent, target) != ActionKind::Request,
{
}

} // verus!
