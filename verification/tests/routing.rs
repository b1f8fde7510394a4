use cavebot::command::{help_text, parse_command, Command};
use cavebot::router::{
    not_implemented_text, not_text_guidance, reply_guidance, route, static_reply, Action,
    ReplyTarget,
};

#[test]
fn parse_recognizes_each_keyword() {
    assert_eq!(parse_command("/summarize"), Some(Command::Summarize));
    assert_eq!(parse_command("/caveman"), Some(Command::Caveman));
    assert_eq!(parse_command("/explain"), Some(Command::Explain));
    assert_eq!(parse_command("/help"), Some(Command::Help));
    assert_eq!(parse_command("/summarizerecent"), Some(Command::SummarizeRecent));
}

#[test]
fn parse_is_case_insensitive() {
    assert_eq!(parse_command("/Summarize"), parse_command("/summarize"));
    assert_eq!(parse_command("/SUMMARIZE"), Some(Command::Summarize));
    assert_eq!(parse_command("/CaVeMaN"), Some(Command::Caveman));
    assert_eq!(parse_command("/EXPLAIN"), Some(Command::Explain));
    assert_eq!(parse_command("/Help"), Some(Command::Help));
    assert_eq!(parse_command("/SummarizeRecent"), Some(Command::SummarizeRecent));
}

#[test]
fn parse_accepts_bare_keyword() {
    assert_eq!(parse_command("help"), Some(Command::Help));
    assert_eq!(parse_command("Explain"), Some(Command::Explain));
}

#[test]
fn parse_rejects_unknown_input() {
    assert_eq!(parse_command("/frobnicate"), None);
    assert_eq!(parse_command(""), None);
    assert_eq!(parse_command("/"), None);
    assert_eq!(parse_command("/summarize "), None);
    assert_eq!(parse_command("/summarizer"), None);
}

#[test]
fn transform_commands_need_a_reply_target() {
    assert!(Command::Summarize.needs_reply_target());
    assert!(Command::Caveman.needs_reply_target());
    assert!(Command::Explain.needs_reply_target());
    assert!(!Command::Help.needs_reply_target());
    assert!(!Command::SummarizeRecent.needs_reply_target());
}

#[test]
fn missing_target_asks_for_reply() {
    for cmd in [Command::Summarize, Command::Caveman, Command::Explain] {
        let a = route(&cmd, &ReplyTarget::Missing);
        assert!(matches!(a, Action::AskForReply));
        assert_eq!(static_reply(&a), Some("Reply to a message for this command."));
    }
}

#[test]
fn non_text_target_is_explained() {
    for cmd in [Command::Summarize, Command::Caveman, Command::Explain] {
        let a = route(&cmd, &ReplyTarget::NonText);
        assert!(matches!(a, Action::ExplainNotText));
        assert_eq!(static_reply(&a), Some("The replied message is not a text message."));
    }
}

#[test]
fn empty_text_target_is_explained() {
    for cmd in [Command::Summarize, Command::Caveman, Command::Explain] {
        let a = route(&cmd, &ReplyTarget::Text(String::new()));
        assert!(matches!(a, Action::ExplainNotText));
    }
}

#[test]
fn transform_command_builds_request() {
    let a = route(&Command::Summarize, &ReplyTarget::Text("hi there".to_string()));
    match a {
        Action::RequestCompletion(req) => {
            assert_eq!(req.model, "llama3-70b-8192");
            assert_eq!(req.system, "Summarize the user's message.");
            assert_eq!(req.user, "hi there");
        }
        _ => panic!("expected a completion request"),
    }
}

#[test]
fn caveman_and_explain_instructions() {
    match route(&Command::Caveman, &ReplyTarget::Text("x".to_string())) {
        Action::RequestCompletion(req) => {
            assert_eq!(
                req.system,
                "You are a caveman. Summarize the users message like a caveman would: all caps, many grammatical errors & similar."
            );
        }
        _ => panic!("expected a completion request"),
    }
    match route(&Command::Explain, &ReplyTarget::Text("x".to_string())) {
        Action::RequestCompletion(req) => {
            assert_eq!(req.system, "Explain the users message.");
        }
        _ => panic!("expected a completion request"),
    }
}

#[test]
fn help_is_static_and_exact() {
    let first = static_reply(&route(&Command::Help, &ReplyTarget::Missing));
    let again = static_reply(&route(&Command::Help, &ReplyTarget::Text("noise".to_string())));
    assert_eq!(first, again);
    assert_eq!(
        help_text(),
        "The following commands are supported:\n/summarize - summarize the replied message\n/caveman - explain the replied message in caveman language\n/explain - explain the replied message\n/help - help command\n/summarizerecent - summarize the last 100 messages"
    );
    assert_eq!(first, Some(help_text()));
}

#[test]
fn summarize_recent_never_requests() {
    let targets = [
        ReplyTarget::Missing,
        ReplyTarget::NonText,
        ReplyTarget::Text("anything at all".to_string()),
    ];
    for target in targets {
        let a = route(&Command::SummarizeRecent, &target);
        assert!(matches!(a, Action::SendNotImplemented));
        assert!(!matches!(a, Action::RequestCompletion(_)));
        assert_eq!(static_reply(&a), Some("This command is not implemented yet."));
    }
}

#[test]
fn guidance_texts_are_fixed() {
    assert_eq!(reply_guidance(), "Reply to a message for this command.");
    assert_eq!(not_text_guidance(), "The replied message is not a text message.");
    assert_eq!(not_implemented_text(), "This command is not implemented yet.");
}
