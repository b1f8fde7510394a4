//! Completion requests: what is sent to the completion endpoint.

use vstd::prelude::*;
use crate::command::Command;
use crate::command::is_transform;
use crate::command::model_id;
use crate::command::spec_instruction;
use crate::command::spec_model_id;

verus! {

/// One request to the completion endpoint: a model identifier, a system
/// instruction picked by the command, and the user's text verbatim.
/// Constructed fresh per invocation.
pub struct CompletionRequest {
    /// The fixed model identifier.
    pub model: String,
    /// The role-specific system instruction.
    pub system: String,
    /// The replied-to message's text, verbatim.
    pub user: String,
}

/// A request is well-formed for a command when it carries the fixed model
/// identifier and that command's instruction.
pub open spec fn request_for(req: CompletionRequest, cmd: Command, text: Seq<char>) -> bool {
    &&& req.model@ == spec_model_id()
    &&& req.system@ == spec_instruction(cmd)
    &&& req.user@ == text
}

/// Builds the completion request for a transform command over the given text.
pub fn build_request(cmd: &Command, text: &str) -> (req: CompletionRequest)
    requires
        is_transform(*cmd),
        text@.len() > 0,
    ensures
        request_for(req, *cmd, text@),
{
    CompletionRequest {
        model: String::from_str(model_id()),
        system: String::from_str(cmd.instruction()),
        user: String::from_str(text),
    }
}

/// The fixed base URL of the completion provider.
pub open spec fn spec_base_url() -> Seq<char> {
    "https://api.groq.com/openai/v1"@
}

/// The fixed base URL of the completion provider.
pub fn base_url() -> (r: &'static str)
    ensures
        r@ == spec_base_url(),
{
    "https://api.groq.com/openai/v1"
}

/// The completion endpoint: the fixed base URL with the fixed path.
pub open spec fn spec_completion_url() -> Seq<char> {
    spec_base_url() + "/chat/completions"@
}

/// The completion endpoint's full URL.
pub fn completion_url() -> (r: String)
    ensures
        r@ == spec_completion_url(),
{
    String::from_str(base_url()).concat("/chat/completions")
}

/// The authorization header value: the bearer scheme with the credential.
pub open spec fn spec_bearer(credential: Seq<char>) -> Seq<char> {
    "Bearer "@ + credential
}

/// The authorization header value for the given credential.
pub fn bearer_header(credential: &str) -> (r: String)
    ensures
        r@ == spec_bearer(credential@),
{
    String::from_str("Bearer ").concat(credential)
}

/// The hexadecimal digit character for a value below sixteen.
pub open spec fn hex_digit(d: nat) -> char {
    if d < 10 {
        crate::decimal::spec_digit(d)
    } else if d == 10 {
        'a'
    } else if d == 11 {
        'b'
    } else if d == 12 {
        'c'
    } else if d == 13 {
        'd'
    } else if d == 14 {
        'e'
    } else {
        'f'
    }
}

/// The JSON string escape of one character: the two-character escapes for
/// the quote, the backslash and the common control characters, the uXXXX
/// form for the remaining control characters, and the character itself
/// otherwise.
pub open spec fn escape_char(c: char) -> Seq<char> {
    if c == '"' {
        seq!['\\', '"']
    } else if c == '\\' {
        seq!['\\', '\\']
    } else if c == '\n' {
        seq!['\\', 'n']
    } else if c == '\r' {
        seq!['\\', 'r']
    } else if c == '\t' {
        seq!['\\', 't']
    } else if (c as u32) < 32 {
        seq!['\\', 'u', '0', '0', hex_digit((c as u32 / 16) as nat), hex_digit(
            (c as u32 % 16) as nat,
        )]
    } else {
        seq![c]
    }
}

/// The JSON string escape of a whole text.
pub open spec fn json_escaped(s: Seq<char>) -> Seq<char>
    decreases s.len(),
{
    if s.len() == 0 {
        Seq::empty()
    } else {
        json_escaped(s.drop_last()) + escape_char(s.last())
    }
}

fn hex_digit_str(d: u32) -> (r: &'static str)
    requires
        d < 16,
    ensures
        r@ =~= seq![hex_digit(d as nat)],
{
    proof {
        reveal_strlit("0");
        reveal_strlit("1");
        reveal_strlit("2");
        reveal_strlit("3");
        reveal_strlit("4");
        reveal_strlit("5");
        reveal_strlit("6");
        reveal_strlit("7");
        reveal_strlit("8");
        reveal_strlit("9");
        reveal_strlit("a");
        reveal_strlit("b");
        reveal_strlit("c");
        reveal_strlit("d");
        reveal_strlit("e");
        reveal_strlit("f");
    }
    if d == 0 {
        "0"
    } else if d == 1 {
        "1"
    } else if d == 2 {
        "2"
    } else if d == 3 {
        "3"
    } else if d == 4 {
        "4"
    } else if d == 5 {
        "5"
    } else if d == 6 {
        "6"
    } else if d == 7 {
        "7"
    } else if d == 8 {
        "8"
    } else if d == 9 {
        "9"
    } else if d == 10 {
        "a"
    } else if d == 11 {
        "b"
    } else if d == 12 {
        "c"
    } else if d == 13 {
        "d"
    } else if d == 14 {
        "e"
    } else {
        "f"
    }
}

/// Escapes a text for use inside a JSON string literal.
pub fn escape_json(s: &str) -> (r: String)
    ensures
        r@ == json_escaped(s@),
{
    let n = s.unicode_len();
    let mut out = String::new();
    let mut i: usize = 0;
    while i < n
        invariant
            i <= n,
            n == s@.len(),
            out@ == json_escaped(s@.subrange(0, i as int)),
        decreases n - i,
    {
        let c = s.get_char(i);
        if c == '"' {
            out.append("\\\"");
            proof {
                reveal_strlit("\\\"");
            }
        } else if c == '\\' {
            out.append("\\\\");
            proof {
                reveal_strlit("\\\\");
            }
        } else if c == '\n' {
            out.append("\\n");
            proof {
                reveal_strlit("\\n");
            }
        } else if c == '\r' {
            out.append("\\r");
            proof {
                reveal_strlit("\\r");
            }
        } else if c == '\t' {
            out.append("\\t");
            proof {
                reveal_strlit("\\t");
            }
        } else if (c as u32) < 32 {
            let v = c as u32;
            out.append("\\u00");
            out.append(hex_digit_str(v / 16));
            out.append(hex_digit_str(v % 16));
            proof {
                reveal_strlit("\\u00");
            }
        } else {
            out.append(s.substring_char(i, i + 1));
        }
        proof {
            assert(s@.subrange(0, i + 1 as int).drop_last() =~= s@.subrange(0, i as int));
            assert(s@.subrange(0, i + 1 as int).last() == s@[i as int]);
            assert(out@ =~= json_escaped(s@.subrange(0, i + 1 as int)));
        }
        i += 1;
    }
    proof {
        assert(s@.subrange(0, n as int) =~= s@);
    }
    out
}

/// The JSON body of a completion request: the fixed model identifier and the
/// two messages, system instruction first, then the user text.
pub open spec fn spec_request_body(req: CompletionRequest) -> Seq<char> {
    "{\"model\":\""@ + json_escaped(req.model@)
        + "\",\"messages\":[{\"role\":\"system\",\"content\":\""@ + json_escaped(req.system@)
        + "\"},{\"role\":\"user\",\"content\":\""@ + json_escaped(req.user@) + "\"}]}"@
}

/// Frames the JSON body that is posted to the completion endpoint.
pub fn request_body(req: &CompletionRequest) -> (r: String)
    ensures
        r@ == spec_request_body(*req),
{
    let mut out = String::from_str("{\"model\":\"");
    out.append(escape_json(req.model.as_str()).as_str());
    out.append("\",\"messages\":[{\"role\":\"system\",\"content\":\"");
    out.append(escape_json(req.system.as_str()).as_str());
    out.append("\"},{\"role\":\"user\",\"content\":\"");
    out.append(escape_json(req.user.as_str()).as_str());
    out.append("\"}]}");
    proof {
        assert(out@ =~= spec_request_body(*req));
    }
    out
}

} // verus!
