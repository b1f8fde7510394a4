//! The fixed set of user commands and their static texts.

use vstd::prelude::*;

verus! {

/// A user command, one of a closed set of variants. Parsed once per inbound
/// update and discarded after the handler returns.
#[derive(Clone, Copy, Debug, PartialEq, Eq, Structural)]
pub enum Command {
    /// Summarize the replied message.
    Summarize,
    /// Explain the replied message in caveman language.
    Caveman,
    /// Explain the replied message.
    Explain,
    /// List the supported commands.
    Help,
    /// Summarize the last 100 messages (not implemented).
    SummarizeRecent,
}

/// The commands that transform the text of a replied-to message and
/// therefore need a completion request.
pub open spec fn is_transform(cmd: Command) -> bool {
    cmd is Summarize || cmd is Caveman || cmd is Explain
}

/// The model identifier sent with every completion request.
pub open spec fn spec_model_id() -> Seq<char> {
    "llama3-70b-8192"@
}

/// The system instruction that goes with a transform command.
pub open spec fn spec_instruction(cmd: Command) -> Seq<char> {
    match cmd {
        Command::Caveman => (
            "You are a caveman. Summarize the users message like a caveman would: all caps, many grammatical errors & similar."@
        ),
        Command::Explain => "Explain the users message."@,
        _ => "Summarize the user's message."@,
    }
}

impl Command {
    /// Whether this command needs a replied-to message and a completion request.
    pub fn needs_reply_target(&self) -> (r: bool)
        ensures
            r == is_transform(*self),
    {
        match self {
            Command::Summarize => true,
            Command::Caveman => true,
            Command::Explain => true,
            Command::Help => false,
            Command::SummarizeRecent => false,
        }
    }

    /// The system instruction for a transform command.
    pub fn instruction(&self) -> (r: &'static str)
        ensures
            r@ == spec_instruction(*self),
    {
        match self {
            Command::Caveman => {
                "You are a caveman. Summarize the users message like a caveman would: all caps, many grammatical errors & similar."
            },
            Command::Explain => "Explain the users message.",
            _ => "Summarize the user's message.",
        }
    }
}

/// The model identifier for the completion endpoint.
pub fn model_id() -> (r: &'static str)
    ensures
        r@ == spec_model_id(),
{
    "llama3-70b-8192"
}

/// The static command list sent for Help. It never changes between
/// invocations: it is a fixed text.
pub open spec fn spec_help_text() -> Seq<char> {
    "The following commands are supported:\n/summarize - summarize the replied message\n/caveman - explain the replied message in caveman language\n/explain - explain the replied message\n/help - help command\n/summarizerecent - summarize the last 100 messages"@
}

/// The static command list sent for Help.
pub fn help_text() -> (r: &'static str)
    ensures
        r@ == spec_help_text(),
{
    "The following commands are supported:\n/summarize - summarize the replied message\n/caveman - explain the replied message in caveman language\n/explain - explain the replied message\n/help - help command\n/summarizerecent - summarize the last 100 messages"
}

/// ASCII lowercasing of one character; anything but an ASCII capital letter
/// stays as it is.
pub open spec fn lower_char(c: char) -> char {
    match c {
        'A' => 'a',
        'B' => 'b',
        'C' => 'c',
        'D' => 'd',
        'E' => 'e',
        'F' => 'f',
        'G' => 'g',
        'H' => 'h',
        'I' => 'i',
        'J' => 'j',
        'K' => 'k',
        'L' => 'l',
        'M' => 'm',
        'N' => 'n',
        'O' => 'o',
        'P' => 'p',
        'Q' => 'q',
        'R' => 'r',
        'S' => 's',
        'T' => 't',
        'U' => 'u',
        'V' => 'v',
        'W' => 'w',
        'X' => 'x',
        'Y' => 'y',
        'Z' => 'z',
        _ => c,
    }
}

/// ASCII lowercasing of a whole text.
pub open spec fn lower(s: Seq<char>) -> Seq<char> {
    s.map_values(|c: char| lower_char(c))
}

/// The command keyword without the host convention's leading slash.
pub open spec fn strip_slash(s: Seq<char>) -> Seq<char> {
    if s.len() > 0 && s[0] == '/' {
        s.subrange(1, s.len() as int)
    } else {
        s
    }
}

/// The command that a piece of raw command text parses to: case-insensitive
/// matching of the keyword, with or without the leading slash; anything else
/// is not a command of this system.
pub open spec fn spec_parse(s: Seq<char>) -> Option<Command> {
    let t = lower(strip_slash(s));
    if t == "summarize"@ {
        Some(Command::Summarize)
    } else if t == "caveman"@ {
        Some(Command::Caveman)
    } else if t == "explain"@ {
        Some(Command::Explain)
    } else if t == "help"@ {
        Some(Command::Help)
    } else if t == "summarizerecent"@ {
        Some(Command::SummarizeRecent)
    } else {
        None
    }
}

fn to_lower(c: char) -> (r: char)
    ensures
        r == lower_char(c),
{
    match c {
        'A' => 'a',
        'B' => 'b',
        'C' => 'c',
        'D' => 'd',
        'E' => 'e',
        'F' => 'f',
        'G' => 'g',
        'H' => 'h',
        'I' => 'i',
        'J' => 'j',
        'K' => 'k',
        'L' => 'l',
        'M' => 'm',
        'N' => 'n',
        'O' => 'o',
        'P' => 'p',
        'Q' => 'q',
        'R' => 'r',
        'S' => 's',
        'T' => 't',
        'U' => 'u',
        'V' => 'v',
        'W' => 'w',
        'X' => 'x',
        'Y' => 'y',
        'Z' => 'z',
        _ => c,
    }
}

fn eq_lower(s: &str, kw: &str) -> (r: bool)
    ensures
        r == (lower(s@) == kw@),
{
    let n = s.unicode_len();
    let m = kw.unicode_len();
    if n != m {
        proof {
            assert(lower(s@).len() == s@.len());
        }
        return false;
    }
    let mut i: usize = 0;
    while i < n
        invariant
            i <= n,
            n == s@.len(),
            n == kw@.len(),
            forall|j: int| 0 <= j < i ==> lower_char(s@[j]) == kw@[j],
        decreases n - i,
    {
        let c = to_lower(s.get_char(i));
        let k = kw.get_char(i);
        if c != k {
            proof {
                assert(lower(s@)[i as int] == lower_char(s@[i as int]));
            }
            return false;
        }
        i += 1;
    }
    proof {
        assert forall|j: int| 0 <= j < n implies lower(s@)[j] == kw@[j] by {
            assert(lower_char(s@[j]) == kw@[j]);
        }
        assert(lower(s@) =~= kw@);
    }
    true
}

/// Parses raw command text into a command: case-insensitive matching of the
/// fixed keyword set, with or without the leading slash.
pub fn parse_command(s: &str) -> (r: Option<Command>)
    ensures
        r == spec_parse(s@),
{
    let n = s.unicode_len();
    let t: &str = if n > 0 && s.get_char(0) == '/' {
        s.substring_char(1, n)
    } else {
        s
    };
    proof {
        assert(t@ =~= strip_slash(s@));
    }
    if eq_lower(t, "summarize") {
        Some(Command::Summarize)
    } else if eq_lower(t, "caveman") {
        Some(Command::Caveman)
    } else if eq_lower(t, "explain") {
        Some(Command::Explain)
    } else if eq_lower(t, "help") {
        Some(Command::Help)
    } else if eq_lower(t, "summarizerecent") {
        Some(Command::SummarizeRecent)
    } else {
        None
    }
}

/// Lowercasing touches only ASCII capital letters, so a character lowers to
/// a slash exactly when it is one.
proof fn lemma_lower_char_slash(c: char)
    ensures
        (lower_char(c) == '/') <==> (c == '/'),
{
}

/// Stripping the leading slash and lowercasing commute.
proof fn lemma_lower_strip_commute(s: Seq<char>)
    ensures
        lower(strip_slash(s)) =~= strip_slash(lower(s)),
{
    assert(lower(s).len() == s.len());
    if s.len() > 0 {
        lemma_lower_char_slash(s[0]);
        assert(lower(s)[0] == lower_char(s[0]));
    }
    if s.len() > 0 && s[0] == '/' {
        assert forall|j: int| 0 <= j < s.len() - 1 implies lower(strip_slash(s))[j] == strip_slash(
            lower(s),
        )[j] by {
            assert(strip_slash(s)[j] == s[j + 1]);
            assert(strip_slash(lower(s))[j] == lower(s)[j + 1]);
        }
    }
}

/// Each recognized keyword parses to exactly its own command variant, with
/// or without the leading slash.
pub proof fn lemma_keywords_parse()
    ensures
        spec_parse("/summarize"@) == Some(Command::Summarize),
        spec_parse("/caveman"@) == Some(Command::Caveman),
        spec_parse("/explain"@) == Some(Command::Explain),
        spec_parse("/help"@) == Some(Command::Help),
        spec_parse("/summarizerecent"@) == Some(Command::SummarizeRecent),
        spec_parse("summarize"@) == Some(Command::Summarize),
        spec_parse("caveman"@) == Some(Command::Caveman),
        spec_parse("explain"@) == Some(Command::Explain),
        spec_parse("help"@) == Some(Command::Help),
        spec_parse("summarizerecent"@) == Some(Command::SummarizeRecent),
{
    reveal_strlit("/summarize");
    reveal_strlit("/caveman");
    reveal_strlit("/explain");
    reveal_strlit("/help");
    reveal_strlit("/summarizerecent");
    reveal_strlit("summarize");
    reveal_strlit("caveman");
    reveal_strlit("explain");
    reveal_strlit("help");
    reveal_strlit("summarizerecent");
    assert(strip_slash("/summarize"@) =~= "summarize"@);
    assert(strip_slash("/caveman"@) =~= "caveman"@);
    assert(strip_slash("/explain"@) =~= "explain"@);
    assert(strip_slash("/help"@) =~= "help"@);
    assert(strip_slash("/summarizerecent"@) =~= "summarizerecent"@);
    assert(strip_slash("summarize"@) =~= "summarize"@);
    assert(strip_slash("caveman"@) =~= "caveman"@);
    assert(strip_slash("explain"@) =~= "explain"@);
    assert(strip_slash("help"@) =~= "help"@);
    assert(strip_slash("summarizerecent"@) =~= "summarizerecent"@);
    assert(lower("summarize"@) =~= "summarize"@);
    assert(lower("caveman"@) =~= "caveman"@);
    assert(lower("explain"@) =~= "explain"@);
    assert(lower("help"@) =~= "help"@);
    assert(lower("summarizerecent"@) =~= "summarizerecent"@);
    assert("caveman"@ != "summarize"@);
    assert("explain"@[0] != "caveman"@[0]);
    assert("explain"@ != "summarize"@ && "explain"@ != "caveman"@);
    assert("help"@ != "summarize"@ && "help"@ != "caveman"@ && "help"@ != "explain"@);
    assert("summarizerecent"@ != "summarize"@ && "summarizerecent"@ != "caveman"@
        && "summarizerecent"@ != "explain"@ && "summarizerecent"@ != "help"@);
}

/// Case-insensitivity of command parsing: two texts that agree up to ASCII
/// case parse to the same command.
pub proof fn lemma_parse_case_insensitive(s1: Seq<char>, s2: Seq<char>)
    requires
        lower(s1) == lower(s2),
    ensures
        spec_parse(s1) == spec_parse(s2),
{
    lemma_lower_strip_commute(s1);
    lemma_lower_strip_commute(s2);
    assert(lower(strip_slash(s1)) == lower(strip_slash(s2)));
}

} // verus!
