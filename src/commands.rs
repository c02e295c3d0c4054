//! Command tokens and dispatch of incoming message text.

use vstd::prelude::*;

verus! {

/// The commands the bot answers.
#[derive(PartialEq, Eq, Structural, Clone, Copy, Debug)]
pub enum Command {
    Help,
    Info,
    GetUsername,
    GetBalance,
    GetProfile,
    GetCampaigns,
    GetPathways,
    GetHackathons,
    GetCalendar,
}

/// The exact text that selects a command.
pub open spec fn token_text(c: Command) -> Seq<char> {
    match c {
        Command::Help => "!help"@,
        Command::Info => "!info"@,
        Command::GetUsername => "!get-username"@,
        Command::GetBalance => "!get-balance"@,
        Command::GetProfile => "!get-profile"@,
        Command::GetCampaigns => "!get-campaigns"@,
        Command::GetPathways => "!get-pathways"@,
        Command::GetHackathons => "!get-hackathons"@,
        Command::GetCalendar => "!get-calendar"@,
    }
}

/// The command selected by an already trimmed text, if any: exact,
/// case-sensitive equality with one token.
pub open spec fn command_of(t: Seq<char>) -> Option<Command> {
    if t == "!help"@ {
        Some(Command::Help)
    } else if t == "!info"@ {
        Some(Command::Info)
    } else if t == "!get-username"@ {
        Some(Command::GetUsername)
    } else if t == "!get-balance"@ {
        Some(Command::GetBalance)
    } else if t == "!get-profile"@ {
        Some(Command::GetProfile)
    } else if t == "!get-campaigns"@ {
        Some(Command::GetCampaigns)
    } else if t == "!get-pathways"@ {
        Some(Command::GetPathways)
    } else if t == "!get-hackathons"@ {
        Some(Command::GetHackathons)
    } else if t == "!get-calendar"@ {
        Some(Command::GetCalendar)
    } else {
        None
    }
}

/// What `str::trim` returns for a text.
pub uninterp spec fn trim_of(s: Seq<char>) -> Seq<char>;

/// A printable, non-space ASCII character.
pub open spec fn is_visible_ascii(c: char) -> bool {
    '!' <= c && c <= '~'
}

/// Relies on `str::trim`, which removes leading and trailing whitespace:
/// an empty text stays empty, and a text that begins and ends with a
/// printable non-space ASCII character comes back unchanged.
#[verifier::external_body]
fn trim_text(s: &str) -> (r: &str)
    ensures
        r@ == trim_of(s@),
        s@.len() == 0 ==> r@ == s@,
        s@.len() > 0 && is_visible_ascii(s@[0]) && is_visible_ascii(s@.last()) ==> r@ == s@,
{
    s.trim()
}

/// Character-wise equality of two texts.
pub fn same_text(a: &str, b: &str) -> (r: bool)
    ensures
        r == (a@ == b@),
{
    let n = a.unicode_len();
    if n != b.unicode_len() {
        return false;
    }
    let mut i: usize = 0;
    while i < n
        invariant
            n == a@.len(),
            n == b@.len(),
            i <= n,
            a@.subrange(0, i as int) == b@.subrange(0, i as int),
        decreases n - i,
    {
        if a.get_char(i) != b.get_char(i) {
            return false;
        }
        proof {
            assert(a@.subrange(0, i as int + 1) =~= a@.subrange(0, i as int).push(a@[i as int]));
            assert(b@.subrange(0, i as int + 1) =~= b@.subrange(0, i as int).push(b@[i as int]));
        }
        i = i + 1;
    }
    proof {
        assert(a@ =~= a@.subrange(0, n as int));
        assert(b@ =~= b@.subrange(0, n as int));
    }
    true
}

impl Command {
    /// The token that selects this command.
    pub fn token(&self) -> (r: &'static str)
        ensures
            r@ == token_text(*self),
    {
        match self {
            Command::Help => "!help",
            Command::Info => "!info",
            Command::GetUsername => "!get-username",
            Command::GetBalance => "!get-balance",
            Command::GetProfile => "!get-profile",
            Command::GetCampaigns => "!get-campaigns",
            Command::GetPathways => "!get-pathways",
            Command::GetHackathons => "!get-hackathons",
            Command::GetCalendar => "!get-calendar",
        }
    }
}

/// The command selected by an already trimmed text.
pub fn command_for(t: &str) -> (r: Option<Command>)
    ensures
        r == command_of(t@),
{
    if same_text(t, "!help") {
        Some(Command::Help)
    } else if same_text(t, "!info") {
        Some(Command::Info)
    } else if same_text(t, "!get-username") {
        Some(Command::GetUsername)
    } else if same_text(t, "!get-balance") {
        Some(Command::GetBalance)
    } else if same_text(t, "!get-profile") {
        Some(Command::GetProfile)
    } else if same_text(t, "!get-campaigns") {
        Some(Command::GetCampaigns)
    } else if same_text(t, "!get-pathways") {
        Some(Command::GetPathways)
    } else if same_text(t, "!get-hackathons") {
        Some(Command::GetHackathons)
    } else if same_text(t, "!get-calendar") {
        Some(Command::GetCalendar)
    } else {
        None
    }
}

/// Selects the command for a message's text after trimming surrounding
/// whitespace; any other text selects nothing.
pub fn dispatch(content: &str) -> (r: Option<Command>)
    ensures
        r == command_of(trim_of(content@)),
{
    command_for(trim_text(content))
}

/// Whether a message's raw text is exactly the token of `command`: a reply
/// for `command` is delivered only then.
pub fn content_matches(content: &str, command: Command) -> (r: bool)
    ensures
        r == (content@ == token_text(command)),
{
    same_text(content, command.token())
}

/// Each token selects its own command.
pub proof fn lemma_token_selects_command(c: Command)
    ensures
        command_of(token_text(c)) == Some(c),
{
    reveal_strlit("!help");
    reveal_strlit("!info");
    reveal_strlit("!get-username");
    reveal_strlit("!get-balance");
    reveal_strlit("!get-profile");
    reveal_strlit("!get-campaigns");
    reveal_strlit("!get-pathways");
    reveal_strlit("!get-hackathons");
    reveal_strlit("!get-calendar");
    assert("!help"@.len() == 5 && "!info"@.len() == 5);
    assert("!help"@[1] == 'h' && "!info"@[1] == 'i');
    assert("!get-balance"@.len() == 12 && "!get-profile"@.len() == 12);
    assert("!get-balance"@[5] == 'b' && "!get-profile"@[5] == 'p');
    assert("!get-username"@.len() == 13 && "!get-pathways"@.len() == 13
        && "!get-calendar"@.len() == 13);
    assert("!get-username"@[5] == 'u' && "!get-pathways"@[5] == 'p'
        && "!get-calendar"@[5] == 'c');
    assert("!get-campaigns"@.len() == 14 && "!get-hackathons"@.len() == 15);
}

/// Every token is non-empty and begins and ends with a printable non-space
/// ASCII character, so trimming leaves it as it is.
proof fn lemma_token_untrimmed(c: Command)
    ensures
        token_text(c).len() > 0,
        is_visible_ascii(token_text(c)[0]),
        is_visible_ascii(token_text(c).last()),
{
    reveal_strlit("!help");
    reveal_strlit("!info");
    reveal_strlit("!get-username");
    reveal_strlit("!get-balance");
    reveal_strlit("!get-profile");
    reveal_strlit("!get-campaigns");
    reveal_strlit("!get-pathways");
    reveal_strlit("!get-hackathons");
    reveal_strlit("!get-calendar");
}

/// The command whose reply a message receives: the one whose token equals
/// the message's whole raw text, and none when the text equals no token.
pub fn answered_command(content: &str) -> (r: Option<Command>)
    ensures
        forall|c: Command| (r == Some(c)) <==> content@ == token_text(c),
{
    let trimmed = trim_text(content);
    match command_for(trimmed) {
        Some(c) => {
            if content_matches(content, c) {
                proof {
                    assert forall|d: Command| content@ == token_text(d) implies d == c by {
                        lemma_token_selects_command(d);
                        lemma_token_selects_command(c);
                    }
                }
                Some(c)
            } else {
                proof {
                    assert forall|d: Command| content@ != token_text(d) by {
                        if content@ == token_text(d) {
                            lemma_token_untrimmed(d);
                            lemma_token_selects_command(d);
                        }
                    }
                }
                None
            }
        },
        None => {
            proof {
                assert forall|d: Command| content@ != token_text(d) by {
                    if content@ == token_text(d) {
                        lemma_token_untrimmed(d);
                        lemma_token_selects_command(d);
                    }
                }
            }
            None
        },
    }
}

} // verus!
