//! The command grammar: `/keyword[@botname] [argument]`.
use vstd::prelude::*;
use vstd::string::*;
use crate::text::{
    occurs_at_ignoring_case, same_ignoring_case, same_text, scan, scan_exec, trim, trim_exec,
};

verus! {

/// A recognised command.
pub enum Command {
    Help,
    Meow(String),
    Model(String),
    LookModel,
}

/// What a `Command` says, with its argument as characters.
pub enum CommandView {
    Help,
    Meow(Seq<char>),
    Model(Seq<char>),
    LookModel,
}

impl View for Command {
    type V = CommandView;

    open spec fn view(&self) -> CommandView {
        match self {
            Command::Help => CommandView::Help,
            Command::Meow(s) => CommandView::Meow(s@),
            Command::Model(s) => CommandView::Model(s@),
            Command::LookModel => CommandView::LookModel,
        }
    }
}

/// The index of the first `@` at or after `i` (or the length of `s`).
pub open spec fn find_at(s: Seq<char>, i: int) -> int
    decreases s.len() - i,
{
    if 0 <= i < s.len() && s[i] != '@' {
        find_at(s, i + 1)
    } else {
        i
    }
}

/// Whether `t` ends with `@` followed by `bot` (in any ASCII letter case).
pub open spec fn ends_with_mention(t: Seq<char>, bot: Seq<char>) -> bool {
    t.len() > bot.len() && t[t.len() - bot.len() - 1] == '@' && same_ignoring_case(
        t.subrange(t.len() - bot.len(), t.len() as int),
        bot,
    )
}

/// The argument text: trimmed, and without a trailing `@bot` mention.
pub open spec fn argument_of(rest: Seq<char>, bot: Seq<char>) -> Seq<char> {
    let t = trim(rest);
    if ends_with_mention(t, bot) {
        trim(t.subrange(0, t.len() - bot.len() - 1))
    } else {
        t
    }
}

/// The command that `text` holds when the bot is called `bot`, if any.
pub open spec fn command_of(text: Seq<char>, bot: Seq<char>) -> Option<CommandView> {
    if text.len() == 0 || text[0] != '/' {
        None
    } else {
        let e = scan(text, 1, false);
        let head = text.subrange(1, e);
        let at = find_at(head, 0);
        let keyword = head.subrange(0, at);
        let arg = argument_of(text.subrange(e, text.len() as int), bot);
        if at < head.len() && !same_ignoring_case(head.subrange(at + 1, head.len() as int), bot) {
            None
        } else if keyword == "help"@ && arg.len() == 0 {
            Some(CommandView::Help)
        } else if keyword == "meow"@ {
            Some(CommandView::Meow(arg))
        } else if keyword == "model"@ {
            Some(CommandView::Model(arg))
        } else if keyword == "lookmodel"@ && arg.len() == 0 {
            Some(CommandView::LookModel)
        } else {
            None
        }
    }
}

fn find_at_exec(s: &str) -> (r: usize)
    ensures
        r == find_at(s@, 0),
        r <= s@.len(),
{
    let n = s.unicode_len();
    let mut k: usize = 0;
    while k < n && s.get_char(k) != '@'
        invariant
            n == s@.len(),
            k <= n,
            find_at(s@, 0) == find_at(s@, k as int),
        decreases n - k,
    {
        k = k + 1;
    }
    k
}

fn argument_exec<'a>(rest: &'a str, bot: &str) -> (r: &'a str)
    ensures
        r@ == argument_of(rest@, bot@),
{
    let t = trim_exec(rest);
    let n = t.unicode_len();
    let m = bot.unicode_len();
    if n > m && t.get_char(n - m - 1) == '@' && occurs_at_ignoring_case(t, n - m, bot) {
        trim_exec(t.substring_char(0, n - m - 1))
    } else {
        t
    }
}

impl Command {
    /// Parses `text` as a command addressed to the bot called `bot_name`
    /// (a mention of the bot matches in any ASCII letter case);
    /// `None` when it is not one.
    pub fn parse(text: &str, bot_name: &str) -> (r: Option<Command>)
        ensures
            match r {
                None => command_of(text@, bot_name@) is None,
                Some(c) => command_of(text@, bot_name@) == Some(c@),
            },
    {
        let n = text.unicode_len();
        if n == 0 || text.get_char(0) != '/' {
            return None;
        }
        let e = scan_exec(text, 1, false);
        let head = text.substring_char(1, e);
        let hl = head.unicode_len();
        let at = find_at_exec(head);
        if at < hl {
            let name = head.substring_char(at + 1, hl);
            if !(name.unicode_len() == bot_name.unicode_len() && occurs_at_ignoring_case(
                name,
                0,
                bot_name,
            )) {
                return None;
            }
        }
        let keyword = head.substring_char(0, at);
        let arg = argument_exec(text.substring_char(e, n), bot_name);
        let empty = arg.unicode_len() == 0;
        if same_text(keyword, "help") && empty {
            Some(Command::Help)
        } else if same_text(keyword, "meow") {
            Some(Command::Meow(String::from_str(arg)))
        } else if same_text(keyword, "model") {
            Some(Command::Model(String::from_str(arg)))
        } else if same_text(keyword, "lookmodel") && empty {
            Some(Command::LookModel)
        } else {
            None
        }
    }
}

} // verus!
