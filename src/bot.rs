//! The dispatcher's decisions: who may command the bot, what each command
//! does to the model selection, and what is sent back.
use vstd::prelude::*;
use vstd::string::*;
use crate::cmd::{command_of, Command, CommandView};
use crate::models::{model_of, name_of, Model, ModelSelection};
use crate::zero::{describe_of, ChatError, ChatErrorView};

verus! {

/// What to do with an inbound chat message.
pub enum Action {
    /// Nothing is sent.
    Ignore,
    /// A rejection notice to the sender and an alert to the authorized identity.
    Reject,
    /// One reply with this text.
    Reply(String),
    /// A placeholder reply, then the text generated for `prompt` on `model`.
    Generate { prompt: String, model: Model },
}

pub enum ActionView {
    Ignore,
    Reject,
    Reply(Seq<char>),
    Generate(Seq<char>, Model),
}

impl View for Action {
    type V = ActionView;

    open spec fn view(&self) -> ActionView {
        match self {
            Action::Ignore => ActionView::Ignore,
            Action::Reject => ActionView::Reject,
            Action::Reply(s) => ActionView::Reply(s@),
            Action::Generate { prompt, model } => ActionView::Generate(prompt@, *model),
        }
    }
}

/// Text of the placeholder sent while a reply is generated.
pub const GENERATING_HINT: &'static str = "Generating...";

/// The list of commands and what they do.
pub fn help_text() -> (r: &'static str)
    ensures
        r@ == help_spec(),
{
    "These commands are supported:\n\n/help — display this text.\n/meow — start chat.\n/model — change model. available models: gpt-4o, gpt-4o-mini, o1-preview, o1-mini.\n/lookmodel — look at the current model."
}

pub open spec fn help_spec() -> Seq<char> {
    "These commands are supported:\n\n/help — display this text.\n/meow — start chat.\n/model — change model. available models: gpt-4o, gpt-4o-mini, o1-preview, o1-mini.\n/lookmodel — look at the current model."@
}

pub open spec fn nothing_spec() -> Seq<char> {
    "什么都没有!"@
}

/// The action for a recognised command when `m` is selected, and the
/// selection afterwards.
pub open spec fn command_action(m: Model, c: CommandView) -> (ActionView, Model) {
    match c {
        CommandView::Help => (ActionView::Reply(help_spec()), m),
        CommandView::Meow(p) => if p.len() == 0 {
            (ActionView::Reply(nothing_spec()), m)
        } else {
            (ActionView::Generate(p, m), m)
        },
        CommandView::Model(s) => if model_of(s) == Model::Invalid {
            (ActionView::Reply("Invalid model"@), m)
        } else {
            (ActionView::Reply("Model changed to "@ + name_of(model_of(s))), model_of(s))
        },
        CommandView::LookModel => (ActionView::Reply("Current model: "@ + name_of(m)), m),
    }
}

/// The action for a message with `sender` and `text` when `m` is selected,
/// and the selection afterwards.
pub open spec fn message_action(
    m: Model,
    authorized: u64,
    sender: Option<u64>,
    text: Option<Seq<char>>,
    bot: Seq<char>,
) -> (ActionView, Model) {
    match sender {
        None => (ActionView::Ignore, m),
        Some(id) => if id != authorized {
            (ActionView::Reject, m)
        } else {
            match text {
                None => (ActionView::Ignore, m),
                Some(t) => match command_of(t, bot) {
                    None => (ActionView::Ignore, m),
                    Some(c) => command_action(m, c),
                },
            }
        },
    }
}

/// Carries out a recognised command on the selection.
pub fn run_command(sel: &mut ModelSelection, cmd: Command) -> (r: Action)
    ensures
        (r@, final(sel)@) == command_action(old(sel)@, cmd@),
{
    match cmd {
        Command::Help => Action::Reply(String::from_str(help_text())),
        Command::Meow(prompt) => {
            if prompt.as_str().unicode_len() == 0 {
                Action::Reply(String::from_str("什么都没有!"))
            } else {
                Action::Generate { prompt, model: sel.get() }
            }
        },
        Command::Model(input) => {
            let model = Model::parse(input.as_str());
            match sel.set(model) {
                Err(_) => Action::Reply(String::from_str("Invalid model")),
                Ok(()) => Action::Reply(String::from_str("Model changed to ").concat(model.name())),
            }
        },
        Command::LookModel => {
            let m = sel.get();
            Action::Reply(String::from_str("Current model: ").concat(m.name()))
        },
    }
}

/// Decides what an inbound message leads to: a message without a sender is
/// dropped, one from anyone but `authorized` is rejected, text that is no
/// command is ignored, and a command is carried out.
pub fn handle_command(
    sel: &mut ModelSelection,
    authorized: u64,
    sender: Option<u64>,
    text: Option<&str>,
    bot_name: &str,
) -> (r: Action)
    ensures
        (r@, final(sel)@) == message_action(
            old(sel)@,
            authorized,
            sender,
            match text {
                Some(t) => Some(t@),
                None => None,
            },
            bot_name@,
        ),
{
    match sender {
        None => Action::Ignore,
        Some(id) => {
            if id != authorized {
                return Action::Reject;
            }
            match text {
                None => Action::Ignore,
                Some(t) => match Command::parse(t, bot_name) {
                    None => Action::Ignore,
                    Some(c) => run_command(sel, c),
                },
            }
        },
    }
}

/// A message from anyone but the authorized identity is rejected: it never
/// reaches the chat client and leaves the selection as it was.
pub proof fn lemma_unauthorized_rejected(
    m: Model,
    authorized: u64,
    id: u64,
    text: Option<Seq<char>>,
    bot: Seq<char>,
)
    requires
        id != authorized,
    ensures
        message_action(m, authorized, Some(id), text, bot) == (ActionView::Reject, m),
{
}

/// Neither a message nor an inline query leads to a request for an empty
/// prompt.
pub proof fn lemma_no_empty_request(
    m: Model,
    authorized: u64,
    sender: Option<u64>,
    text: Option<Seq<char>>,
    bot: Seq<char>,
    from: u64,
    query: Seq<char>,
)
    ensures
        message_action(m, authorized, sender, text, bot).0 matches ActionView::Generate(p, _) ==> p.len()
            > 0,
        inline_answer(m, authorized, from, query) matches InlineAnswerView::Generate(p, _) ==> p.len()
            > 0,
{
    if query.len() > 0 {
        lemma_strip_marks_bounds(query, query.len() as int);
    }
}

proof fn lemma_strip_marks_bounds(s: Seq<char>, j: int)
    requires
        0 <= j <= s.len(),
    ensures
        0 <= strip_marks(s, j) <= j,
    decreases j,
{
    if 0 < j && is_mark(s[j - 1]) {
        lemma_strip_marks_bounds(s, j - 1);
    }
}

/// Whatever messages arrive, the selection always holds a real model, and a
/// request is made with the model selected when it was decided.
pub proof fn lemma_selection_stays_valid(
    m: Model,
    authorized: u64,
    sender: Option<u64>,
    text: Option<Seq<char>>,
    bot: Seq<char>,
)
    requires
        m != Model::Invalid,
    ensures
        message_action(m, authorized, sender, text, bot).1 != Model::Invalid,
        message_action(m, authorized, sender, text, bot).0 matches ActionView::Generate(_, g) ==> g == m,
{
}

/// The text that replaces the placeholder once the request has finished.
pub open spec fn outcome_text(o: Result<Seq<char>, ChatErrorView>) -> Seq<char> {
    match o {
        Ok(h) => h,
        Err(e) => "Failed to generate hint: "@ + describe_of(e),
    }
}

pub open spec fn outcome_view(o: &Result<String, ChatError>) -> Result<Seq<char>, ChatErrorView> {
    match o {
        Ok(h) => Ok(h@),
        Err(e) => Err(e@),
    }
}

/// The generated text, or a notice that embeds the failure's description.
pub fn finish_prompt(outcome: &Result<String, ChatError>) -> (r: String)
    ensures
        r@ == outcome_text(outcome_view(outcome)),
{
    match outcome {
        Ok(h) => String::from_str(h.as_str()),
        Err(e) => {
            let d = e.describe();
            String::from_str("Failed to generate hint: ").concat(d.as_str())
        },
    }
}

/// The character that must end an inline query before it is answered.
pub open spec fn is_mark(c: char) -> bool {
    c == '喵'
}

/// The index just past the last character before `j` that is no mark.
pub open spec fn strip_marks(s: Seq<char>, j: int) -> int
    decreases j,
{
    if 0 < j <= s.len() && is_mark(s[j - 1]) {
        strip_marks(s, j - 1)
    } else {
        j
    }
}

/// How an inline query is answered.
pub enum InlineAnswer {
    /// The sender is not the authorized identity.
    NotMaster,
    /// The query does not end with the mark.
    MissingMark,
    /// Nothing but marks: there is no prompt to send.
    Nothing,
    /// Generate for `prompt` on `model`.
    Generate { prompt: String, model: Model },
}

pub enum InlineAnswerView {
    NotMaster,
    MissingMark,
    Nothing,
    Generate(Seq<char>, Model),
}

impl View for InlineAnswer {
    type V = InlineAnswerView;

    open spec fn view(&self) -> InlineAnswerView {
        match self {
            InlineAnswer::NotMaster => InlineAnswerView::NotMaster,
            InlineAnswer::MissingMark => InlineAnswerView::MissingMark,
            InlineAnswer::Nothing => InlineAnswerView::Nothing,
            InlineAnswer::Generate { prompt, model } => InlineAnswerView::Generate(prompt@, *model),
        }
    }
}

pub open spec fn inline_answer(m: Model, authorized: u64, from: u64, q: Seq<char>) -> InlineAnswerView {
    if from != authorized {
        InlineAnswerView::NotMaster
    } else if q.len() == 0 || !is_mark(q[q.len() - 1]) {
        InlineAnswerView::MissingMark
    } else if strip_marks(q, q.len() as int) == 0 {
        InlineAnswerView::Nothing
    } else {
        InlineAnswerView::Generate(q.subrange(0, strip_marks(q, q.len() as int)), m)
    }
}

/// Decides how an inline query from `from` is answered.
pub fn handle_inline(sel: &ModelSelection, authorized: u64, from: u64, query: &str) -> (r:
    InlineAnswer)
    ensures
        r@ == inline_answer(sel@, authorized, from, query@),
{
    if from != authorized {
        return InlineAnswer::NotMaster;
    }
    let n = query.unicode_len();
    if n == 0 || query.get_char(n - 1) != '喵' {
        return InlineAnswer::MissingMark;
    }
    let mut k = n;
    while k > 0 && query.get_char(k - 1) == '喵'
        invariant
            k <= n == query@.len(),
            strip_marks(query@, n as int) == strip_marks(query@, k as int),
        decreases k,
    {
        k = k - 1;
    }
    if k == 0 {
        return InlineAnswer::Nothing;
    }
    InlineAnswer::Generate {
        prompt: String::from_str(query.substring_char(0, k)),
        model: sel.get(),
    }
}

/// The text of the inline answer for `answer`; `outcome` is what the request
/// returned, where one was made.
pub fn inline_text(answer: &InlineAnswer, outcome: &Result<String, ChatError>) -> (r: String)
    ensures
        r@ == match answer@ {
            InlineAnswerView::NotMaster => "You are not my master!"@,
            InlineAnswerView::MissingMark => "Please end your query with 喵"@,
            InlineAnswerView::Nothing => nothing_spec(),
            InlineAnswerView::Generate(_, m) => if m == Model::Invalid {
                Seq::empty()
            } else {
                "Generated from "@ + name_of(m) + ":\n"@ + outcome_text(outcome_view(outcome))
            },
        },
{
    match answer {
        InlineAnswer::NotMaster => String::from_str("You are not my master!"),
        InlineAnswer::MissingMark => String::from_str("Please end your query with 喵"),
        InlineAnswer::Nothing => String::from_str("什么都没有!"),
        InlineAnswer::Generate { model, .. } => match model.checked_name() {
            None => String::new(),
            Some(name) => String::from_str("Generated from ").concat(name).concat(":\n").concat(
                finish_prompt(outcome).as_str(),
            ),
        },
    }
}

} // verus!
