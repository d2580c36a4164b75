//! The chat-completion exchange: the request that is sent for a prompt, and
//! what a reply body yields.
use vstd::prelude::*;
use vstd::string::*;
use crate::models::{name_of, Model};

verus! {

/// One role-tagged message of a chat-completion exchange.
pub struct ChatMessage {
    pub role: String,
    pub content: String,
}

/// One candidate of a reply.
pub struct ChatCompletionMessage {
    pub message: ChatMessage,
}

/// A decoded reply: its candidates, in order.
pub struct ChatCompletionResponse {
    pub choices: Vec<ChatCompletionMessage>,
}

/// Why a prompt produced no text. The three kinds stay apart so that the
/// reply to the user can say which one happened.
pub enum ChatError {
    /// The request did not complete (connection, TLS, timeout).
    Transport(String),
    /// The reply body was not a chat-completion reply.
    Decode(String),
    /// The reply held no candidate; the raw body is kept.
    EmptyResponse(String),
}

/// A hexadecimal digit, lower case.
pub open spec fn hex_digit(n: int) -> char {
    "0123456789abcdef"@[n]
}

/// How one character is written inside a JSON string literal: quote and
/// backslash are escaped, the control characters take their short escape or
/// `\u00xx`, and every other character stands for itself.
pub open spec fn json_escape(c: char) -> Seq<char> {
    if c == '"' {
        seq!['\\', '"']
    } else if c == '\\' {
        seq!['\\', '\\']
    } else if c == '\u{8}' {
        seq!['\\', 'b']
    } else if c == '\u{c}' {
        seq!['\\', 'f']
    } else if c == '\n' {
        seq!['\\', 'n']
    } else if c == '\r' {
        seq!['\\', 'r']
    } else if c == '\t' {
        seq!['\\', 't']
    } else if (c as int) < 0x20 {
        seq!['\\', 'u', '0', '0', hex_digit(c as int / 16), hex_digit(c as int % 16)]
    } else {
        seq![c]
    }
}

/// The escaped characters of `s`, in order.
pub open spec fn json_escaped(s: Seq<char>) -> Seq<char>
    decreases s.len(),
{
    if s.len() == 0 {
        Seq::empty()
    } else {
        json_escaped(s.drop_last()) + json_escape(s.last())
    }
}

/// The JSON string literal that encodes `s`.
pub open spec fn json_quoted(s: Seq<char>) -> Seq<char> {
    seq!['"'] + json_escaped(s) + seq!['"']
}

/// Relies on serde_json::to_string on a `str`: it writes the text as a JSON
/// string literal with the escapes of `json_escape`, into memory, so it does
/// not fail.
#[verifier::external_body]
fn quote_json(s: &str) -> (r: String)
    ensures
        r@ == json_quoted(s@),
{
    serde_json::to_string(s).unwrap_or_default()
}

/// The request body for `prompt` with the upstream name `model`.
pub open spec fn request_body_of(prompt: Seq<char>, model: Seq<char>) -> Seq<char> {
    "{\"messages\":[{\"role\":\"user\",\"content\":"@ + json_quoted(prompt) + "}],\"model\":"@
        + json_quoted(model) + "}"@
}

/// The JSON body of the single-message request for `prompt` on `model`.
pub fn request_body(prompt: &str, model: Model) -> (r: String)
    requires
        model != Model::Invalid,
    ensures
        r@ == request_body_of(prompt@, name_of(model)),
{
    let p = quote_json(prompt);
    let m = quote_json(model.name());
    let mut body = String::from_str("{\"messages\":[{\"role\":\"user\",\"content\":");
    body.append(p.as_str());
    body.append("}],\"model\":");
    body.append(m.as_str());
    body.append("}");
    body
}

/// The value of the `Authorization` header for `token`.
pub fn bearer(token: &str) -> (r: String)
    ensures
        r@ == "Bearer "@ + token@,
{
    String::from_str("Bearer ").concat(token)
}

/// The text of a reply: the first candidate's content, or the failure kind.
pub open spec fn reply_of(
    raw: Seq<char>,
    decoded: Result<Seq<Seq<char>>, Seq<char>>,
) -> Result<Seq<char>, ChatErrorView> {
    match decoded {
        Err(e) => Err(ChatErrorView::Decode(e)),
        Ok(contents) => if contents.len() > 0 {
            Ok(contents[0])
        } else {
            Err(ChatErrorView::EmptyResponse(raw))
        },
    }
}

/// What a `ChatError` says.
pub enum ChatErrorView {
    Transport(Seq<char>),
    Decode(Seq<char>),
    EmptyResponse(Seq<char>),
}

impl View for ChatError {
    type V = ChatErrorView;

    open spec fn view(&self) -> ChatErrorView {
        match self {
            ChatError::Transport(s) => ChatErrorView::Transport(s@),
            ChatError::Decode(s) => ChatErrorView::Decode(s@),
            ChatError::EmptyResponse(s) => ChatErrorView::EmptyResponse(s@),
        }
    }
}

/// The contents of a decoded reply's candidates, in order.
pub open spec fn contents_of(r: ChatCompletionResponse) -> Seq<Seq<char>> {
    r.choices@.map_values(|c: ChatCompletionMessage| c.message.content@)
}

pub open spec fn decoded_view(d: Result<ChatCompletionResponse, String>) -> Result<
    Seq<Seq<char>>,
    Seq<char>,
> {
    match d {
        Ok(r) => Ok(contents_of(r)),
        Err(e) => Err(e@),
    }
}

pub open spec fn result_view(r: Result<String, ChatError>) -> Result<Seq<char>, ChatErrorView> {
    match r {
        Ok(s) => Ok(s@),
        Err(e) => Err(e@),
    }
}

/// Decides what the body `raw` of a reply yields, given its decoding (or
/// the decoder's message).
pub fn interpret_reply(raw: &str, decoded: Result<ChatCompletionResponse, String>) -> (r: Result<
    String,
    ChatError,
>)
    ensures
        result_view(r) == reply_of(raw@, decoded_view(decoded)),
{
    match decoded {
        Err(e) => Err(ChatError::Decode(e)),
        Ok(resp) => {
            if resp.choices.len() > 0 {
                let c = &resp.choices[0].message.content;
                Ok(String::from_str(c.as_str()))
            } else {
                Err(ChatError::EmptyResponse(String::from_str(raw)))
            }
        },
    }
}

impl ChatError {
    /// The description shown to the user.
    pub fn describe(&self) -> (r: String)
        ensures
            r@ == describe_of(self@),
    {
        match self {
            ChatError::Transport(s) => String::from_str(s.as_str()),
            ChatError::Decode(s) => String::from_str(s.as_str()),
            ChatError::EmptyResponse(raw) => String::from_str("Error: ").concat(raw.as_str()),
        }
    }
}

pub open spec fn describe_of(e: ChatErrorView) -> Seq<char> {
    match e {
        ChatErrorView::Transport(s) => s,
        ChatErrorView::Decode(s) => s,
        ChatErrorView::EmptyResponse(raw) => "Error: "@ + raw,
    }
}

} // verus!
