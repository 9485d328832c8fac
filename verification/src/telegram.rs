//! The Telegram bot: its requests to the Bot API, the reading of the API's
//! answers, and the command language that users type to it.

use vstd::prelude::*;
use crate::http::{
    entry, json_object, json_str, ApiCall, ApiCallView, HttpMethod, HttpRequest,
    HttpRequestView, StatusPolicy, StatusPolicyView,
};
use crate::json::{lemma_members_json, members_json, Json, JsonValue};
use crate::text::{decimal, write_decimal};

verus! {

/// Errors of the Telegram bot.
#[derive(Clone, Debug, PartialEq)]
pub enum TelegramError {
    AuthError(String),
    ApiError(String),
    BotError(String),
}

pub enum TelegramErrorView {
    AuthError(Seq<char>),
    ApiError(Seq<char>),
    BotError(Seq<char>),
}

impl View for TelegramError {
    type V = TelegramErrorView;

    open spec fn view(&self) -> TelegramErrorView {
        match self {
            TelegramError::AuthError(s) => TelegramErrorView::AuthError(s@),
            TelegramError::ApiError(s) => TelegramErrorView::ApiError(s@),
            TelegramError::BotError(s) => TelegramErrorView::BotError(s@),
        }
    }
}

impl TelegramError {
    pub open spec fn message_spec(self) -> Seq<char> {
        match self {
            TelegramError::AuthError(s) => "Authentication error: "@ + s@,
            TelegramError::ApiError(s) => "API error: "@ + s@,
            TelegramError::BotError(s) => "Bot error: "@ + s@,
        }
    }

    /// The human-readable message of the error.
    pub fn message(&self) -> (m: String)
        ensures
            m@ == self.message_spec(),
    {
        let (prefix, detail) = match self {
            TelegramError::AuthError(s) => ("Authentication error: ", s),
            TelegramError::ApiError(s) => ("API error: ", s),
            TelegramError::BotError(s) => ("Bot error: ", s),
        };
        let mut m = String::from_str(prefix);
        m.append(detail.as_str());
        m
    }
}

/// A chat.
#[derive(Clone, Debug, PartialEq)]
pub struct Chat {
    pub id: i64,
}

/// A message as the Bot API reports it.
#[derive(Clone, Debug, PartialEq)]
pub struct Message {
    pub message_id: i64,
    pub chat: Chat,
    pub text: Option<String>,
}

/// One incoming update.
#[derive(Clone, Debug, PartialEq)]
pub struct Update {
    pub update_id: u64,
    pub message: Option<Message>,
}

/// The envelope of every Bot API answer.
#[derive(Debug)]
pub struct TelegramResponse<T> {
    pub ok: bool,
    pub result: Option<T>,
    pub description: Option<String>,
}

impl<T> TelegramResponse<T> {
    /// The result of the answer; without one, the API's description (or
    /// `Unknown error`) as a bot error.
    pub fn into_result(self) -> (r: Result<T, TelegramError>)
        ensures
            self.result is Some ==> r == Ok::<T, TelegramError>(self.result->0),
            self.result is None ==> r is Err && r->Err_0@ == TelegramErrorView::BotError(
                match self.description {
                    Some(d) => d@,
                    None => "Unknown error"@,
                },
            ),
    {
        match self.result {
            Some(r) => Ok(r),
            None => Err(TelegramError::BotError(match self.description {
                Some(d) => d,
                None => String::from_str("Unknown error"),
            })),
        }
    }

    /// Success of an answer that carries no result of interest: `ok`, or the
    /// API's description (or `Unknown error`) as a bot error.
    pub fn into_ack(self) -> (r: Result<(), TelegramError>)
        ensures
            self.ok ==> r is Ok,
            !self.ok ==> r is Err && r->Err_0@ == TelegramErrorView::BotError(
                match self.description {
                    Some(d) => d@,
                    None => "Unknown error"@,
                },
            ),
    {
        if self.ok {
            Ok(())
        } else {
            Err(TelegramError::BotError(match self.description {
                Some(d) => d,
                None => String::from_str("Unknown error"),
            }))
        }
    }
}

/// The body of a `sendMessage` request: HTML text to a chat, optionally as
/// a reply.
pub open spec fn send_message_body(chat_id: i64, text: Seq<char>, reply_to: Option<i64>) -> Json {
    Json::Object(
        seq![
            ("chat_id"@, Json::Number(chat_id as int)),
            ("text"@, Json::Str(text)),
            ("parse_mode"@, Json::Str("HTML"@)),
            (
                "reply_to_message_id"@,
                match reply_to {
                    Some(r) => Json::Number(r as int),
                    None => Json::Null,
                },
            ),
        ],
    )
}

/// Telegram bot client, with an optional default chat.
#[derive(Clone, Debug)]
pub struct DevaTelegramBot {
    pub token: String,
    pub chat_id: Option<i64>,
}

impl DevaTelegramBot {
    /// `https://api.telegram.org/bot{token}/{method}`
    pub open spec fn api_url_spec(&self, method: Seq<char>) -> Seq<char> {
        "https://api.telegram.org/bot"@ + self.token@ + "/"@ + method
    }

    /// The request that sends `text` to `chat_id`.
    pub open spec fn send_spec(&self, chat_id: i64, text: Seq<char>, reply_to: Option<i64>) -> ApiCallView {
        ApiCallView {
            request: HttpRequestView {
                method: HttpMethod::Post,
                url: self.api_url_spec("sendMessage"@),
                headers: Seq::empty(),
                body: Some(send_message_body(chat_id, text, reply_to)),
            },
            policy: StatusPolicyView::AcceptAny,
        }
    }

    /// Creates a bot from the value of `BOT_TOKEN`, with no default chat.
    pub fn from_env_value(token: Option<String>) -> (r: Result<Self, TelegramError>)
        ensures
            token is None ==> r is Err && r->Err_0@ == TelegramErrorView::AuthError("BOT_TOKEN not set"@),
            token is Some ==> r is Ok && r->Ok_0.token == token->0 && r->Ok_0.chat_id is None,
    {
        match token {
            None => Err(TelegramError::AuthError(String::from_str("BOT_TOKEN not set"))),
            Some(t) => Ok(Self::new(t, None)),
        }
    }

    /// Creates a bot.
    pub fn new(token: String, default_chat_id: Option<i64>) -> (b: Self)
        ensures
            b.token == token,
            b.chat_id == default_chat_id,
    {
        DevaTelegramBot { token, chat_id: default_chat_id }
    }

    /// The same bot with `chat_id` as its default chat.
    pub fn with_chat_id(self, chat_id: i64) -> (b: Self)
        ensures
            b.token == self.token,
            b.chat_id == Some(chat_id),
    {
        let mut b = self;
        b.chat_id = Some(chat_id);
        b
    }

    /// The URL of a Bot API method.
    pub fn api_url(&self, method: &str) -> (u: String)
        ensures
            u@ == self.api_url_spec(method@),
    {
        let mut u = String::from_str("https://api.telegram.org/bot");
        u.append(self.token.as_str());
        u.append("/");
        u.append(method);
        u
    }

    fn send_call(&self, chat_id: i64, text: &str, reply_to: Option<i64>) -> (c: ApiCall)
        ensures
            c@ == self.send_spec(chat_id, text@, reply_to),
    {
        let reply = match reply_to {
            Some(r) => JsonValue::Int(r),
            None => JsonValue::Null,
        };
        let members = vec![
            entry("chat_id", JsonValue::Int(chat_id)),
            entry("text", json_str(String::from_str(text))),
            entry("parse_mode", json_str(String::from_str("HTML"))),
            entry("reply_to_message_id", reply),
        ];
        proof {
            lemma_members_json(members@);
            assert(members_json(members@) =~= send_message_body(chat_id, text@, reply_to)->Object_0);
        }
        let headers: Vec<(String, String)> = Vec::new();
        assert(crate::http::headers_view(headers@) =~= Seq::<(Seq<char>, Seq<char>)>::empty());
        ApiCall {
            request: HttpRequest {
                method: HttpMethod::Post,
                url: self.api_url("sendMessage"),
                headers,
                body: Some(json_object(members)),
            },
            policy: StatusPolicy::AcceptAny,
        }
    }

    /// Sends `text` to the default chat; without one, a bot error.
    pub fn send_message_call(&self, text: &str) -> (r: Result<ApiCall, TelegramError>)
        ensures
            self.chat_id is None ==> r is Err && r->Err_0@ == TelegramErrorView::BotError("No chat_id set"@),
            self.chat_id is Some ==> r is Ok && r->Ok_0@ == self.send_spec(self.chat_id->0, text@, None),
    {
        match self.chat_id {
            None => Err(TelegramError::BotError(String::from_str("No chat_id set"))),
            Some(chat_id) => Ok(self.send_to_call(chat_id, text)),
        }
    }

    /// Sends `text` to `chat_id`.
    pub fn send_to_call(&self, chat_id: i64, text: &str) -> (c: ApiCall)
        ensures
            c@ == self.send_spec(chat_id, text@, None),
    {
        self.send_call(chat_id, text, None)
    }

    /// Sends `text` to the default chat as a reply to message `reply_to`;
    /// without a default chat, a bot error.
    pub fn send_reply_call(&self, text: &str, reply_to: i64) -> (r: Result<ApiCall, TelegramError>)
        ensures
            self.chat_id is None ==> r is Err && r->Err_0@ == TelegramErrorView::BotError("No chat_id set"@),
            self.chat_id is Some ==> r is Ok && r->Ok_0@ == self.send_spec(self.chat_id->0, text@, Some(reply_to)),
    {
        match self.chat_id {
            None => Err(TelegramError::BotError(String::from_str("No chat_id set"))),
            Some(chat_id) => Ok(self.send_call(chat_id, text, Some(reply_to))),
        }
    }

    /// Polls for updates from `offset` on.
    pub fn get_updates_call(&self, offset: Option<u64>) -> (c: ApiCall)
        ensures
            c@ == (ApiCallView {
                request: HttpRequestView {
                    method: HttpMethod::Get,
                    url: self.api_url_spec("getUpdates"@) + match offset {
                        Some(o) => "?offset="@ + decimal(o as nat),
                        None => Seq::empty(),
                    },
                    headers: Seq::empty(),
                    body: None,
                },
                policy: StatusPolicyView::AcceptAny,
            }),
    {
        let mut url = self.api_url("getUpdates");
        match offset {
            Some(o) => {
                let ghost before = url@;
                url.append("?offset=");
                write_decimal(&mut url, o);
                assert(url@ =~= before + ("?offset="@ + decimal(o as nat)));
            },
            None => {
                assert(url@ + Seq::<char>::empty() =~= url@);
            },
        }
        let headers: Vec<(String, String)> = Vec::new();
        assert(crate::http::headers_view(headers@) =~= Seq::<(Seq<char>, Seq<char>)>::empty());
        ApiCall {
            request: HttpRequest { method: HttpMethod::Get, url, headers, body: None },
            policy: StatusPolicy::AcceptAny,
        }
    }

    /// Answers a callback query with a text.
    pub fn answer_callback_call(&self, callback_id: &str, text: &str) -> (c: ApiCall)
        ensures
            c@ == (ApiCallView {
                request: HttpRequestView {
                    method: HttpMethod::Post,
                    url: self.api_url_spec("answerCallbackQuery"@),
                    headers: Seq::empty(),
                    body: Some(
                        Json::Object(
                            seq![
                                ("callback_query_id"@, Json::Str(callback_id@)),
                                ("text"@, Json::Str(text@)),
                            ],
                        ),
                    ),
                },
                policy: StatusPolicyView::AcceptAny,
            }),
    {
        let members = vec![
            entry("callback_query_id", json_str(String::from_str(callback_id))),
            entry("text", json_str(String::from_str(text))),
        ];
        proof {
            lemma_members_json(members@);
            assert(members_json(members@) =~= seq![
                ("callback_query_id"@, Json::Str(callback_id@)),
                ("text"@, Json::Str(text@)),
            ]);
        }
        let headers: Vec<(String, String)> = Vec::new();
        assert(crate::http::headers_view(headers@) =~= Seq::<(Seq<char>, Seq<char>)>::empty());
        ApiCall {
            request: HttpRequest {
                method: HttpMethod::Post,
                url: self.api_url("answerCallbackQuery"),
                headers,
                body: Some(json_object(members)),
            },
            policy: StatusPolicy::AcceptAny,
        }
    }
}

} // verus!
