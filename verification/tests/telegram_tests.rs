use deva::commands::BotCommand;
use deva::http::{HttpMethod, StatusPolicy};
use deva::json::{JsonMember, JsonValue};
use deva::telegram::{Chat, DevaTelegramBot, Message, TelegramError, TelegramResponse};

fn member(key: &str, value: JsonValue) -> JsonMember {
    JsonMember { key: key.to_string(), value }
}

#[test]
fn parse_simple_commands() {
    assert_eq!(BotCommand::parse("/help"), Some(BotCommand::Help));
    assert_eq!(BotCommand::parse("/h"), Some(BotCommand::Help));
    assert_eq!(BotCommand::parse("?"), Some(BotCommand::Help));
    assert_eq!(BotCommand::parse("/start"), Some(BotCommand::Start));
    assert_eq!(BotCommand::parse("/status"), Some(BotCommand::Status));
    assert_eq!(BotCommand::parse("/projects"), Some(BotCommand::Projects));
}

#[test]
fn parse_ignores_slashes_and_whitespace() {
    assert_eq!(BotCommand::parse("///status"), Some(BotCommand::Status));
    assert_eq!(BotCommand::parse("  status  "), Some(BotCommand::Status));
    assert_eq!(BotCommand::parse("/health \t web\u{3000}extra"), Some(BotCommand::Health("web".to_string())));
}

#[test]
fn parse_arguments() {
    assert_eq!(BotCommand::parse("/health api"), Some(BotCommand::Health("api".to_string())));
    assert_eq!(BotCommand::parse("/doctor api"), Some(BotCommand::Doctor("api".to_string())));
    assert_eq!(BotCommand::parse("/health"), None);
    assert_eq!(BotCommand::parse("/doctor"), None);
    assert_eq!(BotCommand::parse("/activity"), Some(BotCommand::Activity { limit: None }));
    assert_eq!(BotCommand::parse("/activity 5"), Some(BotCommand::Activity { limit: Some(5) }));
    assert_eq!(BotCommand::parse("/log +7"), Some(BotCommand::Activity { limit: Some(7) }));
    assert_eq!(BotCommand::parse("/log x"), Some(BotCommand::Activity { limit: None }));
    assert_eq!(BotCommand::parse("/log -1"), Some(BotCommand::Activity { limit: None }));
    assert_eq!(
        BotCommand::parse("/activity 4294967295"),
        Some(BotCommand::Activity { limit: Some(4294967295) })
    );
    assert_eq!(BotCommand::parse("/activity 4294967296"), Some(BotCommand::Activity { limit: None }));
}

#[test]
fn parse_rejects_unknown_and_empty() {
    assert_eq!(BotCommand::parse(""), None);
    assert_eq!(BotCommand::parse("///"), None);
    assert_eq!(BotCommand::parse("/deploy now"), None);
    assert_eq!(BotCommand::parse("/HELP"), None);
}

#[test]
fn help_text_lists_every_command() {
    let help = BotCommand::help_text();
    assert_eq!(
        help,
        "Deva Bot Commands:\n/help - Show this message\n/start - Start the bot\n/status - Show bot status\n/projects - List projects\n/health <project> - Show project health\n/doctor <project> - Run diagnostics\n/activity [limit] - Show recent activity"
    );
    for line in help.lines().skip(1) {
        let cmd = line.split(' ').next().unwrap();
        assert!(BotCommand::parse(cmd).is_some() || cmd == "/health" || cmd == "/doctor", "{}", cmd);
    }
}

#[test]
fn reply_texts() {
    assert_eq!(BotCommand::Help.reply_text(), BotCommand::help_text());
    assert_eq!(BotCommand::Start.reply_text(), "Deva Bot started! Use /help for commands.");
    assert_eq!(BotCommand::Status.reply_text(), "Deva Bot v0.1.0\nStatus: Running");
    assert_eq!(BotCommand::Projects.reply_text(), "Projects:\n- project-a\n- project-b");
    assert_eq!(
        BotCommand::Health("web".to_string()).reply_text(),
        "Health check for web: All systems operational"
    );
    assert_eq!(BotCommand::Doctor("web".to_string()).reply_text(), "Running diagnostics for web...");
    assert_eq!(
        BotCommand::Activity { limit: None }.reply_text(),
        "Recent activity (last 10 items):\n- PR #123 merged\n- Issue #456 closed"
    );
    assert_eq!(
        BotCommand::Activity { limit: Some(3) }.reply_text(),
        "Recent activity (last 3 items):\n- PR #123 merged\n- Issue #456 closed"
    );
}

#[test]
fn activity_limit_round_trip() {
    for n in [0u32, 1, 9, 10, 99, 12345, u32::MAX] {
        let line = format!("activity {}", n);
        assert_eq!(BotCommand::parse(&line), Some(BotCommand::Activity { limit: Some(n) }));
    }
}

#[test]
fn send_message_needs_a_chat() {
    let bot = DevaTelegramBot::new("T0K".to_string(), None);
    assert_eq!(bot.send_message_call("hi").unwrap_err(), TelegramError::BotError("No chat_id set".to_string()));
    assert_eq!(bot.send_reply_call("hi", 3).unwrap_err(), TelegramError::BotError("No chat_id set".to_string()));
}

#[test]
fn send_message_to_default_chat() {
    let bot = DevaTelegramBot::new("T0K".to_string(), None).with_chat_id(42);
    let call = bot.send_message_call("<b>hi</b>").unwrap();
    assert_eq!(call, bot.send_to_call(42, "<b>hi</b>"));
    assert_eq!(call.request.method, HttpMethod::Post);
    assert_eq!(call.request.url, "https://api.telegram.org/botT0K/sendMessage");
    assert!(call.request.headers.is_empty());
    assert_eq!(call.policy, StatusPolicy::AcceptAny);
    assert_eq!(
        call.request.body,
        Some(JsonValue::Object(vec![
            member("chat_id", JsonValue::Int(42)),
            member("text", JsonValue::Str("<b>hi</b>".to_string())),
            member("parse_mode", JsonValue::Str("HTML".to_string())),
            member("reply_to_message_id", JsonValue::Null),
        ]))
    );
}

#[test]
fn send_reply_and_updates_and_callbacks() {
    let bot = DevaTelegramBot::new("T".to_string(), Some(-5));
    let call = bot.send_reply_call("ok", 77).unwrap();
    assert_eq!(
        call.request.body,
        Some(JsonValue::Object(vec![
            member("chat_id", JsonValue::Int(-5)),
            member("text", JsonValue::Str("ok".to_string())),
            member("parse_mode", JsonValue::Str("HTML".to_string())),
            member("reply_to_message_id", JsonValue::Int(77)),
        ]))
    );
    assert_eq!(bot.get_updates_call(None).request.url, "https://api.telegram.org/botT/getUpdates");
    let updates = bot.get_updates_call(Some(1200));
    assert_eq!(updates.request.url, "https://api.telegram.org/botT/getUpdates?offset=1200");
    assert_eq!(updates.request.method, HttpMethod::Get);
    let answer = bot.answer_callback_call("cb1", "done");
    assert_eq!(answer.request.url, "https://api.telegram.org/botT/answerCallbackQuery");
    assert_eq!(
        answer.request.body,
        Some(JsonValue::Object(vec![
            member("callback_query_id", JsonValue::Str("cb1".to_string())),
            member("text", JsonValue::Str("done".to_string())),
        ]))
    );
}

#[test]
fn execute_sends_the_reply() {
    let bot = DevaTelegramBot::new("T".to_string(), None);
    let call = BotCommand::Doctor("svc".to_string()).execute_call(&bot, 9);
    assert_eq!(call, bot.send_to_call(9, "Running diagnostics for svc..."));
}

#[test]
fn bot_from_env_value() {
    assert_eq!(
        DevaTelegramBot::from_env_value(None).err(),
        Some(TelegramError::AuthError("BOT_TOKEN not set".to_string()))
    );
    let bot = DevaTelegramBot::from_env_value(Some("abc".to_string())).unwrap();
    assert_eq!(bot.token, "abc");
    assert_eq!(bot.chat_id, None);
}

#[test]
fn telegram_answers() {
    let msg = Message { message_id: 1, chat: Chat { id: 2 }, text: None };
    let ok = TelegramResponse { ok: true, result: Some(msg.clone()), description: None };
    assert_eq!(ok.into_result(), Ok(msg));
    let missing: TelegramResponse<Message> = TelegramResponse { ok: false, result: None, description: Some("Bad Request".to_string()) };
    assert_eq!(missing.into_result(), Err(TelegramError::BotError("Bad Request".to_string())));
    let silent: TelegramResponse<Message> = TelegramResponse { ok: false, result: None, description: None };
    assert_eq!(silent.into_result(), Err(TelegramError::BotError("Unknown error".to_string())));
    let ack: TelegramResponse<bool> = TelegramResponse { ok: true, result: None, description: None };
    assert_eq!(ack.into_ack(), Ok(()));
    let nack: TelegramResponse<bool> = TelegramResponse { ok: false, result: Some(false), description: None };
    assert_eq!(nack.into_ack(), Err(TelegramError::BotError("Unknown error".to_string())));
}

#[test]
fn telegram_error_messages() {
    assert_eq!(TelegramError::BotError("x".to_string()).message(), "Bot error: x");
    assert_eq!(TelegramError::ApiError("x".to_string()).message(), "API error: x");
    assert_eq!(TelegramError::AuthError("x".to_string()).message(), "Authentication error: x");
}

#[test]
fn extra_words_and_whitespace_runs_do_not_matter() {
    assert_eq!(BotCommand::parse("/health api now please"), BotCommand::parse("/health api"));
    assert_eq!(BotCommand::parse("/activity 3 x"), Some(BotCommand::Activity { limit: Some(3) }));
    assert_eq!(BotCommand::parse("/doctor\t \n svc"), BotCommand::parse("/doctor svc"));
    assert_eq!(BotCommand::parse("\u{2003}\u{2003}status"), BotCommand::parse(" status"));
}
