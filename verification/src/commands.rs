//! The command language of the bot: what a user types, what it means, and
//! what the bot answers.

use vstd::prelude::*;
use crate::http::ApiCall;
use crate::telegram::DevaTelegramBot;
use crate::text::{
    chars_of, count_leading, decimal, is_whitespace, leading_word, lemma_parse_decimal,
    lemma_trim_leading_append, lemma_words_after_whitespace, lemma_words_append, parse_u32, parse_u32_chars, skip_whitespace,
    trim_leading, words, words_from, write_decimal,
};

verus! {

/// A bot command.
#[derive(Clone, Debug, PartialEq)]
pub enum BotCommand {
    Help,
    Start,
    Status,
    Projects,
    Health(String),
    Doctor(String),
    Activity { limit: Option<u32> },
}

pub enum BotCommandView {
    Help,
    Start,
    Status,
    Projects,
    Health(Seq<char>),
    Doctor(Seq<char>),
    Activity { limit: Option<u32> },
}

impl View for BotCommand {
    type V = BotCommandView;

    open spec fn view(&self) -> BotCommandView {
        match self {
            BotCommand::Help => BotCommandView::Help,
            BotCommand::Start => BotCommandView::Start,
            BotCommand::Status => BotCommandView::Status,
            BotCommand::Projects => BotCommandView::Projects,
            BotCommand::Health(p) => BotCommandView::Health(p@),
            BotCommand::Doctor(p) => BotCommandView::Doctor(p@),
            BotCommand::Activity { limit } => BotCommandView::Activity { limit: *limit },
        }
    }
}

pub open spec fn command_option_view(c: Option<BotCommand>) -> Option<BotCommandView> {
    match c {
        Some(c) => Some(c@),
        None => None,
    }
}

/// The meaning of a line of text: leading slashes are dropped, the rest is
/// split at whitespace, and the first word names the command. `health` and
/// `doctor` need a second word (the project); `activity` takes an optional
/// limit, which is dropped when it is not a `u32`. Anything else means
/// nothing.
pub open spec fn parse_spec(text: Seq<char>) -> Option<BotCommandView> {
    let parts = words(trim_leading(text, '/'));
    if parts.len() == 0 {
        None
    } else {
        let cmd = parts[0];
        if cmd == "help"@ || cmd == "h"@ || cmd == "?"@ {
            Some(BotCommandView::Help)
        } else if cmd == "start"@ {
            Some(BotCommandView::Start)
        } else if cmd == "status"@ {
            Some(BotCommandView::Status)
        } else if cmd == "projects"@ {
            Some(BotCommandView::Projects)
        } else if cmd == "health"@ {
            if parts.len() > 1 {
                Some(BotCommandView::Health(parts[1]))
            } else {
                None
            }
        } else if cmd == "doctor"@ {
            if parts.len() > 1 {
                Some(BotCommandView::Doctor(parts[1]))
            } else {
                None
            }
        } else if cmd == "activity"@ || cmd == "log"@ {
            Some(
                BotCommandView::Activity {
                    limit: if parts.len() > 1 {
                        parse_u32(parts[1])
                    } else {
                        None
                    },
                },
            )
        } else {
            None
        }
    }
}

/// The text of `/help`.
pub open spec fn help_text_spec() -> Seq<char> {
    "Deva Bot Commands:\n/help - Show this message\n/start - Start the bot\n/status - Show bot status\n/projects - List projects\n/health <project> - Show project health\n/doctor <project> - Run diagnostics\n/activity [limit] - Show recent activity"@
}

/// What the bot answers to a command.
pub open spec fn reply_spec(c: BotCommandView) -> Seq<char> {
    match c {
        BotCommandView::Help => help_text_spec(),
        BotCommandView::Start => "Deva Bot started! Use /help for commands."@,
        BotCommandView::Status => "Deva Bot v0.1.0\nStatus: Running"@,
        BotCommandView::Projects => "Projects:\n- project-a\n- project-b"@,
        BotCommandView::Health(p) => "Health check for "@ + p + ": All systems operational"@,
        BotCommandView::Doctor(p) => "Running diagnostics for "@ + p + "..."@,
        BotCommandView::Activity { limit } => "Recent activity (last "@ + decimal(
            match limit {
                Some(n) => n as nat,
                None => 10,
            },
        ) + " items):\n- PR #123 merged\n- Issue #456 closed"@,
    }
}

fn word_is(w: &String, lit: &str) -> (b: bool)
    ensures
        b == (w@ == lit@),
{
    *w == String::from_str(lit)
}

impl BotCommand {
    /// Reads a command from a line of text.
    pub fn parse(text: &str) -> (r: Option<BotCommand>)
        ensures
            command_option_view(r) == parse_spec(text@),
    {
        let cs = chars_of(text);
        let start = count_leading(&cs, '/');
        let parts = words_from(&cs, start);
        let ghost pv = parts@.map_values(|w: String| w@);
        assert(pv == words(trim_leading(text@, '/')));
        if parts.len() == 0 {
            return None;
        }
        assert(pv[0] == parts@[0]@);
        let cmd = &parts[0];
        if word_is(cmd, "help") || word_is(cmd, "h") || word_is(cmd, "?") {
            Some(BotCommand::Help)
        } else if word_is(cmd, "start") {
            Some(BotCommand::Start)
        } else if word_is(cmd, "status") {
            Some(BotCommand::Status)
        } else if word_is(cmd, "projects") {
            Some(BotCommand::Projects)
        } else if word_is(cmd, "health") {
            if parts.len() > 1 {
                assert(pv[1] == parts@[1]@);
                Some(BotCommand::Health(parts[1].clone()))
            } else {
                None
            }
        } else if word_is(cmd, "doctor") {
            if parts.len() > 1 {
                assert(pv[1] == parts@[1]@);
                Some(BotCommand::Doctor(parts[1].clone()))
            } else {
                None
            }
        } else if word_is(cmd, "activity") || word_is(cmd, "log") {
            let limit = if parts.len() > 1 {
                assert(pv[1] == parts@[1]@);
                parse_u32_chars(&chars_of(parts[1].as_str()))
            } else {
                None
            };
            Some(BotCommand::Activity { limit })
        } else {
            None
        }
    }

    /// The list of commands that `/help` shows.
    pub fn help_text() -> (s: &'static str)
        ensures
            s@ == help_text_spec(),
    {
        "Deva Bot Commands:\n/help - Show this message\n/start - Start the bot\n/status - Show bot status\n/projects - List projects\n/health <project> - Show project health\n/doctor <project> - Run diagnostics\n/activity [limit] - Show recent activity"
    }

    /// The answer that executing the command sends.
    pub fn reply_text(&self) -> (s: String)
        ensures
            s@ == reply_spec(self@),
    {
        match self {
            BotCommand::Help => String::from_str(Self::help_text()),
            BotCommand::Start => String::from_str("Deva Bot started! Use /help for commands."),
            BotCommand::Status => String::from_str("Deva Bot v0.1.0\nStatus: Running"),
            BotCommand::Projects => String::from_str("Projects:\n- project-a\n- project-b"),
            BotCommand::Health(project) => {
                let mut s = String::from_str("Health check for ");
                s.append(project.as_str());
                s.append(": All systems operational");
                s
            },
            BotCommand::Doctor(project) => {
                let mut s = String::from_str("Running diagnostics for ");
                s.append(project.as_str());
                s.append("...");
                s
            },
            BotCommand::Activity { limit } => {
                let n: u32 = match limit {
                    Some(n) => *n,
                    None => 10,
                };
                let mut s = String::from_str("Recent activity (last ");
                write_decimal(&mut s, n as u64);
                s.append(" items):\n- PR #123 merged\n- Issue #456 closed");
                s
            },
        }
    }

    /// Executing the command: its answer, sent to `chat_id`.
    pub fn execute_call(&self, bot: &DevaTelegramBot, chat_id: i64) -> (c: ApiCall)
        ensures
            c@ == bot.send_spec(chat_id, reply_spec(self@), None),
    {
        let text = self.reply_text();
        bot.send_to_call(chat_id, text.as_str())
    }
}


/// A non-empty word without whitespace.
pub open spec fn is_plain_word(w: Seq<char>) -> bool {
    w.len() > 0 && forall|i: int| 0 <= i < w.len() ==> !is_whitespace(#[trigger] w[i])
}

proof fn lemma_plain_word(w: Seq<char>)
    requires
        forall|i: int| 0 <= i < w.len() ==> !is_whitespace(#[trigger] w[i]),
    ensures
        leading_word(w) == w,
    decreases w.len(),
{
    if w.len() > 0 {
        lemma_plain_word(w.drop_first());
        assert(seq![w[0]] + w.drop_first() =~= w);
    } else {
        assert(w =~= Seq::<char>::empty());
    }
}

proof fn lemma_word_before_space(w: Seq<char>, rest: Seq<char>)
    requires
        forall|i: int| 0 <= i < w.len() ==> !is_whitespace(#[trigger] w[i]),
        rest.len() > 0,
        is_whitespace(rest[0]),
    ensures
        leading_word(w + rest) == w,
    decreases w.len(),
{
    if w.len() > 0 {
        lemma_word_before_space(w.drop_first(), rest);
        assert((w + rest).drop_first() =~= w.drop_first() + rest);
        assert(seq![w[0]] + w.drop_first() =~= w);
    } else {
        assert(w + rest =~= rest);
        assert(w =~= Seq::<char>::empty());
    }
}

/// A command word, one space and a plain argument split into exactly those
/// two words.
pub proof fn lemma_words_pair(w: Seq<char>, arg: Seq<char>)
    requires
        is_plain_word(w),
        is_plain_word(arg),
    ensures
        words(w + seq![' '] + arg) == seq![w, arg],
{
    let s = w + seq![' '] + arg;
    assert(s[0] == w[0]);
    assert(skip_whitespace(s) == s);
    assert(s == w + (seq![' '] + arg));
    lemma_word_before_space(w, seq![' '] + arg);
    assert(leading_word(s) == w);
    let rest = s.skip(w.len() as int);
    assert(rest =~= seq![' '] + arg);
    assert(rest.drop_first() =~= arg);
    assert(skip_whitespace(arg) == arg);
    assert(skip_whitespace(rest) == arg);
    lemma_plain_word(arg);
    assert(arg.skip(arg.len() as int) =~= Seq::<char>::empty());
    assert(words(Seq::<char>::empty()) == Seq::<Seq<char>>::empty());
    assert(words(rest) =~= seq![arg]);
    assert(words(s) =~= seq![w] + seq![arg]);
}

/// Slashes in front of a command do not change its meaning.
pub proof fn law_leading_slash_ignored(text: Seq<char>)
    ensures
        parse_spec(seq!['/'] + text) == parse_spec(text),
{
    let s = seq!['/'] + text;
    assert(s.drop_first() =~= text);
    assert(trim_leading(s, '/') == trim_leading(text, '/'));
}

/// `health <project>` asks for the health of that project.
pub proof fn law_health_roundtrip(project: Seq<char>)
    requires
        is_plain_word(project),
    ensures
        parse_spec("health"@ + seq![' '] + project) == Some(BotCommandView::Health(project)),
{
    reveal_strlit("health");
    let s = "health"@ + seq![' '] + project;
    assert(s[0] == 'h');
    assert(trim_leading(s, '/') == s);
    lemma_words_pair("health"@, project);
    reveal_strlit("help");
    reveal_strlit("h");
    reveal_strlit("?");
    reveal_strlit("start");
    reveal_strlit("status");
    reveal_strlit("projects");
    assert("health"@ != "help"@);
    assert("health"@ != "h"@);
    assert("health"@ != "?"@);
    assert("health"@ != "start"@);
    assert("health"@ != "status"@);
    assert("health"@ != "projects"@);
}

/// `doctor <project>` runs the diagnostics of that project.
pub proof fn law_doctor_roundtrip(project: Seq<char>)
    requires
        is_plain_word(project),
    ensures
        parse_spec("doctor"@ + seq![' '] + project) == Some(BotCommandView::Doctor(project)),
{
    reveal_strlit("doctor");
    let s = "doctor"@ + seq![' '] + project;
    assert(s[0] == 'd');
    assert(trim_leading(s, '/') == s);
    lemma_words_pair("doctor"@, project);
    reveal_strlit("help");
    reveal_strlit("h");
    reveal_strlit("?");
    reveal_strlit("start");
    reveal_strlit("status");
    reveal_strlit("projects");
    reveal_strlit("health");
    assert("doctor"@ != "help"@);
    assert("doctor"@ != "h"@);
    assert("doctor"@ != "?"@);
    assert("doctor"@ != "start"@);
    assert("doctor"@ != "status"@);
    assert("doctor"@ != "projects"@);
    assert("doctor"@ != "health"@);
}

/// `activity <n>` reads back the limit `n` that the answer then shows.
pub proof fn law_activity_roundtrip(n: u32)
    ensures
        parse_spec("activity"@ + seq![' '] + decimal(n as nat)) == Some(
            BotCommandView::Activity { limit: Some(n) },
        ),
{
    reveal_strlit("activity");
    let d = decimal(n as nat);
    lemma_parse_decimal(n);
    crate::text::lemma_decimal_digits(n as nat);
    assert(is_plain_word(d)) by {
        assert forall|i: int| 0 <= i < d.len() implies !is_whitespace(#[trigger] d[i]) by {
            assert(crate::text::is_ascii_digit(d[i]));
        }
    }
    let s = "activity"@ + seq![' '] + d;
    assert(s[0] == 'a');
    assert(trim_leading(s, '/') == s);
    lemma_words_pair("activity"@, d);
    reveal_strlit("help");
    reveal_strlit("h");
    reveal_strlit("?");
    reveal_strlit("start");
    reveal_strlit("status");
    reveal_strlit("projects");
    reveal_strlit("health");
    reveal_strlit("doctor");
    assert("activity"@ != "help"@);
    assert("activity"@ != "h"@);
    assert("activity"@ != "?"@);
    assert("activity"@ != "start"@);
    assert("activity"@ != "status"@);
    assert("activity"@ != "projects"@);
    assert("activity"@ != "health"@);
    assert("activity"@ != "doctor"@);
}


/// Words after the second do not change a command: appending a space and
/// anything at all to a text of two or more words leaves its meaning.
pub proof fn law_extra_words_ignored(text: Seq<char>, extra: Seq<char>)
    requires
        words(trim_leading(text, '/')).len() >= 2,
    ensures
        parse_spec(text + seq![' '] + extra) == parse_spec(text),
{
    let tail = seq![' '] + extra;
    assert(is_whitespace(tail[0]));
    assert(text + seq![' '] + extra =~= text + tail);
    lemma_trim_leading_append(text, tail, '/');
    lemma_words_append(trim_leading(text, '/'), tail);
    let parts = words(trim_leading(text, '/'));
    let longer = words(trim_leading(text + tail, '/'));
    assert(longer == parts + words(tail));
    assert(longer[0] == parts[0]);
    assert(longer[1] == parts[1]);
}

/// How much whitespace separates the words does not matter: a run of
/// whitespace means what one space means.
pub proof fn law_whitespace_runs(before: Seq<char>, run: Seq<char>, after: Seq<char>)
    requires
        run.len() > 0,
        forall|i: int| 0 <= i < run.len() ==> is_whitespace(#[trigger] run[i]),
    ensures
        parse_spec(before + run + after) == parse_spec(before + seq![' '] + after),
{
    let space = seq![' '];
    assert(is_whitespace(space[0]));
    assert forall|i: int| 0 <= i < space.len() implies is_whitespace(#[trigger] space[i]) by {
        assert(space[i] == ' ');
    }
    let t1 = run + after;
    let t2 = space + after;
    assert(t1[0] == run[0]);
    assert(before + run + after =~= before + t1);
    assert(before + seq![' '] + after =~= before + t2);
    lemma_trim_leading_append(before, t1, '/');
    lemma_trim_leading_append(before, t2, '/');
    let b = trim_leading(before, '/');
    lemma_words_append(b, t1);
    lemma_words_append(b, t2);
    lemma_words_after_whitespace(run, after);
    lemma_words_after_whitespace(space, after);
    assert(words(trim_leading(before + t1, '/')) == words(trim_leading(before + t2, '/')));
}

/// A word without whitespace is the only word of itself.
proof fn lemma_words_single(w: Seq<char>)
    requires
        is_plain_word(w),
    ensures
        words(w) == seq![w],
{
    assert(skip_whitespace(w) == w);
    lemma_plain_word(w);
    assert(w.skip(w.len() as int) =~= Seq::<char>::empty());
    assert(words(Seq::<char>::empty()) == Seq::<Seq<char>>::empty());
    assert(words(w) =~= seq![w]);
}

/// The commands that read no argument.
pub open spec fn takes_no_argument(cmd: Seq<char>) -> bool {
    cmd == "help"@ || cmd == "h"@ || cmd == "?"@ || cmd == "start"@ || cmd == "status"@
        || cmd == "projects"@
}

/// The first word alone decides a command that reads no argument: whatever
/// follows a space after a text whose first word is `help`, `h`, `?`,
/// `start`, `status` or `projects` (a start payload, a stray word) does not
/// change what the text means.
pub proof fn law_first_word_decides(text: Seq<char>, extra: Seq<char>)
    requires
        words(trim_leading(text, '/')).len() >= 1,
        takes_no_argument(words(trim_leading(text, '/'))[0]),
    ensures
        parse_spec(text + seq![' '] + extra) == parse_spec(text),
{
    let tail = seq![' '] + extra;
    assert(is_whitespace(tail[0]));
    assert(text + seq![' '] + extra =~= text + tail);
    lemma_trim_leading_append(text, tail, '/');
    lemma_words_append(trim_leading(text, '/'), tail);
    let parts = words(trim_leading(text, '/'));
    let longer = words(trim_leading(text + tail, '/'));
    assert(longer == parts + words(tail));
    assert(longer[0] == parts[0]);
}

/// `start`, `help`, `status` and `projects` mean that command whatever
/// follows them after a space, such as the payload of a start link.
pub proof fn law_plain_commands_take_no_argument(extra: Seq<char>)
    ensures
        parse_spec("start"@ + seq![' '] + extra) == Some(BotCommandView::Start),
        parse_spec("help"@ + seq![' '] + extra) == Some(BotCommandView::Help),
        parse_spec("status"@ + seq![' '] + extra) == Some(BotCommandView::Status),
        parse_spec("projects"@ + seq![' '] + extra) == Some(BotCommandView::Projects),
{
    reveal_strlit("start");
    reveal_strlit("help");
    reveal_strlit("h");
    reveal_strlit("?");
    reveal_strlit("status");
    reveal_strlit("projects");
    assert("start"@ != "help"@ && "start"@ != "h"@ && "start"@ != "?"@);
    assert("status"@ != "help"@ && "status"@ != "h"@ && "status"@ != "?"@ && "status"@ != "start"@);
    assert("projects"@ != "help"@ && "projects"@ != "h"@ && "projects"@ != "?"@ && "projects"@
        != "start"@ && "projects"@ != "status"@);
    lemma_plain_command("start"@, extra);
    lemma_plain_command("help"@, extra);
    lemma_plain_command("status"@, extra);
    lemma_plain_command("projects"@, extra);
}

proof fn lemma_plain_command(w: Seq<char>, extra: Seq<char>)
    requires
        is_plain_word(w),
        w[0] != '/',
        takes_no_argument(w),
    ensures
        words(trim_leading(w, '/')) == seq![w],
        parse_spec(w + seq![' '] + extra) == parse_spec(w),
{
    assert(trim_leading(w, '/') == w);
    lemma_words_single(w);
    law_first_word_decides(w, extra);
}

/// The answer to `activity` shows the limit asked for, whatever it is, and
/// the answer to `activity <n>` shows `n`.
pub proof fn law_activity_reply_shows_the_limit(n: u32)
    ensures
        reply_spec(BotCommandView::Activity { limit: Some(n) }) == "Recent activity (last "@
            + decimal(n as nat) + " items):\n- PR #123 merged\n- Issue #456 closed"@,
        parse_spec("activity"@ + seq![' '] + decimal(n as nat)) matches Some(c) && reply_spec(c)
            == "Recent activity (last "@ + decimal(n as nat)
            + " items):\n- PR #123 merged\n- Issue #456 closed"@,
{
    law_activity_roundtrip(n);
}

} // verus!
