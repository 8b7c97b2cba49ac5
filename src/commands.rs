//! Reading the options of a slash command and choosing what to run.

use vstd::prelude::*;
use vstd::string::*;
use crate::config::{ConfigUpdate, SchedulerError, ValidationError, parse_time_of_day, time_of_day_of};
use crate::text::{EmbedText, Tone, copy_text, same_text};

verus! {

/// The value a user gave for a command option.
pub enum OptionValue {
    Text(String),
    Integer(i64),
    Channel(u64),
    /// A kind of value that no command here reads.
    Other,
}

/// One option of a slash command; `value` is absent when the platform could
/// not resolve it.
pub struct CommandOption {
    pub name: String,
    pub value: Option<OptionValue>,
}

/// The error for an option that is missing.
pub open spec fn missing_parameter_text(name: Seq<char>) -> Seq<char> {
    "Missing parameter "@ + name + "."@
}

/// The error for an option of the wrong kind.
pub open spec fn incorrect_type_text(name: Seq<char>) -> Seq<char> {
    "Incorrect type for the parameter "@ + name + "."@
}

/// What reading the text option at `index` gives: its text, or the error.
pub open spec fn required_text_of(options: Seq<CommandOption>, index: int, name: Seq<char>) -> Result<
    Seq<char>,
    Seq<char>,
> {
    if index >= options.len() {
        Err(missing_parameter_text(name))
    } else {
        match options[index].value {
            None => Err(missing_parameter_text(name)),
            Some(OptionValue::Text(t)) => Ok(t@),
            Some(_) => Err(incorrect_type_text(name)),
        }
    }
}

/// The view of a result of texts.
pub open spec fn text_result_view(r: Result<String, String>) -> Result<Seq<char>, Seq<char>> {
    match r {
        Ok(t) => Ok(t@),
        Err(e) => Err(e@),
    }
}

pub(crate) fn sentence(head: &str, name: &str, tail: &str) -> (r: String)
    ensures
        r@ == head@ + name@ + tail@,
{
    let mut r = String::from_str(head);
    r.append(name);
    r.append(tail);
    r
}

/// The text of the required option at `index`; `name` is used in the error.
pub fn get_required_string_param_from_options(
    options: &[CommandOption],
    index: usize,
    name: &str,
) -> (r: Result<String, String>)
    ensures
        text_result_view(r) == required_text_of(options@, index as int, name@),
{
    if index >= options.len() {
        return Err(sentence("Missing parameter ", name, "."));
    }
    match &options[index].value {
        None => Err(sentence("Missing parameter ", name, ".")),
        Some(OptionValue::Text(t)) => Ok(copy_text(t)),
        Some(_) => Err(sentence("Incorrect type for the parameter ", name, ".")),
    }
}

/// The text of the optional option at `index`, or the empty text.
pub open spec fn optional_text_of(options: Seq<CommandOption>, index: int) -> Seq<char> {
    if index < options.len() && options[index].value is Some && options[index].value->Some_0 is Text {
        options[index].value->Some_0->Text_0@
    } else {
        Seq::empty()
    }
}

/// The text of the optional option at `index`; empty when it is absent or not text.
pub fn get_optional_string_param_from_options(options: &[CommandOption], index: usize) -> (r:
    String)
    ensures
        r@ == optional_text_of(options@, index as int),
{
    if index < options.len() {
        if let Some(OptionValue::Text(t)) = &options[index].value {
            return copy_text(t);
        }
    }
    String::new()
}

/// The error texts of the configuration command.
pub open spec fn channel_bad_format_text() -> Seq<char> {
    "The parameter message_chanel given has a bad format.\nIt must be an integer."@
}

pub open spec fn channel_empty_text() -> Seq<char> {
    "The parameter message_chanel is empty.\nExpected an integer."@
}

pub open spec fn hour_not_text_text() -> Seq<char> {
    "The parameter hour given has a bad format.\nExpected a string."@
}

pub open spec fn hour_empty_text() -> Seq<char> {
    "The parameter hour is empty."@
}

pub open spec fn hour_bad_format_text() -> Seq<char> {
    "The parameter hour given has a bad format.\nExpected a string with the following format: HH:mm."@
}

pub open spec fn hour_out_of_range_text() -> Seq<char> {
    "The parameter hour is out of range.\nExpected an hour from 00 to 23 and a minute from 00 to 59."@
}

/// The update after reading one more option of the configuration command.
///
/// `message_chanel` sets the channel, `hour` (written `HH:mm`) sets hour and
/// minute; other options are ignored.
pub open spec fn with_option(u: ConfigUpdate, o: CommandOption) -> Result<ConfigUpdate, Seq<char>> {
    if o.name@ == "message_chanel"@ {
        match o.value {
            Some(OptionValue::Channel(id)) => Ok(ConfigUpdate { channel: Some(id), ..u }),
            Some(_) => Err(channel_bad_format_text()),
            None => Err(channel_empty_text()),
        }
    } else if o.name@ == "hour"@ {
        match o.value {
            Some(OptionValue::Text(t)) => match time_of_day_of(t@) {
                Ok((h, m)) => Ok(ConfigUpdate { hour: Some(h), minute: Some(m), ..u }),
                Err(SchedulerError::Validation(ValidationError::MalformedTime)) => Err(
                    hour_bad_format_text(),
                ),
                Err(_) => Err(hour_out_of_range_text()),
            },
            Some(_) => Err(hour_not_text_text()),
            None => Err(hour_empty_text()),
        }
    } else {
        Ok(u)
    }
}

/// The update that the options of the configuration command ask for; the
/// first bad option gives the error.
pub open spec fn update_from_options(options: Seq<CommandOption>) -> Result<ConfigUpdate, Seq<char>>
    decreases options.len(),
{
    if options.len() == 0 {
        Ok(ConfigUpdate { channel: None, hour: None, minute: None })
    } else {
        match update_from_options(options.drop_last()) {
            Ok(u) => with_option(u, options.last()),
            Err(e) => Err(e),
        }
    }
}

fn apply_option(u: ConfigUpdate, o: &CommandOption) -> (r: Result<ConfigUpdate, String>)
    ensures
        match r {
            Ok(v) => with_option(u, *o) == Ok::<ConfigUpdate, Seq<char>>(v),
            Err(e) => with_option(u, *o) == Err::<ConfigUpdate, Seq<char>>(e@),
        },
{
    if same_text(o.name.as_str(), "message_chanel") {
        match &o.value {
            Some(OptionValue::Channel(id)) => Ok(ConfigUpdate { channel: Some(*id), ..u }),
            Some(_) => Err(
                String::from_str(
                    "The parameter message_chanel given has a bad format.\nIt must be an integer.",
                ),
            ),
            None => Err(String::from_str("The parameter message_chanel is empty.\nExpected an integer.")),
        }
    } else if same_text(o.name.as_str(), "hour") {
        match &o.value {
            Some(OptionValue::Text(t)) => match parse_time_of_day(t.as_str()) {
                Ok((h, m)) => Ok(ConfigUpdate { hour: Some(h), minute: Some(m), ..u }),
                Err(SchedulerError::Validation(ValidationError::MalformedTime)) => Err(
                    String::from_str(
                        "The parameter hour given has a bad format.\nExpected a string with the following format: HH:mm.",
                    ),
                ),
                Err(_) => Err(
                    String::from_str(
                        "The parameter hour is out of range.\nExpected an hour from 00 to 23 and a minute from 00 to 59.",
                    ),
                ),
            },
            Some(_) => Err(String::from_str("The parameter hour given has a bad format.\nExpected a string.")),
            None => Err(String::from_str("The parameter hour is empty.")),
        }
    } else {
        Ok(u)
    }
}

/// Reads the options of the configuration command into an update.
pub fn config_update_from_options(options: &[CommandOption]) -> (r: Result<ConfigUpdate, String>)
    ensures
        match r {
            Ok(v) => update_from_options(options@) == Ok::<ConfigUpdate, Seq<char>>(v),
            Err(e) => update_from_options(options@) == Err::<ConfigUpdate, Seq<char>>(e@),
        },
{
    let mut acc = ConfigUpdate { channel: None, hour: None, minute: None };
    let mut k: usize = 0;
    assert(options@.take(0) =~= Seq::<CommandOption>::empty());
    while k < options.len()
        invariant
            k <= options@.len(),
            update_from_options(options@.take(k as int)) == Ok::<ConfigUpdate, Seq<char>>(acc),
        decreases options@.len() - k,
    {
        assert(options@.take(k + 1).drop_last() =~= options@.take(k as int));
        assert(options@.take(k + 1).last() == options@[k as int]);
        match apply_option(acc, &options[k]) {
            Ok(v) => {
                acc = v;
            },
            Err(e) => {
                proof {
                    lemma_error_persists(options@, k as int + 1);
                }
                return Err(e);
            },
        }
        k = k + 1;
    }
    assert(options@.take(k as int) =~= options@);
    Ok(acc)
}

proof fn lemma_error_persists(options: Seq<CommandOption>, k: int)
    requires
        0 <= k <= options.len(),
        update_from_options(options.take(k)) is Err,
    ensures
        update_from_options(options) == update_from_options(options.take(k)),
    decreases options.len() - k,
{
    if k < options.len() {
        assert(options.take(k + 1).drop_last() =~= options.take(k));
        lemma_error_persists(options, k + 1);
    } else {
        assert(options.take(k) =~= options);
    }
}

/// The actions of the `scheduler` command.
#[derive(Clone, Copy, Debug, PartialEq, Eq, Structural)]
pub enum SchedulerAction {
    Start,
    Stop,
    Info,
}

/// The action that the word `a` names, if any.
pub open spec fn action_named(a: Seq<char>) -> Option<SchedulerAction> {
    if a == "start"@ {
        Some(SchedulerAction::Start)
    } else if a == "stop"@ {
        Some(SchedulerAction::Stop)
    } else if a == "info"@ {
        Some(SchedulerAction::Info)
    } else {
        None
    }
}

/// Reads the action word of the `scheduler` command.
pub fn parse_action(action: &str) -> (r: Option<SchedulerAction>)
    ensures
        r == action_named(action@),
{
    if same_text(action, "start") {
        Some(SchedulerAction::Start)
    } else if same_text(action, "stop") {
        Some(SchedulerAction::Stop)
    } else if same_text(action, "info") {
        Some(SchedulerAction::Info)
    } else {
        None
    }
}

/// What the user is told when a command or action is not available.
pub open spec fn retry_later_text() -> Seq<char> {
    "Please retry later. If you think it's an error contact the administrator of the server."@
}

/// The reply to an action word that names no action.
pub fn unknown_action_reply(action: &str) -> (r: EmbedText)
    ensures
        r.title@ == "Action  `"@ + action@ + "`  not implemented :("@,
        r.description@ == retry_later_text(),
        r.footer is None,
        r.author is None,
        r.tone == Tone::Error,
{
    EmbedText {
        title: sentence("Action  `", action, "`  not implemented :("),
        description: String::from_str(
            "Please retry later. If you think it's an error contact the administrator of the server.",
        ),
        footer: None,
        author: None,
        tone: Tone::Error,
    }
}

/// The slash commands of the bot.
#[derive(Clone, Copy, Debug, PartialEq, Eq, Structural)]
pub enum BotCommand {
    TipsList,
    TipsCreate,
    TipsRead,
    TipsUpdate,
    TipsDelete,
    SchedulerConfig,
    Scheduler,
}

/// The command that `name` names, if any.
pub open spec fn command_named(name: Seq<char>) -> Option<BotCommand> {
    if name == "tips_list"@ {
        Some(BotCommand::TipsList)
    } else if name == "tips_create"@ {
        Some(BotCommand::TipsCreate)
    } else if name == "tips_read"@ {
        Some(BotCommand::TipsRead)
    } else if name == "tips_update"@ {
        Some(BotCommand::TipsUpdate)
    } else if name == "tips_delete"@ {
        Some(BotCommand::TipsDelete)
    } else if name == "scheduler_config"@ {
        Some(BotCommand::SchedulerConfig)
    } else if name == "scheduler"@ {
        Some(BotCommand::Scheduler)
    } else {
        None
    }
}

/// Chooses the command to run for an interaction by its name.
pub fn route_command(name: &str) -> (r: Option<BotCommand>)
    ensures
        r == command_named(name@),
{
    if same_text(name, "tips_list") {
        Some(BotCommand::TipsList)
    } else if same_text(name, "tips_create") {
        Some(BotCommand::TipsCreate)
    } else if same_text(name, "tips_read") {
        Some(BotCommand::TipsRead)
    } else if same_text(name, "tips_update") {
        Some(BotCommand::TipsUpdate)
    } else if same_text(name, "tips_delete") {
        Some(BotCommand::TipsDelete)
    } else if same_text(name, "scheduler_config") {
        Some(BotCommand::SchedulerConfig)
    } else if same_text(name, "scheduler") {
        Some(BotCommand::Scheduler)
    } else {
        None
    }
}

/// The reply to a command that the bot does not know.
pub fn not_implemented_reply() -> (r: EmbedText)
    ensures
        r.title@ == "Not implemented :("@,
        r.description@ == retry_later_text(),
        r.footer is None,
        r.author is None,
        r.tone == Tone::Warning,
{
    EmbedText {
        title: String::from_str("Not implemented :("),
        description: String::from_str(
            "Please retry later. If you think it's an error contact the administrator of the server.",
        ),
        footer: None,
        author: None,
        tone: Tone::Warning,
    }
}

/// The text of a plain message that asks whether the bot is alive.
pub fn is_ping(content: &str) -> (r: bool)
    ensures
        r == (content@ == "!ping"@),
{
    same_text(content, "!ping")
}

} // verus!
