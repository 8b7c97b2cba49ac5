//! The replies of the scheduler commands.

use vstd::prelude::*;
use vstd::string::*;
use crate::config::SchedulerConfig;
use crate::task::Status;
use crate::text::{
    EmbedText, Tone, two_digits, channel_mention, push_decimal, push_two_digits,
};

verus! {

/// The lines that show a configuration: its channel and its time of day.
pub open spec fn config_summary_text(c: SchedulerConfig) -> Seq<char> {
    "- Channel : "@ + channel_mention(c.channel as nat) + "\n- Hour:"@ + two_digits(c.hour as nat)
        + "H"@ + two_digits(c.minute as nat)
}

/// The lines that show a configuration.
pub fn config_summary(c: &SchedulerConfig) -> (r: String)
    ensures
        r@ == config_summary_text(*c),
{
    let mut out = String::from_str("- Channel : <#");
    push_decimal(&mut out, c.channel);
    out.append(">\n- Hour:");
    push_two_digits(&mut out, c.hour as u64);
    out.append("H");
    push_two_digits(&mut out, c.minute as u64);
    proof {
        reveal_strlit("- Channel : <#");
        reveal_strlit("- Channel : ");
        reveal_strlit("<#");
        reveal_strlit(">\n- Hour:");
        reveal_strlit(">");
        reveal_strlit("\n- Hour:");
    }
    assert(out@ =~= config_summary_text(*c));
    out
}

/// A reply that shows information, with no footer and no author line.
pub open spec fn is_info_reply(e: EmbedText, title: Seq<char>, description: Seq<char>) -> bool {
    &&& e.title@ == title
    &&& e.description@ == description
    &&& e.footer is None
    &&& e.author is None
    &&& e.tone == Tone::Info
}

/// The reply to a successful start.
pub fn running_reply(c: &SchedulerConfig) -> (r: EmbedText)
    ensures
        is_info_reply(r, "Scheduler is now running:"@, config_summary_text(*c)),
{
    EmbedText {
        title: String::from_str("Scheduler is now running:"),
        description: config_summary(c),
        footer: None,
        author: None,
        tone: Tone::Info,
    }
}

/// The word that shows whether the loop runs.
pub open spec fn running_word(running: bool) -> Seq<char> {
    if running {
        "RUNNING"@
    } else {
        "STOPPED"@
    }
}

/// The lines that show a status.
pub open spec fn status_text(s: Status) -> Seq<char> {
    config_summary_text(s.config) + "\n- Scheduler :"@ + running_word(s.running)
}

fn status_lines(s: &Status) -> (r: String)
    ensures
        r@ == status_text(*s),
{
    let mut out = config_summary(&s.config);
    out.append("\n- Scheduler :");
    if s.running {
        out.append("RUNNING");
    } else {
        out.append("STOPPED");
    }
    out
}

/// The reply to a status query.
pub fn status_reply(s: &Status) -> (r: EmbedText)
    ensures
        is_info_reply(r, "He is the current configuration of the tips scheduler :"@, status_text(*s)),
{
    EmbedText {
        title: String::from_str("He is the current configuration of the tips scheduler :"),
        description: status_lines(s),
        footer: None,
        author: None,
        tone: Tone::Info,
    }
}

/// The reply to a stop: the status under another title.
pub fn stopped_reply(s: &Status) -> (r: EmbedText)
    ensures
        is_info_reply(r, "Scheduler is now stopped"@, status_text(*s)),
{
    EmbedText {
        title: String::from_str("Scheduler is now stopped"),
        description: status_lines(s),
        footer: None,
        author: None,
        tone: Tone::Info,
    }
}

/// The reply to a reconfiguration; it says so when the loop was restarted.
pub fn reconfigured_reply(c: &SchedulerConfig, restarted: bool) -> (r: EmbedText)
    ensures
        r.title@ == "Here is the new config of the tips scheduler :"@,
        r.description@ == config_summary_text(*c),
        r.footer is None,
        r.tone == Tone::Info,
        restarted ==> r.author is Some && r.author->Some_0@
            == "Scheduler has been restarted to sync with the new configuration"@,
        !restarted ==> r.author is None,
{
    let author = if restarted {
        Some(String::from_str("Scheduler has been restarted to sync with the new configuration"))
    } else {
        None
    };
    EmbedText {
        title: String::from_str("Here is the new config of the tips scheduler :"),
        description: config_summary(c),
        footer: None,
        author,
        tone: Tone::Info,
    }
}

/// The scheduler command whose request met no stored configuration.
#[derive(Clone, Copy, Debug, PartialEq, Eq, Structural)]
pub enum ConfigNeededBy {
    Start,
    Info,
    Configure,
}

/// What the user is told to do when no configuration is stored.
pub open spec fn not_configured_hint(by: ConfigNeededBy) -> Seq<char> {
    match by {
        ConfigNeededBy::Start => "Use the command  `/scheduler_config`  and fulfill all parameters before running the scheduler."@,
        ConfigNeededBy::Info => "Use the command  `/scheduler_config`  and fulfill all parameters."@,
        ConfigNeededBy::Configure => "For the first time you set the config, you need to provide every arguments (channel and hour)."@,
    }
}

/// The reply when no configuration is stored.
pub fn not_configured_reply(by: ConfigNeededBy) -> (r: EmbedText)
    ensures
        r.title@ == "Config not initialised !"@,
        r.description@ == not_configured_hint(by),
        r.footer is None,
        r.author is None,
        r.tone == Tone::Error,
{
    let description = match by {
        ConfigNeededBy::Start => String::from_str(
            "Use the command  `/scheduler_config`  and fulfill all parameters before running the scheduler.",
        ),
        ConfigNeededBy::Info => String::from_str(
            "Use the command  `/scheduler_config`  and fulfill all parameters.",
        ),
        ConfigNeededBy::Configure => String::from_str(
            "For the first time you set the config, you need to provide every arguments (channel and hour).",
        ),
    };
    EmbedText {
        title: String::from_str("Config not initialised !"),
        description,
        footer: None,
        author: None,
        tone: Tone::Error,
    }
}

} // verus!
