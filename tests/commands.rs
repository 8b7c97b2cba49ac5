use tips_bot::commands::{
    config_update_from_options, get_optional_string_param_from_options,
    get_required_string_param_from_options, is_ping, not_implemented_reply, parse_action,
    route_command, unknown_action_reply, BotCommand, CommandOption, OptionValue, SchedulerAction,
};
use tips_bot::config::ConfigUpdate;
use tips_bot::logging::{is_printed, level_from_name, LogLevel};
use tips_bot::text::Tone;

fn text(name: &str, value: &str) -> CommandOption {
    CommandOption { name: name.to_string(), value: Some(OptionValue::Text(value.to_string())) }
}

#[test]
fn required_string_is_read() {
    let opts = vec![text("action", "start")];
    assert_eq!(get_required_string_param_from_options(&opts, 0, "action"), Ok("start".to_string()));
}

#[test]
fn required_string_missing() {
    let opts = vec![text("action", "start")];
    assert_eq!(
        get_required_string_param_from_options(&opts, 1, "title"),
        Err("Missing parameter title.".to_string())
    );
    let opts = vec![CommandOption { name: "action".to_string(), value: None }];
    assert_eq!(
        get_required_string_param_from_options(&opts, 0, "action"),
        Err("Missing parameter action.".to_string())
    );
}

#[test]
fn required_string_of_wrong_kind() {
    let opts = vec![CommandOption { name: "id".to_string(), value: Some(OptionValue::Integer(3)) }];
    assert_eq!(
        get_required_string_param_from_options(&opts, 0, "id"),
        Err("Incorrect type for the parameter id.".to_string())
    );
}

#[test]
fn optional_string_defaults_to_empty() {
    let opts = vec![
        text("tags", "rust"),
        CommandOption { name: "n".to_string(), value: Some(OptionValue::Integer(1)) },
    ];
    assert_eq!(get_optional_string_param_from_options(&opts, 0), "rust");
    assert_eq!(get_optional_string_param_from_options(&opts, 1), "");
    assert_eq!(get_optional_string_param_from_options(&opts, 5), "");
}

#[test]
fn config_options_give_an_update() {
    let opts = vec![
        CommandOption { name: "message_chanel".to_string(), value: Some(OptionValue::Channel(42)) },
        text("hour", "09:30"),
        text("other", "ignored"),
    ];
    assert_eq!(
        config_update_from_options(&opts),
        Ok(ConfigUpdate { channel: Some(42), hour: Some(9), minute: Some(30) })
    );
    assert_eq!(
        config_update_from_options(&[]),
        Ok(ConfigUpdate { channel: None, hour: None, minute: None })
    );
}

#[test]
fn config_options_report_the_first_error() {
    let opts = vec![
        text("hour", "9h30"),
        CommandOption { name: "message_chanel".to_string(), value: None },
    ];
    assert_eq!(
        config_update_from_options(&opts),
        Err("The parameter hour given has a bad format.\nExpected a string with the following format: HH:mm.".to_string())
    );
    let opts = vec![CommandOption { name: "message_chanel".to_string(), value: None }];
    assert_eq!(
        config_update_from_options(&opts),
        Err("The parameter message_chanel is empty.\nExpected an integer.".to_string())
    );
    let opts = vec![text("message_chanel", "general")];
    assert_eq!(
        config_update_from_options(&opts),
        Err("The parameter message_chanel given has a bad format.\nIt must be an integer.".to_string())
    );
    let opts = vec![text("hour", "25:00")];
    assert_eq!(
        config_update_from_options(&opts),
        Err("The parameter hour is out of range.\nExpected an hour from 00 to 23 and a minute from 00 to 59.".to_string())
    );
    let opts = vec![CommandOption { name: "hour".to_string(), value: Some(OptionValue::Integer(9)) }];
    assert_eq!(
        config_update_from_options(&opts),
        Err("The parameter hour given has a bad format.\nExpected a string.".to_string())
    );
}

#[test]
fn actions_are_read_by_name() {
    assert_eq!(parse_action("start"), Some(SchedulerAction::Start));
    assert_eq!(parse_action("stop"), Some(SchedulerAction::Stop));
    assert_eq!(parse_action("info"), Some(SchedulerAction::Info));
    assert_eq!(parse_action("Start"), None);
    assert_eq!(parse_action(""), None);
}

#[test]
fn unknown_action_reply_names_it() {
    let e = unknown_action_reply("pause");
    assert_eq!(e.title, "Action  `pause`  not implemented :(");
    assert_eq!(
        e.description,
        "Please retry later. If you think it's an error contact the administrator of the server."
    );
    assert_eq!(e.tone, Tone::Error);
}

#[test]
fn commands_are_routed_by_name() {
    assert_eq!(route_command("tips_list"), Some(BotCommand::TipsList));
    assert_eq!(route_command("tips_create"), Some(BotCommand::TipsCreate));
    assert_eq!(route_command("tips_read"), Some(BotCommand::TipsRead));
    assert_eq!(route_command("tips_update"), Some(BotCommand::TipsUpdate));
    assert_eq!(route_command("tips_delete"), Some(BotCommand::TipsDelete));
    assert_eq!(route_command("scheduler_config"), Some(BotCommand::SchedulerConfig));
    assert_eq!(route_command("scheduler"), Some(BotCommand::Scheduler));
    assert_eq!(route_command("schedule"), None);
    assert_eq!(not_implemented_reply().title, "Not implemented :(");
    assert_eq!(not_implemented_reply().tone, Tone::Warning);
}

#[test]
fn ping_is_exact() {
    assert!(is_ping("!ping"));
    assert!(!is_ping("!ping "));
    assert!(!is_ping("ping"));
}

#[test]
fn log_levels_by_name() {
    assert_eq!(level_from_name("Off"), LogLevel::Off);
    assert_eq!(level_from_name("Trace"), LogLevel::Trace);
    assert_eq!(level_from_name("Debug"), LogLevel::Debug);
    assert_eq!(level_from_name("Info"), LogLevel::Info);
    assert_eq!(level_from_name("Warn"), LogLevel::Warn);
    assert_eq!(level_from_name("Error"), LogLevel::Error);
    assert_eq!(level_from_name("verbose"), LogLevel::Info);
    assert!(is_printed(LogLevel::Warn));
    assert!(!is_printed(LogLevel::Debug));
}
