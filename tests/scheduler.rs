use tips_bot::config::{
    merge_config, parse_time_of_day, ConfigUpdate, SchedulerConfig, SchedulerError, ValidationError,
};
use tips_bot::task::{apply_reconfiguration, start, status, stop, Status, TaskCell};
use tips_bot::tick::{
    check_clock, fire, on_delivery_failed, on_tick, plan_delivery, DeliveryKind, TickAction, Tip,
};
use tips_bot::text::Tone;

fn cfg(channel: u64, hour: u32, minute: u32) -> SchedulerConfig {
    SchedulerConfig { channel, hour, minute }
}

fn tip(title: &str, content: &str, tags: &str) -> Tip {
    Tip { title: title.to_string(), content: content.to_string(), tags: tags.to_string() }
}

#[test]
fn stop_when_nothing_runs_changes_nothing() {
    let mut cell: TaskCell<u32> = TaskCell::new();
    assert_eq!(stop(&mut cell), None);
    assert!(!cell.is_running());
    assert_eq!(stop(&mut cell), None);
    assert!(!cell.is_running());
    assert_eq!(cell.running_config(), None);
}

#[test]
fn stop_returns_the_running_handle_once() {
    let mut cell: TaskCell<u32> = TaskCell::new();
    assert_eq!(start(&mut cell, Ok(Some(cfg(1, 2, 3))), |_c| 11u32), Ok(cfg(1, 2, 3)));
    assert_eq!(stop(&mut cell), Some(11));
    assert_eq!(stop(&mut cell), None);
    assert!(!cell.is_running());
}

#[test]
fn start_without_configuration_is_not_configured() {
    let mut cell: TaskCell<u32> = TaskCell::new();
    let mut spawned = 0;
    let r = start(&mut cell, Ok(None), |_c| {
        spawned += 1;
        5u32
    });
    assert_eq!(r, Err(SchedulerError::NotConfigured));
    assert!(!cell.is_running());
    assert_eq!(spawned, 0);
}

#[test]
fn start_store_failure_is_reported() {
    let mut cell: TaskCell<u32> = TaskCell::new();
    let r = start(&mut cell, Err("disk".to_string()), |_c| 5u32);
    assert_eq!(r, Err(SchedulerError::Store("disk".to_string())));
    assert!(!cell.is_running());
}

#[test]
fn start_captures_the_stored_configuration() {
    let mut cell: TaskCell<u32> = TaskCell::new();
    let mut seen = None;
    let r = start(&mut cell, Ok(Some(cfg(42, 9, 30))), |c| {
        seen = Some(c);
        1u32
    });
    assert_eq!(r, Ok(cfg(42, 9, 30)));
    assert_eq!(seen, Some(cfg(42, 9, 30)));
    assert!(cell.is_running());
    assert_eq!(cell.running_config(), Some(cfg(42, 9, 30)));
}

#[test]
fn reconfigure_restarts_a_running_scheduler() {
    let mut cell: TaskCell<u32> = TaskCell::new();
    start(&mut cell, Ok(Some(cfg(42, 8, 0)))
        , |_c| 1u32).unwrap();
    let merged = merge_config(
        Some(cfg(42, 8, 0)),
        ConfigUpdate { channel: None, hour: Some(9), minute: Some(30) },
    )
    .unwrap();
    let r = apply_reconfiguration(&mut cell, Ok(Some(merged)), |_c| 2u32).unwrap();
    assert!(r.restarted);
    assert_eq!(r.stopped, Some(1));
    assert_eq!(r.config, cfg(42, 9, 30));
    assert_eq!(cell.running_config(), Some(cfg(42, 9, 30)));
    assert_eq!(stop(&mut cell), Some(2));
}

#[test]
fn reconfigure_leaves_a_stopped_scheduler_stopped() {
    let mut cell: TaskCell<u32> = TaskCell::new();
    let mut spawned = 0;
    let r = apply_reconfiguration(&mut cell, Ok(Some(cfg(7, 10, 15))), |_c| {
        spawned += 1;
        3u32
    })
    .unwrap();
    assert!(!r.restarted);
    assert_eq!(r.stopped, None);
    assert_eq!(r.config, cfg(7, 10, 15));
    assert!(!cell.is_running());
    assert_eq!(spawned, 0);
}

#[test]
fn reconfigure_read_failure_leaves_the_loop() {
    let mut cell: TaskCell<u32> = TaskCell::new();
    start(&mut cell, Ok(Some(cfg(1, 1, 1))), |_c| 4u32).unwrap();
    let r = apply_reconfiguration(&mut cell, Err("locked".to_string()), |_c| 5u32);
    assert!(matches!(r, Err(SchedulerError::Store(_))));
    assert_eq!(cell.running_config(), Some(cfg(1, 1, 1)));
}

#[test]
fn merge_keeps_untouched_fields() {
    let r = merge_config(
        Some(cfg(42, 8, 0)),
        ConfigUpdate { channel: None, hour: Some(9), minute: Some(30) },
    );
    assert_eq!(r, Ok(cfg(42, 9, 30)));
    let r = merge_config(
        Some(cfg(42, 8, 0)),
        ConfigUpdate { channel: Some(7), hour: None, minute: None },
    );
    assert_eq!(r, Ok(cfg(7, 8, 0)));
}

#[test]
fn first_configuration_without_channel_is_refused() {
    let r = merge_config(None, ConfigUpdate { channel: None, hour: Some(9), minute: Some(30) });
    assert_eq!(r, Err(SchedulerError::Validation(ValidationError::MissingFields)));
}

#[test]
fn first_configuration_with_every_field() {
    let r = merge_config(None, ConfigUpdate { channel: Some(5), hour: Some(23), minute: Some(59) });
    assert_eq!(r, Ok(cfg(5, 23, 59)));
}

#[test]
fn merge_refuses_out_of_range_times() {
    let r = merge_config(Some(cfg(1, 8, 0)), ConfigUpdate { channel: None, hour: Some(24), minute: None });
    assert_eq!(r, Err(SchedulerError::Validation(ValidationError::HourOutOfRange)));
    let r = merge_config(Some(cfg(1, 8, 0)), ConfigUpdate { channel: None, hour: None, minute: Some(60) });
    assert_eq!(r, Err(SchedulerError::Validation(ValidationError::MinuteOutOfRange)));
}

#[test]
fn parse_time_of_day_reads_hours_and_minutes() {
    assert_eq!(parse_time_of_day("09:30"), Ok((9, 30)));
    assert_eq!(parse_time_of_day("0:0"), Ok((0, 0)));
    assert_eq!(parse_time_of_day("23:59"), Ok((23, 59)));
    assert_eq!(parse_time_of_day("0009:05"), Ok((9, 5)));
}

#[test]
fn parse_time_of_day_refuses_bad_text() {
    let malformed = Err(SchedulerError::Validation(ValidationError::MalformedTime));
    assert_eq!(parse_time_of_day(""), malformed);
    assert_eq!(parse_time_of_day("930"), malformed);
    assert_eq!(parse_time_of_day(":30"), malformed);
    assert_eq!(parse_time_of_day("9:"), malformed);
    assert_eq!(parse_time_of_day("9:30:00"), malformed);
    assert_eq!(parse_time_of_day("a9:30"), malformed);
    assert_eq!(parse_time_of_day("-1:30"), malformed);
}

#[test]
fn parse_time_of_day_refuses_out_of_range() {
    assert_eq!(
        parse_time_of_day("24:00"),
        Err(SchedulerError::Validation(ValidationError::HourOutOfRange))
    );
    assert_eq!(
        parse_time_of_day("99999999999999999999:00"),
        Err(SchedulerError::Validation(ValidationError::HourOutOfRange))
    );
    assert_eq!(
        parse_time_of_day("12:60"),
        Err(SchedulerError::Validation(ValidationError::MinuteOutOfRange))
    );
}

#[test]
fn status_reports_configuration_and_running() {
    let mut cell: TaskCell<u32> = TaskCell::new();
    assert_eq!(
        status(&cell, Ok(Some(cfg(3, 4, 5)))),
        Ok(Status { config: cfg(3, 4, 5), running: false })
    );
    start(&mut cell, Ok(Some(cfg(3, 4, 5))), |_c| 9u32).unwrap();
    assert_eq!(
        status(&cell, Ok(Some(cfg(3, 4, 5)))),
        Ok(Status { config: cfg(3, 4, 5), running: true })
    );
    assert_eq!(status(&cell, Ok(None)), Err(SchedulerError::NotConfigured));
}

#[test]
fn start_then_stop_leaves_scheduler_stopped() {
    let mut cell: TaskCell<u32> = TaskCell::new();
    start(&mut cell, Ok(Some(cfg(3, 4, 5))), |_c| 9u32).unwrap();
    assert_eq!(stop(&mut cell), Some(9));
    assert_eq!(
        status(&cell, Ok(Some(cfg(3, 4, 5)))),
        Ok(Status { config: cfg(3, 4, 5), running: false })
    );
    start(&mut cell, Ok(Some(cfg(3, 4, 5))), |_c| 10u32).unwrap();
    assert!(cell.is_running());
}

#[test]
fn tick_fires_only_in_the_configured_minute() {
    let c = cfg(42, 9, 30);
    assert_eq!(on_tick(&c, 9, 30), TickAction::FetchTips);
    assert_eq!(on_tick(&c, 9, 31), TickAction::Wait);
    assert_eq!(on_tick(&c, 9, 29), TickAction::Wait);
    assert_eq!(on_tick(&c, 10, 30), TickAction::Wait);
    assert_eq!(on_tick(&c, 21, 30), TickAction::Wait);
}

#[test]
fn clock_never_matches_an_impossible_time() {
    assert_eq!(check_clock(&cfg(1, 99, 0)), TickAction::Wait);
    assert_eq!(check_clock(&cfg(1, 0, 99)), TickAction::Wait);
}

#[test]
fn firing_with_one_tip_posts_it_to_the_channel() {
    let c = cfg(42, 9, 30);
    let d = fire(&c, &Ok(vec![tip("Borrowing", "Use &mut once.", "rust")]));
    assert_eq!(d.channel, 42);
    assert_eq!(d.kind, DeliveryKind::Tip);
    assert_eq!(d.embed.title, "Borrowing");
    assert_eq!(d.embed.description, "Use &mut once.");
    assert_eq!(d.embed.footer, Some("#: rust".to_string()));
    assert_eq!(d.embed.tone, Tone::Info);
}

#[test]
fn firing_draws_among_the_stored_tips() {
    let c = cfg(8, 1, 2);
    let tips = vec![tip("a", "1", ""), tip("b", "2", ""), tip("c", "3", "")];
    for _ in 0..50 {
        let d = fire(&c, &Ok(tips.iter().map(|t| tip(&t.title, &t.content, &t.tags)).collect()));
        assert!(["a", "b", "c"].contains(&d.embed.title.as_str()));
        assert_eq!(d.embed.footer, None);
    }
}

#[test]
fn plan_delivery_uses_the_drawn_index() {
    let c = cfg(8, 1, 2);
    let tips = vec![tip("a", "1", ""), tip("b", "2", "x,y")];
    let d = plan_delivery(&c, &Ok(tips), 1);
    assert_eq!(d.embed.title, "b");
    assert_eq!(d.embed.footer, Some("#: x,y".to_string()));
}

#[test]
fn firing_with_no_tip_reports_to_the_channel() {
    let c = cfg(42, 9, 30);
    let mut cell: TaskCell<u32> = TaskCell::new();
    start(&mut cell, Ok(Some(c)), |_c| 1u32).unwrap();
    let d = fire(&c, &Ok(vec![]));
    assert_eq!(d.channel, 42);
    assert_eq!(d.kind, DeliveryKind::Diagnostic);
    assert_eq!(d.embed.tone, Tone::Error);
    assert_eq!(
        d.embed.description,
        "From scheduler::run, error:\nNo tip is stored yet: create one to have it posted."
    );
    assert!(cell.is_running());
    assert_eq!(status(&cell, Ok(Some(c))).unwrap().running, true);
}

#[test]
fn failed_fetch_is_reported_to_the_channel() {
    let c = cfg(42, 9, 30);
    let d = fire(&c, &Err("no such table".to_string()));
    assert_eq!(d.channel, 42);
    assert_eq!(d.kind, DeliveryKind::Diagnostic);
    assert_eq!(
        d.embed.description,
        "From scheduler::run, error:\nFailed to get the list of tips title. Error:\nno such table"
    );
}

#[test]
fn failed_tip_post_is_reported_once() {
    let c = cfg(42, 9, 30);
    let d = fire(&c, &Ok(vec![tip("t", "c", "")]));
    let report = on_delivery_failed(&c, &d, "timeout".to_string()).unwrap();
    assert_eq!(report.channel, 42);
    assert_eq!(report.kind, DeliveryKind::Diagnostic);
    assert_eq!(
        report.embed.description,
        "From scheduler::run, error:\nFailed to send embed message. Error:\ntimeout"
    );
    assert!(on_delivery_failed(&c, &report, "timeout".to_string()).is_none());
}
