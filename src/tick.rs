//! One tick of the background loop: whether to post now, and what to post.
//!
//! The loop wakes once a minute. When the local time matches the configured
//! hour and minute it fetches every tip, picks one at random and posts it to
//! the configured channel. A failed fetch, an empty tip set or a failed post is
//! reported to the same channel; none of them stops the loop.

use vstd::prelude::*;
use vstd::string::*;
use chrono::Timelike;
use rand::Rng;
use crate::config::{SchedulerConfig, HOURS_PER_DAY, MINUTES_PER_HOUR};
use crate::text::{
    EmbedText, copy_text, display_full_tip_in_embed, make_error_embed, is_full_tip_embed,
    is_error_embed,
};

verus! {

/// A stored tip as fetched for posting.
pub struct Tip {
    pub title: String,
    pub content: String,
    pub tags: String,
}

/// What the loop does after waking.
#[derive(Clone, Copy, Debug, PartialEq, Eq, Structural)]
pub enum TickAction {
    /// Not the configured minute: sleep until the next tick.
    Wait,
    /// The configured minute: fetch the tips and post one.
    FetchTips,
}

/// Whether a message posts a tip or reports a failure.
#[derive(Clone, Copy, Debug, PartialEq, Eq, Structural)]
pub enum DeliveryKind {
    Tip,
    Diagnostic,
}

/// A message to post and the channel to post it to.
pub struct Delivery {
    pub channel: u64,
    pub embed: EmbedText,
    pub kind: DeliveryKind,
}

/// The loop posts at local time `hour:minute`.
pub open spec fn fires_at(config: SchedulerConfig, hour: u32, minute: u32) -> bool {
    hour == config.hour && minute == config.minute
}

/// The action of a tick at local time `hour:minute`.
pub open spec fn tick_action(config: SchedulerConfig, hour: u32, minute: u32) -> TickAction {
    if fires_at(config, hour, minute) {
        TickAction::FetchTips
    } else {
        TickAction::Wait
    }
}

/// Where every report of the loop says it comes from.
pub open spec fn loop_source() -> Seq<char> {
    "scheduler::run"@
}

/// The report of a failed fetch.
pub open spec fn fetch_failure_text(err: Seq<char>) -> Seq<char> {
    "Failed to get the list of tips title. Error:\n"@ + err
}

/// The report of a fetch that found no tip.
pub open spec fn empty_tip_set_text() -> Seq<char> {
    "No tip is stored yet: create one to have it posted."@
}

/// The report of a post that failed.
pub open spec fn delivery_failure_text(err: Seq<char>) -> Seq<char> {
    "Failed to send embed message. Error:\n"@ + err
}

/// `d` posts `tip` to the configured channel.
pub open spec fn is_tip_delivery(d: Delivery, config: SchedulerConfig, tip: Tip) -> bool {
    &&& d.channel == config.channel
    &&& d.kind == DeliveryKind::Tip
    &&& is_full_tip_embed(d.embed, tip.title@, tip.content@, tip.tags@)
}

/// `d` reports `text` to the configured channel.
pub open spec fn is_diagnostic(d: Delivery, config: SchedulerConfig, text: Seq<char>) -> bool {
    &&& d.channel == config.channel
    &&& d.kind == DeliveryKind::Diagnostic
    &&& is_error_embed(d.embed, loop_source(), text)
}

/// `d` is what a firing posts for the fetch result `fetched` when the random
/// draw is `index`.
pub open spec fn is_planned_delivery(
    d: Delivery,
    config: SchedulerConfig,
    fetched: Result<Vec<Tip>, String>,
    index: int,
) -> bool {
    match fetched {
        Err(e) => is_diagnostic(d, config, fetch_failure_text(e@)),
        Ok(tips) => if tips@.len() == 0 {
            is_diagnostic(d, config, empty_tip_set_text())
        } else {
            0 <= index < tips@.len() && is_tip_delivery(d, config, tips@[index])
        },
    }
}

/// The messages a tick sends, given the one its firing would post.
pub open spec fn tick_deliveries(action: TickAction, planned: Delivery) -> Seq<Delivery> {
    match action {
        TickAction::Wait => Seq::empty(),
        TickAction::FetchTips => seq![planned],
    }
}

/// Decides a tick at local time `hour:minute`.
pub fn on_tick(config: &SchedulerConfig, hour: u32, minute: u32) -> (r: TickAction)
    ensures
        r == tick_action(*config, hour, minute),
{
    if hour == config.hour && minute == config.minute {
        TickAction::FetchTips
    } else {
        TickAction::Wait
    }
}

/// Relies on chrono's `Local::now()` with `Timelike::hour` (0 to 23) and
/// `Timelike::minute` (0 to 59): the local time of day. chrono panics only when
/// the machine's time-zone data cannot be read into a valid offset.
#[verifier::external_body]
fn local_hour_minute() -> (r: (u32, u32))
    ensures
        r.0 < HOURS_PER_DAY,
        r.1 < MINUTES_PER_HOUR,
{
    let now = chrono::Local::now();
    (now.hour(), now.minute())
}

/// Decides a tick at the current local time.
pub fn check_clock(config: &SchedulerConfig) -> (r: TickAction)
    ensures
        r == TickAction::FetchTips ==> config.is_valid(),
{
    let (hour, minute) = local_hour_minute();
    on_tick(config, hour, minute)
}

/// Relies on rand's `thread_rng().gen_range(0..n)`: an index below `n`, for a
/// positive `n` (the range must not be empty). rand panics only when the
/// operating system cannot seed its generator.
#[verifier::external_body]
fn random_index(n: usize) -> (r: usize)
    requires
        n > 0,
    ensures
        r < n,
{
    rand::thread_rng().gen_range(0..n)
}

fn diagnostic(config: &SchedulerConfig, text: String) -> (d: Delivery)
    ensures
        is_diagnostic(d, *config, text@),
{
    proof {
        reveal_strlit("scheduler::run");
    }
    Delivery {
        channel: config.channel,
        embed: make_error_embed("scheduler::run", text),
        kind: DeliveryKind::Diagnostic,
    }
}

/// What a firing posts, given the fetch result and the random draw `index`.
pub fn plan_delivery(config: &SchedulerConfig, fetched: &Result<Vec<Tip>, String>, index: usize) -> (d:
    Delivery)
    requires
        fetched is Ok && fetched->Ok_0@.len() > 0 ==> index < fetched->Ok_0@.len(),
    ensures
        is_planned_delivery(d, *config, *fetched, index as int),
{
    match fetched {
        Err(e) => {
            let mut text = String::from_str("Failed to get the list of tips title. Error:\n");
            text.append(e.as_str());
            diagnostic(config, text)
        },
        Ok(tips) => {
            if tips.len() == 0 {
                diagnostic(
                    config,
                    String::from_str("No tip is stored yet: create one to have it posted."),
                )
            } else {
                let tip = &tips[index];
                Delivery {
                    channel: config.channel,
                    embed: display_full_tip_in_embed(
                        copy_text(&tip.title),
                        copy_text(&tip.content),
                        Some(copy_text(&tip.tags)),
                    ),
                    kind: DeliveryKind::Tip,
                }
            }
        },
    }
}

/// What a firing posts: a tip drawn uniformly at random, or a report.
pub fn fire(config: &SchedulerConfig, fetched: &Result<Vec<Tip>, String>) -> (d: Delivery)
    ensures
        exists|index: int| is_planned_delivery(d, *config, *fetched, index),
{
    let index: usize = match fetched {
        Ok(tips) => if tips.len() > 0 {
            random_index(tips.len())
        } else {
            0
        },
        Err(_) => 0,
    };
    let d = plan_delivery(config, fetched, index);
    assert(is_planned_delivery(d, *config, *fetched, index as int));
    d
}

/// What to do when posting `failed` did not succeed.
///
/// A failed tip is reported to the same channel; a failed report is only
/// logged by the caller, so nothing more is posted.
pub fn on_delivery_failed(config: &SchedulerConfig, failed: &Delivery, err: String) -> (r: Option<
    Delivery,
>)
    ensures
        failed.kind == DeliveryKind::Diagnostic ==> r is None,
        failed.kind == DeliveryKind::Tip ==> r is Some && is_diagnostic(
            r->Some_0,
            *config,
            delivery_failure_text(err@),
        ),
{
    match failed.kind {
        DeliveryKind::Diagnostic => None,
        DeliveryKind::Tip => {
            let mut text = String::from_str("Failed to send embed message. Error:\n");
            text.append(err.as_str());
            Some(diagnostic(config, text))
        },
    }
}

} // verus!
