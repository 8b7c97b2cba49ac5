//! Properties of the scheduler that hold across calls, proved from the
//! contracts of the functions they speak of.

use vstd::prelude::*;
use crate::config::{
    SchedulerConfig, ConfigUpdate, SchedulerError, ValidationError, merged_config,
};
use crate::task::{
    RunningTask, Reconfigured, Status, StoreRead, stop_post, start_post, status_of,
    reconfigure_post,
};
use crate::tick::{
    Tip, Delivery, DeliveryKind, is_planned_delivery, tick_action, tick_deliveries,
};

verus! {

/// Stopping when nothing runs changes nothing and cancels nothing; a second
/// stop right after a first one changes nothing either.
pub proof fn stop_is_idempotent<H>(
    before: Option<RunningTask<H>>,
    first: Option<H>,
    mid: Option<RunningTask<H>>,
    second: Option<H>,
    after: Option<RunningTask<H>>,
)
    requires
        stop_post(before, first, mid),
        stop_post(mid, second, after),
    ensures
        before is None ==> mid == before && first is None,
        second is None,
        after == mid,
{
}

/// Starting without a stored configuration reports `NotConfigured` and
/// installs no handle.
pub proof fn start_requires_configuration<H>(
    before: Option<RunningTask<H>>,
    r: Result<SchedulerConfig, SchedulerError>,
    after: Option<RunningTask<H>>,
)
    requires
        start_post(before, Ok(None), r, after),
    ensures
        r == Err::<SchedulerConfig, SchedulerError>(SchedulerError::NotConfigured),
        after == before,
{
}

/// A reconfiguration whose merged record was stored restarts the loop exactly
/// when one was running, and the new loop captures that record; a stopped
/// scheduler stays stopped.
pub proof fn reconfigure_restarts_only_if_running<H>(
    before: Option<RunningTask<H>>,
    existing: Option<SchedulerConfig>,
    update: ConfigUpdate,
    r: Result<Reconfigured<H>, SchedulerError>,
    after: Option<RunningTask<H>>,
)
    requires
        merged_config(existing, update) is Ok,
        reconfigure_post(before, Ok(Some(merged_config(existing, update)->Ok_0)), r, after),
    ensures
        r is Ok,
        r->Ok_0.config == merged_config(existing, update)->Ok_0,
        r->Ok_0.restarted <==> before is Some,
        before is Some ==> after is Some && after->Some_0.config == merged_config(
            existing,
            update,
        )->Ok_0,
        before is None ==> after is None && r->Ok_0.stopped is None,
{
}

/// Fields that an update leaves out keep their stored values exactly.
pub proof fn merge_keeps_untouched_fields(existing: SchedulerConfig, update: ConfigUpdate)
    requires
        merged_config(Some(existing), update) is Ok,
    ensures
        update.channel is None ==> merged_config(Some(existing), update)->Ok_0.channel
            == existing.channel,
        update.hour is None ==> merged_config(Some(existing), update)->Ok_0.hour == existing.hour,
        update.minute is None ==> merged_config(Some(existing), update)->Ok_0.minute
            == existing.minute,
        update.channel is Some ==> merged_config(Some(existing), update)->Ok_0.channel
            == update.channel->Some_0,
        update.hour is Some ==> merged_config(Some(existing), update)->Ok_0.hour
            == update.hour->Some_0,
        update.minute is Some ==> merged_config(Some(existing), update)->Ok_0.minute
            == update.minute->Some_0,
{
}

/// With nothing stored, an update that leaves out a field is refused, so
/// nothing is written.
pub proof fn first_configuration_needs_every_field(update: ConfigUpdate)
    requires
        update.channel is None || update.hour is None || update.minute is None,
    ensures
        merged_config(None, update) == Err::<SchedulerConfig, SchedulerError>(
            SchedulerError::Validation(ValidationError::MissingFields),
        ),
{
}

/// With at least one tip stored, a tick sends exactly one tip to the
/// configured channel in the configured minute and nothing in any other.
pub proof fn one_tip_in_the_configured_minute(
    config: SchedulerConfig,
    hour: u32,
    minute: u32,
    fetched: Result<Vec<Tip>, String>,
    index: int,
    planned: Delivery,
)
    requires
        fetched is Ok,
        fetched->Ok_0@.len() >= 1,
        is_planned_delivery(planned, config, fetched, index),
    ensures
        tick_deliveries(tick_action(config, hour, minute), planned).len() == if hour == config.hour
            && minute == config.minute {
            1int
        } else {
            0int
        },
        forall|i: int|
            0 <= i < tick_deliveries(tick_action(config, hour, minute), planned).len() ==> {
                &&& (#[trigger] tick_deliveries(tick_action(config, hour, minute), planned)[i]).channel
                    == config.channel
                &&& tick_deliveries(tick_action(config, hour, minute), planned)[i].kind
                    == DeliveryKind::Tip
            },
{
}

/// With no tip stored, a firing posts a report to the configured channel, and
/// a running loop still shows as running: a firing never touches the cell.
pub proof fn empty_tip_set_is_reported<H>(
    config: SchedulerConfig,
    fetched: Result<Vec<Tip>, String>,
    index: int,
    planned: Delivery,
    task: Option<RunningTask<H>>,
)
    requires
        fetched is Ok,
        fetched->Ok_0@.len() == 0,
        is_planned_delivery(planned, config, fetched, index),
        task is Some,
    ensures
        planned.channel == config.channel,
        planned.kind == DeliveryKind::Diagnostic,
        status_of(Ok(Some(config)), task) == Ok::<Status, SchedulerError>(
            Status { config, running: true },
        ),
{
}

/// A stop right after a start leaves no handle behind, cancels exactly the
/// loop that was started, and status reports the scheduler stopped. A start
/// right after a stop leaves a handle exactly when it started a new loop.
pub proof fn start_and_stop_leave_no_dead_handle<H>(
    s0: Option<RunningTask<H>>,
    stored: StoreRead,
    started: Result<SchedulerConfig, SchedulerError>,
    s1: Option<RunningTask<H>>,
    cancelled: Option<H>,
    s2: Option<RunningTask<H>>,
    again: Result<SchedulerConfig, SchedulerError>,
    s3: Option<RunningTask<H>>,
)
    requires
        start_post(s0, stored, started, s1),
        stop_post(s1, cancelled, s2),
        start_post(s2, stored, again, s3),
    ensures
        s2 is None,
        started is Ok ==> cancelled == Some(s1->Some_0.handle),
        forall|c: SchedulerConfig|
            #[trigger] status_of(Ok(Some(c)), s2) == Ok::<Status, SchedulerError>(
                Status { config: c, running: false },
            ),
        s3 is Some <==> again is Ok,
{
}

} // verus!
