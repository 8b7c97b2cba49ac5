//! The lifetime of the scheduler's single background task.
//!
//! A [`TaskCell`] holds the handle of the running loop, if any, together with the
//! configuration the loop was started with. The handle type is the caller's: the
//! library decides when a loop is started, replaced or stopped, and hands the
//! caller the handle to cancel. Callers share one cell behind a readers-writer
//! lock, so `start`, `stop` and `apply_reconfiguration` run one at a time.

use vstd::prelude::*;
use crate::config::{SchedulerConfig, SchedulerError};

verus! {

/// A running loop: its handle and the configuration it captured when started.
pub struct RunningTask<H> {
    pub handle: H,
    pub config: SchedulerConfig,
}

/// The cell that holds the running loop, if any.
pub struct TaskCell<H> {
    task: Option<RunningTask<H>>,
}

impl<H> View for TaskCell<H> {
    type V = Option<RunningTask<H>>;

    closed spec fn view(&self) -> Option<RunningTask<H>> {
        self.task
    }
}

/// What a read of the configuration store gave: a record, no record, or a failure.
pub type StoreRead = Result<Option<SchedulerConfig>, String>;

/// The configuration a read supplies, or the error it stands for.
pub open spec fn config_from_read(stored: StoreRead) -> Result<SchedulerConfig, SchedulerError> {
    match stored {
        Ok(Some(c)) => Ok(c),
        Ok(None) => Err(SchedulerError::NotConfigured),
        Err(e) => Err(SchedulerError::Store(e)),
    }
}

/// `stop` took the cell from `before` to `after` and returned `cancelled`.
pub open spec fn stop_post<H>(
    before: Option<RunningTask<H>>,
    cancelled: Option<H>,
    after: Option<RunningTask<H>>,
) -> bool {
    &&& after is None
    &&& match before {
        Some(t) => cancelled == Some(t.handle),
        None => cancelled is None,
    }
}

/// `start` took the cell from `before` to `after` with result `r`.
///
/// On success the cell holds a new handle with the configuration read; on
/// failure it is left as it was.
pub open spec fn start_post<H>(
    before: Option<RunningTask<H>>,
    stored: StoreRead,
    r: Result<SchedulerConfig, SchedulerError>,
    after: Option<RunningTask<H>>,
) -> bool {
    &&& r == config_from_read(stored)
    &&& match r {
        Ok(c) => after is Some && after->Some_0.config == c,
        Err(_) => after == before,
    }
}

/// What a status query reports.
#[derive(Clone, Copy, Debug, PartialEq, Eq, Structural)]
pub struct Status {
    pub config: SchedulerConfig,
    pub running: bool,
}

/// The status reported for a configuration read and a cell.
pub open spec fn status_of<H>(stored: StoreRead, task: Option<RunningTask<H>>) -> Result<
    Status,
    SchedulerError,
> {
    match config_from_read(stored) {
        Ok(c) => Ok(Status { config: c, running: task is Some }),
        Err(e) => Err(e),
    }
}

/// The outcome of a reconfiguration once the new record is stored.
pub struct Reconfigured<H> {
    /// The configuration read back from the store.
    pub config: SchedulerConfig,
    /// A loop was running and has been restarted with `config`.
    pub restarted: bool,
    /// The handle of the loop that was stopped, for the caller to cancel.
    pub stopped: Option<H>,
}

/// `apply_reconfiguration` took the cell from `before` to `after` with result `r`.
///
/// A running loop is replaced by one that captured the record read back; a
/// stopped scheduler stays stopped. On a failed read the cell is untouched.
pub open spec fn reconfigure_post<H>(
    before: Option<RunningTask<H>>,
    persisted: StoreRead,
    r: Result<Reconfigured<H>, SchedulerError>,
    after: Option<RunningTask<H>>,
) -> bool {
    match config_from_read(persisted) {
        Err(e) => r == Err::<Reconfigured<H>, SchedulerError>(e) && after == before,
        Ok(c) => {
            &&& r is Ok
            &&& r->Ok_0.config == c
            &&& r->Ok_0.restarted == before is Some
            &&& match before {
                Some(t) => {
                    &&& r->Ok_0.stopped == Some(t.handle)
                    &&& after is Some
                    &&& after->Some_0.config == c
                },
                None => r->Ok_0.stopped is None && after is None,
            }
        },
    }
}

impl<H> TaskCell<H> {
    /// An empty cell: nothing runs after the process starts.
    pub fn new() -> (r: Self)
        ensures
            r@ is None,
    {
        TaskCell { task: None }
    }

    /// A loop is running: a handle is present.
    pub fn is_running(&self) -> (r: bool)
        ensures
            r == self@ is Some,
    {
        self.task.is_some()
    }

    /// The configuration the running loop captured, if one runs.
    pub fn running_config(&self) -> (r: Option<SchedulerConfig>)
        ensures
            r == match self@ {
                Some(t) => Some(t.config),
                None => None::<SchedulerConfig>,
            },
    {
        match &self.task {
            Some(t) => Some(t.config),
            None => None,
        }
    }
}

fn read_config(stored: StoreRead) -> (r: Result<SchedulerConfig, SchedulerError>)
    ensures
        r == config_from_read(stored),
{
    match stored {
        Ok(Some(c)) => Ok(c),
        Ok(None) => Err(SchedulerError::NotConfigured),
        Err(e) => Err(SchedulerError::Store(e)),
    }
}

/// Stops the running loop, if any, and empties the cell.
///
/// Returns the handle the caller must cancel; with nothing running it changes
/// nothing and returns `None`.
pub fn stop<H>(cell: &mut TaskCell<H>) -> (cancelled: Option<H>)
    ensures
        stop_post(old(cell)@, cancelled, final(cell)@),
{
    match cell.task.take() {
        Some(t) => Some(t.handle),
        None => None,
    }
}

/// Starts a loop with the stored configuration.
///
/// `spawn` launches the loop for a configuration and returns its handle. A
/// handle already in the cell is replaced without being cancelled: callers
/// stop it first. Without a stored configuration nothing is spawned.
pub fn start<H, F: FnOnce(SchedulerConfig) -> H>(
    cell: &mut TaskCell<H>,
    stored: StoreRead,
    spawn: F,
) -> (r: Result<SchedulerConfig, SchedulerError>)
    requires
        forall|c: SchedulerConfig| #[trigger] spawn.requires((c,)),
    ensures
        start_post(old(cell)@, stored, r, final(cell)@),
        r is Ok ==> spawn.ensures((r->Ok_0,), final(cell)@->Some_0.handle),
{
    match read_config(stored) {
        Ok(config) => {
            let handle = spawn(config);
            cell.task = Some(RunningTask { handle, config });
            Ok(config)
        },
        Err(e) => Err(e),
    }
}

/// Reports the stored configuration and whether a loop is running.
pub fn status<H>(cell: &TaskCell<H>, stored: StoreRead) -> (r: Result<Status, SchedulerError>)
    ensures
        r == status_of(stored, cell@),
{
    match read_config(stored) {
        Ok(config) => Ok(Status { config, running: cell.is_running() }),
        Err(e) => Err(e),
    }
}

/// Brings the loop in line with a configuration that was just stored.
///
/// `persisted` is the record read back after the write. If a loop was running
/// it is stopped and a new one is started with that record, in one exclusive
/// step; a stopped scheduler stays stopped.
pub fn apply_reconfiguration<H, F: FnOnce(SchedulerConfig) -> H>(
    cell: &mut TaskCell<H>,
    persisted: StoreRead,
    spawn: F,
) -> (r: Result<Reconfigured<H>, SchedulerError>)
    requires
        forall|c: SchedulerConfig| #[trigger] spawn.requires((c,)),
    ensures
        reconfigure_post(old(cell)@, persisted, r, final(cell)@),
        r is Ok && r->Ok_0.restarted ==> spawn.ensures((r->Ok_0.config,), final(cell)@->Some_0.handle),
{
    let config = match read_config(persisted) {
        Ok(c) => c,
        Err(e) => {
            return Err(e);
        },
    };
    if cell.is_running() {
        let stopped = stop(cell);
        let handle = spawn(config);
        cell.task = Some(RunningTask { handle, config });
        Ok(Reconfigured { config, restarted: true, stopped })
    } else {
        Ok(Reconfigured { config, restarted: false, stopped: None })
    }
}

} // verus!
