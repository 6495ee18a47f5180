//! The update task's per-cycle evaluation.
//!
//! The update task loops forever: it suspends for its fixed cadence (or for
//! a hardware edge), reads the device, and evaluates the outcome. A
//! transient read fault is tolerated: the cycle ends without publishing and
//! without touching the task's state. A successful reading is published
//! exactly when the debounce policy accepts it; the first successful
//! reading is always published. The caller performs the suspension and the
//! raw read, and carries an accepted reading into the shared cell and the
//! change channel.

use vstd::prelude::*;

use crate::cell::StateCell;
use crate::channel::ChangeChannel;
use crate::debounce::round_deci_spec;
use crate::debounce::should_publish;
use crate::debounce::significant_change;
use crate::DeviceError;

verus! {

/// The update task's fixed polling cadence, in seconds: how long it idles
/// between device reads when no hardware edge drives it.
pub const POLL_INTERVAL_SECONDS: u64 = 1;

/// Whether the debounce policy accepts `reading` for publication, given the
/// last published reading (`None` before the first publish).
pub open spec fn accepts(last: Option<int>, reading: int) -> bool {
    match last {
        None => true,
        Some(l) => significant_change(l, reading),
    }
}

/// The value published by one cycle that saw `outcome`, if any.
pub open spec fn cycle_publish(last: Option<int>, outcome: Result<int, DeviceError>) -> Option<
    int,
> {
    match outcome {
        Ok(reading) => if accepts(last, reading) {
            Some(reading)
        } else {
            None
        },
        Err(_) => None,
    }
}

/// The last-published state after one cycle that saw `outcome`.
pub open spec fn cycle_state(last: Option<int>, outcome: Result<int, DeviceError>) -> Option<
    int,
> {
    match cycle_publish(last, outcome) {
        Some(v) => Some(v),
        None => last,
    }
}

/// The debounce state of one update task: the last reading it published.
pub struct SensorPoller {
    last_published: Option<i32>,
}

impl SensorPoller {
    /// The last published reading, as the evaluation policy sees it.
    pub closed spec fn last(&self) -> Option<int> {
        match self.last_published {
            None => None,
            Some(v) => Some(v as int),
        }
    }

    /// A fresh task that has published nothing yet.
    pub fn new() -> (t: SensorPoller)
        ensures
            t.last() is None,
    {
        SensorPoller { last_published: None }
    }

    /// Evaluate one poll cycle's read outcome. Returns the reading to
    /// publish, or `None` when the cycle ends quietly: on a transient fault
    /// (which leaves the task exactly as it was) or on an insignificant
    /// reading.
    pub fn evaluate(&mut self, outcome: Result<i32, DeviceError>) -> (publish: Option<i32>)
        ensures
            match publish {
                Some(v) => Some(v as int) == cycle_publish(old(self).last(), outcome_spec(outcome)),
                None => cycle_publish(old(self).last(), outcome_spec(outcome)) is None,
            },
            final (self).last() == cycle_state(old(self).last(), outcome_spec(outcome)),
    {
        match outcome {
            Ok(reading) => {
                let publish = match self.last_published {
                    None => true,
                    Some(last) => should_publish(last, reading),
                };
                if publish {
                    self.last_published = Some(reading);
                    Some(reading)
                } else {
                    None
                }
            },
            Err(_) => None,
        }
    }
}

/// One whole poll cycle, run after the caller performed the device read:
/// record the outcome as the last known device state, and publish the
/// reading as a change event exactly when the debounce policy accepts it.
/// A transient fault ends the cycle with no event and the poller exactly as
/// it was; the fault stays visible in the cell until the next cycle
/// overwrites it.
pub fn poll_cycle(
    poller: &mut SensorPoller,
    cell: &mut StateCell<Result<i32, DeviceError>>,
    ch: &mut ChangeChannel<i32>,
    outcome: Result<i32, DeviceError>,
) -> (published: Option<i32>)
    requires
        old(cell).wf(),
        old(ch).wf(),
        old(ch).events().len() < usize::MAX,
    ensures
        final (cell).wf(),
        final (ch).wf(),
        final (ch).capacity() == old(ch).capacity(),
        final (cell).log() == old(cell).log().push(outcome),
        match published {
            Some(v) => {
                &&& Some(v as int) == cycle_publish(old(poller).last(), outcome_spec(outcome))
                &&& final (ch).events() == old(ch).events().push(v)
            },
            None => {
                &&& cycle_publish(old(poller).last(), outcome_spec(outcome)) is None
                &&& final (ch).events() == old(ch).events()
            },
        },
        final (poller).last() == cycle_state(old(poller).last(), outcome_spec(outcome)),
{
    cell.write(outcome);
    let published = poller.evaluate(outcome);
    match published {
        Some(v) => {
            ch.publish(v);
            Some(v)
        },
        None => None,
    }
}

/// One observed edge of a discrete input such as a button: every edge is
/// significant, so the state toggles and the new state is always published,
/// with no debounce.
pub fn press_edge(cell: &mut StateCell<bool>, ch: &mut ChangeChannel<bool>) -> (on: bool)
    requires
        old(cell).wf(),
        old(ch).wf(),
        old(ch).events().len() < usize::MAX,
    ensures
        final (cell).wf(),
        final (ch).wf(),
        final (ch).capacity() == old(ch).capacity(),
        on == !old(cell).log().last(),
        final (cell).log() == old(cell).log().push(on),
        final (ch).events() == old(ch).events().push(on),
{
    let on = !cell.read();
    cell.write(on);
    ch.publish(on);
    on
}

/// The mathematical view of a read outcome.
pub open spec fn outcome_spec(outcome: Result<i32, DeviceError>) -> Result<int, DeviceError> {
    match outcome {
        Ok(v) => Ok(v as int),
        Err(e) => Err(e),
    }
}

/// How many readings of `rs` one task publishes, processed in order as
/// successive cycles from the state where `last` was published most
/// recently.
pub open spec fn publish_count(last: Option<int>, rs: Seq<int>) -> nat
    decreases rs.len(),
{
    if rs.len() == 0 {
        0
    } else {
        let here: nat = if cycle_publish(last, Ok(rs[0])) is Some {
            1
        } else {
            0
        };
        here + publish_count(cycle_state(last, Ok(rs[0])), rs.drop_first())
    }
}

/// Readings that all round to the same tenth as the last published reading
/// are never published.
pub proof fn lemma_debounce_quiet(last: int, rs: Seq<int>)
    requires
        forall|i: int| 0 <= i < rs.len() ==> round_deci_spec(#[trigger] rs[i]) == round_deci_spec(
            last,
        ),
    ensures
        publish_count(Some(last), rs) == 0,
    decreases rs.len(),
{
    if rs.len() > 0 {
        assert(round_deci_spec(rs[0]) == round_deci_spec(last));
        assert(forall|i: int|
            0 <= i < rs.drop_first().len() ==> #[trigger] rs.drop_first()[i] == rs[i + 1]);
        lemma_debounce_quiet(last, rs.drop_first());
    }
}

/// Debounce property: a sequence of readings whose pairwise rounded
/// difference is zero is published at most once, however long it is; and
/// not at all when it also rounds to the last published tenth.
pub proof fn lemma_debounce_at_most_once(last: int, rs: Seq<int>)
    requires
        forall|i: int| 0 <= i < rs.len() ==> round_deci_spec(#[trigger] rs[i]) == round_deci_spec(
            rs[0],
        ),
    ensures
        publish_count(Some(last), rs) <= 1,
        rs.len() > 0 && round_deci_spec(rs[0]) == round_deci_spec(last) ==> publish_count(
            Some(last),
            rs,
        ) == 0,
{
    if rs.len() > 0 {
        assert(forall|i: int|
            0 <= i < rs.drop_first().len() ==> #[trigger] rs.drop_first()[i] == rs[i + 1]);
        if accepts(Some(last), rs[0]) {
            lemma_debounce_quiet(rs[0], rs.drop_first());
        } else {
            lemma_debounce_quiet(last, rs.drop_first());
        }
    }
}

/// Debounce boundary: a single reading that crosses into another tenth is
/// published exactly once.
pub proof fn lemma_debounce_boundary(last: int, reading: int)
    requires
        round_deci_spec(reading) != round_deci_spec(last),
    ensures
        publish_count(Some(last), seq![reading]) == 1,
{
    let rs = seq![reading];
    assert(rs[0] == reading);
    assert(accepts(Some(last), rs[0]));
    assert(rs.drop_first() =~= Seq::<int>::empty());
    assert(publish_count(Some(reading), rs.drop_first()) == 0);
}

/// Fault isolation: a cycle that hits a transient read fault leaves the
/// task's state untouched, so the next cycle decides exactly as it would
/// have without the fault.
pub proof fn lemma_fault_isolated(last: Option<int>, fault: DeviceError, reading: int)
    ensures
        cycle_state(last, Err(fault)) == last,
        cycle_publish(cycle_state(last, Err(fault)), Ok(reading)) == cycle_publish(
            last,
            Ok(reading),
        ),
        cycle_state(cycle_state(last, Err(fault)), Ok(reading)) == cycle_state(last, Ok(reading)),
{
}

} // verus!
