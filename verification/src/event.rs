//! Low-level input events and the plans a virtual device is driven by.
//!
//! A request to a virtual keyboard or mouse is answered with a `Plan`: the
//! batches to write, in order, with the settle delays between them and, for
//! each batch, what a failed write means for the rest of the plan. A `Cursor`
//! walks a plan: the caller performs the action the cursor shows, reports how
//! it went, and the cursor decides what comes next.

use vstd::prelude::*;
use crate::codes::{EV_KEY, EV_REL, EV_SYN, SYN_REPORT};

verus! {

/// One event as the kernel takes it: type, code and value.
#[derive(Clone, Copy, Debug, PartialEq, Eq, Structural)]
pub struct InputEvent {
    pub kind: u16,
    pub code: u16,
    pub value: i32,
}

impl InputEvent {
    /// The marker that makes the events written before it visible.
    pub open spec fn sync_spec() -> InputEvent {
        InputEvent { kind: EV_SYN, code: SYN_REPORT, value: 0 }
    }

    /// A key or button going down (`pressed`) or up.
    pub open spec fn key_spec(code: u16, pressed: bool) -> InputEvent {
        InputEvent { kind: EV_KEY, code, value: if pressed { 1i32 } else { 0i32 } }
    }

    /// Motion by `delta` along a relative axis.
    pub open spec fn relative_spec(axis: u16, delta: i32) -> InputEvent {
        InputEvent { kind: EV_REL, code: axis, value: delta }
    }

    pub fn sync() -> (event: InputEvent)
        ensures
            event == Self::sync_spec(),
    {
        InputEvent { kind: EV_SYN, code: SYN_REPORT, value: 0 }
    }

    pub fn key(code: u16, pressed: bool) -> (event: InputEvent)
        ensures
            event == Self::key_spec(code, pressed),
    {
        InputEvent { kind: EV_KEY, code, value: if pressed { 1 } else { 0 } }
    }

    pub fn relative(axis: u16, delta: i32) -> (event: InputEvent)
        ensures
            event == Self::relative_spec(axis, delta),
    {
        InputEvent { kind: EV_REL, code: axis, value: delta }
    }
}

/// What a failed write of a batch means for the steps after it.
#[derive(Clone, Copy, Debug, PartialEq, Eq, Structural)]
pub enum OnFailure {
    /// Nothing: the next step is taken as if the write had succeeded.
    Ignore,
    /// The step right after this one is left out; the plan goes on behind it.
    SkipNext,
    /// The rest of the plan is left out and the request fails.
    Abort,
}

/// One step of a plan.
#[derive(Debug, PartialEq, Eq)]
pub enum Step {
    /// Write `events` to the device as one batch.
    Emit { events: Vec<InputEvent>, on_failure: OnFailure },
    /// Wait for `millis` milliseconds.
    Settle { millis: u64 },
}

/// A step with its batch as a sequence.
pub enum StepView {
    Emit { events: Seq<InputEvent>, on_failure: OnFailure },
    Settle { millis: u64 },
}

impl View for Step {
    type V = StepView;

    open spec fn view(&self) -> StepView {
        match *self {
            Step::Emit { events, on_failure } => StepView::Emit { events: events@, on_failure },
            Step::Settle { millis } => StepView::Settle { millis },
        }
    }
}

/// The batch that holds the sync marker alone.
pub open spec fn sync_batch() -> Seq<InputEvent> {
    seq![InputEvent::sync_spec()]
}

/// A batch followed by its sync marker, each with its own failure policy.
pub open spec fn report(events: Seq<InputEvent>, first: OnFailure, second: OnFailure) -> Seq<
    StepView,
> {
    seq![
        StepView::Emit { events, on_failure: first },
        StepView::Emit { events: sync_batch(), on_failure: second },
    ]
}

/// A settle delay as a plan of one step.
pub open spec fn settle(millis: u64) -> Seq<StepView> {
    seq![StepView::Settle { millis }]
}

/// Whether a step writes the sync marker and nothing else.
pub open spec fn is_sync_step(step: StepView) -> bool {
    match step {
        StepView::Emit { events, .. } => events == sync_batch(),
        StepView::Settle { .. } => false,
    }
}

/// Whether a step writes a batch other than the sync marker.
pub open spec fn is_data_step(step: StepView) -> bool {
    match step {
        StepView::Emit { events, .. } => events != sync_batch(),
        StepView::Settle { .. } => false,
    }
}

/// Every batch that is not a sync marker is directly followed by one:
/// nothing is written that the plan does not also make visible.
pub open spec fn well_paired(plan: Seq<StepView>) -> bool {
    forall|i: int|
        0 <= i < plan.len() && is_data_step(#[trigger] plan[i]) ==> i + 1 < plan.len()
            && is_sync_step(plan[i + 1])
}

/// Two plans that are well paired stay so when one follows the other.
pub proof fn lemma_well_paired_concat(first: Seq<StepView>, second: Seq<StepView>)
    requires
        well_paired(first),
        well_paired(second),
    ensures
        well_paired(first + second),
{
    let both = first + second;
    assert forall|i: int| 0 <= i < both.len() && is_data_step(#[trigger] both[i]) implies i + 1
        < both.len() && is_sync_step(both[i + 1]) by {
        if i < first.len() {
            assert(both[i] == first[i]);
            assert(both[i + 1] == first[i + 1]);
        } else {
            assert(both[i] == second[i - first.len()]);
            assert(both[i + 1] == second[i + 1 - first.len()]);
        }
    }
}

/// The index of the step taken after step `position`, given whether its
/// action succeeded. Never beyond the end of the plan.
pub open spec fn next_position(plan: Seq<StepView>, position: int, succeeded: bool) -> int {
    let stride: int = match plan[position] {
        StepView::Settle { .. } => 1,
        StepView::Emit { on_failure, .. } => if succeeded {
            1
        } else {
            match on_failure {
                OnFailure::Ignore => 1,
                OnFailure::SkipNext => 2,
                OnFailure::Abort => plan.len() - position,
            }
        },
    };
    if position + stride <= plan.len() {
        position + stride
    } else {
        plan.len() as int
    }
}

/// Whether a failure at step `position` makes the request fail.
pub open spec fn aborts(plan: Seq<StepView>, position: int, succeeded: bool) -> bool {
    !succeeded && plan[position] matches StepView::Emit { on_failure: OnFailure::Abort, .. }
}

/// The batches handed to the device from step `position` on, in the order
/// they are written, when the write at step `i` succeeds exactly if `ok(i)`.
pub open spec fn emitted_from(plan: Seq<StepView>, position: int, ok: spec_fn(int) -> bool) -> Seq<
    Seq<InputEvent>,
>
    decreases plan.len() - position,
{
    if position < 0 || position >= plan.len() {
        Seq::empty()
    } else {
        let rest = emitted_from(plan, next_position(plan, position, ok(position)), ok);
        match plan[position] {
            StepView::Emit { events, .. } => seq![events] + rest,
            StepView::Settle { .. } => rest,
        }
    }
}

/// Whether the request succeeds when run from step `position` on.
pub open spec fn delivered_from(plan: Seq<StepView>, position: int, ok: spec_fn(int) -> bool) -> bool
    decreases plan.len() - position,
{
    if position < 0 || position >= plan.len() {
        true
    } else {
        !aborts(plan, position, ok(position)) && delivered_from(
            plan,
            next_position(plan, position, ok(position)),
            ok,
        )
    }
}

/// What a virtual device is created with: its name and the codes it
/// declares, which are the only ones it may later be asked to write.
#[derive(Debug, PartialEq, Eq)]
pub struct DeviceDescriptor {
    pub name: String,
    pub keys: Vec<u16>,
    pub relative_axes: Vec<u16>,
}

/// The batch that holds `event` alone.
pub fn batch_of_one(event: InputEvent) -> (batch: Vec<InputEvent>)
    ensures
        batch@ == seq![event],
{
    let mut batch: Vec<InputEvent> = Vec::new();
    batch.push(event);
    assert(batch@ =~= seq![event]);
    batch
}

/// The batch that holds `first`, then `second`.
pub fn batch_of_two(first: InputEvent, second: InputEvent) -> (batch: Vec<InputEvent>)
    ensures
        batch@ == seq![first, second],
{
    let mut batch: Vec<InputEvent> = Vec::new();
    batch.push(first);
    batch.push(second);
    assert(batch@ =~= seq![first, second]);
    batch
}

/// The steps to take for one request, in order.
#[derive(Debug, PartialEq, Eq)]
pub struct Plan {
    pub steps: Vec<Step>,
}

impl View for Plan {
    type V = Seq<StepView>;

    open spec fn view(&self) -> Seq<StepView> {
        self.steps@.map_values(|step: Step| step@)
    }
}

impl Plan {
    /// The plan that does nothing.
    pub fn new() -> (plan: Plan)
        ensures
            plan@ == Seq::<StepView>::empty(),
    {
        Plan { steps: Vec::new() }
    }

    pub fn len(&self) -> (len: usize)
        ensures
            len == self@.len(),
    {
        self.steps.len()
    }

    pub fn is_empty(&self) -> (empty: bool)
        ensures
            empty == (self@.len() == 0),
    {
        self.steps.len() == 0
    }

    /// Adds a batch to the end of the plan.
    pub fn push_emit(&mut self, events: Vec<InputEvent>, on_failure: OnFailure)
        ensures
            final(self)@ == old(self)@.push(StepView::Emit { events: events@, on_failure }),
    {
        self.steps.push(Step::Emit { events, on_failure });
    }

    /// Adds a batch followed by its sync marker.
    pub fn push_report(&mut self, events: Vec<InputEvent>, first: OnFailure, second: OnFailure)
        ensures
            final(self)@ == old(self)@ + report(events@, first, second),
    {
        self.push_emit(events, first);
        self.push_emit(batch_of_one(InputEvent::sync()), second);
    }

    /// Adds a settle delay to the end of the plan.
    pub fn push_settle(&mut self, millis: u64)
        ensures
            final(self)@ == old(self)@ + settle(millis),
    {
        self.steps.push(Step::Settle { millis });
    }

    /// Moves the steps of `other` to the end of this plan.
    pub fn append(&mut self, other: Plan)
        ensures
            final(self)@ == old(self)@ + other@,
    {
        let mut other = other;
        self.steps.append(&mut other.steps);
    }
}

} // verus!
