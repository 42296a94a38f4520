//! Walking a plan one action at a time.
//!
//! The cursor holds the decisions; the caller holds the device. The caller
//! asks for the current action, performs it, and reports whether it
//! succeeded. Which step comes next, and whether the request as a whole
//! failed, follows from the plan's failure policies alone.

use vstd::prelude::*;
use crate::event::{
    aborts, delivered_from, emitted_from, next_position, InputEvent, OnFailure, Plan, Step,
    StepView,
};

verus! {

/// What the caller is to do next.
#[derive(Clone, Copy, Debug, PartialEq, Eq)]
pub enum Action<'a> {
    /// Write this batch to the device, then report the outcome.
    Emit(&'a Vec<InputEvent>),
    /// Sleep for this many milliseconds, then report success.
    Settle(u64),
    /// Nothing is left to do; `delivered` tells whether the request succeeded.
    Finished { delivered: bool },
}

/// An action with its batch as a sequence.
pub enum ActionView {
    Emit(Seq<InputEvent>),
    Settle(u64),
    Finished { delivered: bool },
}

impl<'a> View for Action<'a> {
    type V = ActionView;

    open spec fn view(&self) -> ActionView {
        match *self {
            Action::Emit(events) => ActionView::Emit(events@),
            Action::Settle(millis) => ActionView::Settle(millis),
            Action::Finished { delivered } => ActionView::Finished { delivered },
        }
    }
}

/// A position in a plan, with the verdict so far.
#[derive(Debug, PartialEq, Eq)]
pub struct Cursor {
    plan: Plan,
    position: usize,
    failed: bool,
}

/// The state of a cursor: the plan, the index of the step to take next
/// (the plan's length once nothing is left), and whether a write whose
/// failure aborts the request has failed.
pub struct CursorView {
    pub plan: Seq<StepView>,
    pub position: int,
    pub failed: bool,
}

impl CursorView {
    pub open spec fn finished(self) -> bool {
        self.position >= self.plan.len()
    }

    /// The action to perform in this state.
    pub open spec fn action(self) -> ActionView {
        if self.finished() {
            ActionView::Finished { delivered: !self.failed }
        } else {
            match self.plan[self.position] {
                StepView::Emit { events, .. } => ActionView::Emit(events),
                StepView::Settle { millis } => ActionView::Settle(millis),
            }
        }
    }

    /// The state after the current action ended as `succeeded` says.
    /// A finished cursor stays as it is.
    pub open spec fn step(self, succeeded: bool) -> CursorView {
        if self.finished() {
            self
        } else {
            CursorView {
                plan: self.plan,
                position: next_position(self.plan, self.position, succeeded),
                failed: self.failed || aborts(self.plan, self.position, succeeded),
            }
        }
    }

    /// The batches still to be written from this state on.
    pub open spec fn emitted(self, ok: spec_fn(int) -> bool) -> Seq<Seq<InputEvent>> {
        emitted_from(self.plan, self.position, ok)
    }

    /// The verdict the walk ends with from this state on.
    pub open spec fn delivered(self, ok: spec_fn(int) -> bool) -> bool {
        !self.failed && delivered_from(self.plan, self.position, ok)
    }
}

impl View for Cursor {
    type V = CursorView;

    closed spec fn view(&self) -> CursorView {
        CursorView { plan: self.plan@, position: self.position as int, failed: self.failed }
    }
}

impl Cursor {
    /// The position never passes the end of the plan.
    #[verifier::type_invariant]
    spec fn within_plan(self) -> bool {
        self.position <= self.plan.steps.len()
    }

    /// A cursor at the first step of `plan`.
    pub fn new(plan: Plan) -> (cursor: Cursor)
        ensures
            cursor@ == (CursorView { plan: plan@, position: 0, failed: false }),
    {
        Cursor { plan, position: 0, failed: false }
    }

    /// Whether nothing is left to do.
    pub fn is_finished(&self) -> (finished: bool)
        ensures
            finished == self@.finished(),
            0 <= self@.position <= self@.plan.len(),
    {
        proof {
            use_type_invariant(self);
        }
        self.position >= self.plan.steps.len()
    }

    /// The action to perform now.
    pub fn current(&self) -> (action: Action<'_>)
        ensures
            action@ == self@.action(),
    {
        proof {
            use_type_invariant(self);
        }
        if self.position >= self.plan.steps.len() {
            Action::Finished { delivered: !self.failed }
        } else {
            match &self.plan.steps[self.position] {
                Step::Emit { events, .. } => Action::Emit(events),
                Step::Settle { millis } => Action::Settle(*millis),
            }
        }
    }

    /// Takes the outcome of the current action and moves to the step that
    /// the plan's failure policy names.
    pub fn report(&mut self, succeeded: bool)
        ensures
            final(self)@ == old(self)@.step(succeeded),
    {
        proof {
            use_type_invariant(&*self);
        }
        let len = self.plan.steps.len();
        if self.position < len {
            let mut stride: usize = 1;
            let mut abort = false;
            match &self.plan.steps[self.position] {
                Step::Emit { on_failure, .. } => {
                    if !succeeded {
                        match on_failure {
                            OnFailure::Ignore => {},
                            OnFailure::SkipNext => {
                                stride = 2;
                            },
                            OnFailure::Abort => {
                                abort = true;
                            },
                        }
                    }
                },
                Step::Settle { .. } => {},
            }
            if abort {
                self.failed = true;
                self.position = len;
            } else if len - self.position >= stride {
                self.position = self.position + stride;
            } else {
                self.position = len;
            }
        }
    }
}

/// A walk hands the device exactly the batches `emitted` lists and ends
/// with the verdict `delivered` gives: taking one step takes the first
/// batch off the list, if the step writes one, and leaves the verdict.
pub proof fn lemma_step_follows_run(cursor: CursorView, ok: spec_fn(int) -> bool)
    requires
        0 <= cursor.position < cursor.plan.len(),
    ensures
        cursor.delivered(ok) == cursor.step(ok(cursor.position)).delivered(ok),
        cursor.emitted(ok) == match cursor.action() {
            ActionView::Emit(events) => seq![events] + cursor.step(ok(cursor.position)).emitted(
                ok,
            ),
            _ => cursor.step(ok(cursor.position)).emitted(ok),
        },
{
}

/// The plan that does nothing writes nothing and succeeds, whatever the
/// device would have answered.
pub proof fn lemma_empty_plan_is_silent(ok: spec_fn(int) -> bool)
    ensures
        emitted_from(Seq::<StepView>::empty(), 0, ok) == Seq::<Seq<InputEvent>>::empty(),
        delivered_from(Seq::<StepView>::empty(), 0, ok),
{
}

} // verus!
