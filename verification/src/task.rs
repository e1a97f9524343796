//! A resumable state machine that processes one order.
//!
//! Each step of processing is preceded by a wait. The task says which wait
//! comes next (`next_action`); whoever drives it performs the wait and then
//! calls `resume`, which runs that step's check and moves the task on. The
//! task thus holds every decision, and its driver only sleeps.

use vstd::prelude::*;
use crate::order::{
    Order, Stage, passes, failure_message, first_failure, spec_process_order,
    charge_result_view, validate, reserve_inventory, charge_payment,
};

verus! {

/// Where a task stands.
#[derive(Debug, Clone, Copy, PartialEq, Eq, Structural)]
pub enum Phase {
    /// Waiting before the check of this step.
    Pending(Stage),
    /// Every step accepted the order, and this amount was charged.
    Charged(u32),
    /// This step refused the order.
    Failed(Stage),
}

/// What the driver of a task is to do next.
#[derive(Debug, Clone, Copy, PartialEq, Eq, Structural)]
pub enum Action {
    /// Wait this many milliseconds, then resume the task, which then runs
    /// the check of `stage`.
    Wait { stage: Stage, millis: u64 },
    /// The task is finished; its result can be taken.
    Done,
}

/// The wait, in milliseconds, that precedes the check of `stage`.
pub open spec fn spec_delay_millis(stage: Stage) -> u64 {
    match stage {
        Stage::Validate => 10,
        Stage::ReserveInventory => 30,
        Stage::ChargePayment => 50,
    }
}

/// The step that runs after `stage`, if any.
pub open spec fn stage_after(stage: Stage) -> Option<Stage> {
    match stage {
        Stage::Validate => Some(Stage::ReserveInventory),
        Stage::ReserveInventory => Some(Stage::ChargePayment),
        Stage::ChargePayment => None,
    }
}

/// The phase that follows `phase` once its wait is over: the pending check
/// is run; a finished phase stays as it is.
pub open spec fn resume_phase(order: Order, phase: Phase) -> Phase {
    match phase {
        Phase::Pending(stage) => if !passes(stage, order) {
            Phase::Failed(stage)
        } else {
            match stage_after(stage) {
                Some(next) => Phase::Pending(next),
                None => Phase::Charged(order.amount),
            }
        },
        _ => phase,
    }
}

/// The action that `phase` asks of the driver.
pub open spec fn action_of(phase: Phase) -> Action {
    match phase {
        Phase::Pending(stage) => Action::Wait { stage, millis: spec_delay_millis(stage) },
        _ => Action::Done,
    }
}

/// The result that `phase` holds, with its error taken by its view; none
/// while a step is still pending.
pub open spec fn phase_result(phase: Phase) -> Option<Result<u32, Seq<char>>> {
    match phase {
        Phase::Pending(_) => None,
        Phase::Charged(c) => Some(Ok(c)),
        Phase::Failed(stage) => Some(Err(failure_message(stage))),
    }
}

/// Whether `phase` is one that processing `order` can reach: a pending step
/// has every earlier step accepting the order, a failed step is the first
/// that refuses it, and a charge is of the order's amount after every step
/// accepted it.
pub open spec fn reachable(order: Order, phase: Phase) -> bool {
    match phase {
        Phase::Pending(stage) => match stage {
            Stage::Validate => true,
            Stage::ReserveInventory => passes(Stage::Validate, order),
            Stage::ChargePayment => passes(Stage::Validate, order) && passes(
                Stage::ReserveInventory,
                order,
            ),
        },
        Phase::Failed(stage) => first_failure(order) == Some(stage),
        Phase::Charged(c) => first_failure(order) is None && c == order.amount,
    }
}

/// The phase of a task on `order` after `n` resumptions from the start.
pub open spec fn run(order: Order, n: nat) -> Phase
    decreases n,
{
    if n == 0 {
        Phase::Pending(Stage::Validate)
    } else {
        resume_phase(order, run(order, (n - 1) as nat))
    }
}

/// How many waits processing `order` takes: one per step up to and
/// including the first that refuses it, three when none does.
pub open spec fn wait_count(order: Order) -> nat {
    match first_failure(order) {
        Some(Stage::Validate) => 1,
        Some(Stage::ReserveInventory) => 2,
        _ => 3,
    }
}

/// The `i`-th step in running order.
pub open spec fn stage_at(i: nat) -> Stage {
    if i == 0 {
        Stage::Validate
    } else if i == 1 {
        Stage::ReserveInventory
    } else {
        Stage::ChargePayment
    }
}

/// What a task holds of its order and of its progress.
pub struct TaskView {
    pub order: Order,
    pub phase: Phase,
}

impl Stage {
    /// The wait, in milliseconds, that precedes this step's check.
    pub fn delay_millis(&self) -> (ms: u64)
        ensures
            ms == spec_delay_millis(*self),
            ms == match *self {
                Stage::Validate => 10u64,
                Stage::ReserveInventory => 30u64,
                Stage::ChargePayment => 50u64,
            },
    {
        match self {
            Stage::Validate => 10,
            Stage::ReserveInventory => 30,
            Stage::ChargePayment => 50,
        }
    }
}

/// The processing of one order, one wait and one check at a time.
pub struct OrderTask {
    order: Order,
    phase: Phase,
}

impl View for OrderTask {
    type V = TaskView;

    closed spec fn view(&self) -> TaskView {
        TaskView { order: self.order, phase: self.phase }
    }
}

impl OrderTask {
    #[verifier::type_invariant]
    spec fn well_formed(self) -> bool {
        reachable(self.order, self.phase)
    }

    /// A task on `order` that has run nothing yet: validation is pending.
    pub fn new(order: Order) -> (t: OrderTask)
        ensures
            t@ == (TaskView { order, phase: Phase::Pending(Stage::Validate) }),
    {
        OrderTask { order, phase: Phase::Pending(Stage::Validate) }
    }

    /// The order being processed.
    pub fn order(&self) -> (o: Order)
        ensures
            o == self@.order,
    {
        self.order
    }

    /// The current phase.
    pub fn phase(&self) -> (p: Phase)
        ensures
            p == self@.phase,
    {
        self.phase
    }

    /// Whether every step that will run has run.
    pub fn is_finished(&self) -> (b: bool)
        ensures
            b == !(self@.phase is Pending),
    {
        !matches!(self.phase, Phase::Pending(_))
    }

    /// What the driver is to do next: wait before the pending step, or
    /// nothing more.
    pub fn next_action(&self) -> (a: Action)
        ensures
            a == action_of(self@.phase),
    {
        match self.phase {
            Phase::Pending(stage) => Action::Wait { stage, millis: stage.delay_millis() },
            _ => Action::Done,
        }
    }

    /// The wait before the pending step is over: runs that step's check and
    /// moves on to the next step, to the refusal, or to the charge. A
    /// finished task is left as it is.
    pub fn resume(&mut self)
        ensures
            final(self)@ == (TaskView {
                order: old(self)@.order,
                phase: resume_phase(old(self)@.order, old(self)@.phase),
            }),
    {
        proof {
            use_type_invariant(&*self);
        }
        match self.phase {
            Phase::Pending(Stage::Validate) => {
                self.phase = match validate(&self.order) {
                    Ok(()) => Phase::Pending(Stage::ReserveInventory),
                    Err(_) => Phase::Failed(Stage::Validate),
                };
            },
            Phase::Pending(Stage::ReserveInventory) => {
                self.phase = match reserve_inventory(&self.order) {
                    Ok(()) => Phase::Pending(Stage::ChargePayment),
                    Err(_) => Phase::Failed(Stage::ReserveInventory),
                };
            },
            Phase::Pending(Stage::ChargePayment) => {
                self.phase = match charge_payment(&self.order) {
                    Ok(charged) => Phase::Charged(charged),
                    Err(_) => Phase::Failed(Stage::ChargePayment),
                };
            },
            _ => {},
        }
    }

    /// The result of the processing, once finished: the charged amount, or
    /// the message of the step that refused the order. `None` while a step
    /// is pending. A finished task holds what `process_order` returns.
    pub fn into_result(self) -> (r: Option<Result<u32, String>>)
        ensures
            r is Some <==> !(self@.phase is Pending),
            r matches Some(res) ==> Some(charge_result_view(res)) == phase_result(self@.phase),
            r matches Some(res) ==> charge_result_view(res) == spec_process_order(self@.order),
    {
        proof {
            use_type_invariant(&self);
        }
        match self.phase {
            Phase::Pending(_) => None,
            Phase::Charged(charged) => Some(Ok(charged)),
            Phase::Failed(stage) => Some(Err(stage.message())),
        }
    }
}

/// A finished task stays finished: resuming it changes nothing.
pub proof fn lemma_finished_task_is_fixed(order: Order, phase: Phase)
    requires
        !(phase is Pending),
    ensures
        resume_phase(order, phase) == phase,
        action_of(phase) == Action::Done,
{
}

/// Resuming keeps a task's phase one that processing its order can reach,
/// and a reachable finished phase holds what `process_order` returns.
pub proof fn lemma_resume_keeps_reachable(order: Order, phase: Phase)
    requires
        reachable(order, phase),
    ensures
        reachable(order, resume_phase(order, phase)),
        !(phase is Pending) ==> phase_result(phase) == Some(spec_process_order(order)),
{
}

/// A task started on `order` and resumed after each wait it asks for waits
/// before validation, then reservation, then payment, stopping after the
/// first step that refuses the order; the waits last 10, 30 and 50 ms.
/// Once it is finished it holds what `process_order` returns for `order`.
pub proof fn lemma_task_runs_steps_in_order(order: Order, n: nat)
    ensures
        1 <= wait_count(order) <= 3,
        n < wait_count(order) ==> run(order, n) == Phase::Pending(stage_at(n)),
        n < wait_count(order) ==> action_of(run(order, n)) == (Action::Wait {
            stage: stage_at(n),
            millis: spec_delay_millis(stage_at(n)),
        }),
        wait_count(order) <= n ==> action_of(run(order, n)) == Action::Done,
        wait_count(order) <= n ==> phase_result(run(order, n)) == Some(
            spec_process_order(order),
        ),
    decreases n,
{
    if n > 0 {
        lemma_task_runs_steps_in_order(order, (n - 1) as nat);
    }
}

/// The waits last 10 ms before validation, 30 ms before reservation and
/// 50 ms before payment.
pub proof fn lemma_wait_lengths()
    ensures
        spec_delay_millis(Stage::Validate) == 10,
        spec_delay_millis(Stage::ReserveInventory) == 30,
        spec_delay_millis(Stage::ChargePayment) == 50,
{
}

/// Resuming a pending task runs that step's check on the order's own fields:
/// validation refuses a zero amount, reservation refuses order 3, payment
/// refuses an amount over 1000 and otherwise charges the amount; each
/// accepted check hands over to the next step.
pub proof fn lemma_resume_outcome(order: Order)
    ensures
        resume_phase(order, Phase::Pending(Stage::Validate)) == (if order.amount == 0 {
            Phase::Failed(Stage::Validate)
        } else {
            Phase::Pending(Stage::ReserveInventory)
        }),
        resume_phase(order, Phase::Pending(Stage::ReserveInventory)) == (if order.id == 3 {
            Phase::Failed(Stage::ReserveInventory)
        } else {
            Phase::Pending(Stage::ChargePayment)
        }),
        resume_phase(order, Phase::Pending(Stage::ChargePayment)) == (if order.amount > 1000 {
            Phase::Failed(Stage::ChargePayment)
        } else {
            Phase::Charged(order.amount)
        }),
{
}

} // verus!
