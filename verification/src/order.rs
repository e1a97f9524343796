//! The order record, the three processing steps and their composition.

use vstd::prelude::*;

verus! {

/// The amount above which payment is refused.
pub const CHARGE_LIMIT: u32 = 1000;

/// The id of the order whose item is out of stock.
pub const OUT_OF_STOCK_ID: u32 = 3;

/// An order to process: who it is and how much it charges.
#[derive(Debug, Clone, Copy, PartialEq, Eq, Structural)]
pub struct Order {
    pub id: u32,
    pub amount: u32,
}

/// The three steps of processing an order, in the order in which they run.
#[derive(Debug, Clone, Copy, PartialEq, Eq, Structural)]
pub enum Stage {
    Validate,
    ReserveInventory,
    ChargePayment,
}

impl Stage {
    /// The message with which this step refuses an order.
    pub fn message(&self) -> (m: String)
        ensures
            m@ == failure_message(*self),
    {
        match self {
            Stage::Validate => "amount is zero".to_string(),
            Stage::ReserveInventory => "out of stock".to_string(),
            Stage::ChargePayment => "amount exceeds limit".to_string(),
        }
    }
}

/// Whether `order` passes the check of `stage`.
pub open spec fn passes(stage: Stage, order: Order) -> bool {
    match stage {
        Stage::Validate => order.amount != 0,
        Stage::ReserveInventory => order.id != OUT_OF_STOCK_ID,
        Stage::ChargePayment => order.amount <= CHARGE_LIMIT,
    }
}

/// The message with which `stage` refuses an order.
pub open spec fn failure_message(stage: Stage) -> Seq<char> {
    match stage {
        Stage::Validate => "amount is zero"@,
        Stage::ReserveInventory => "out of stock"@,
        Stage::ChargePayment => "amount exceeds limit"@,
    }
}

/// What a step returns, with its error taken by its view.
pub open spec fn unit_result_view(r: Result<(), String>) -> Result<(), Seq<char>> {
    match r {
        Ok(()) => Ok(()),
        Err(e) => Err(e@),
    }
}

/// The outcome of a step of `stage` on `order`.
pub open spec fn spec_step(stage: Stage, order: Order) -> Result<(), Seq<char>> {
    if passes(stage, order) {
        Ok(())
    } else {
        Err(failure_message(stage))
    }
}

/// Validation: an order with a zero amount is refused.
pub fn validate(order: &Order) -> (r: Result<(), String>)
    ensures
        unit_result_view(r) == spec_step(Stage::Validate, *order),
        r is Ok <==> order.amount != 0,
        r matches Err(e) ==> e@ == "amount is zero"@,
{
    if order.amount == 0 {
        return Err(Stage::Validate.message());
    }
    Ok(())
}

/// Inventory reservation: the order whose item is out of stock is refused.
pub fn reserve_inventory(order: &Order) -> (r: Result<(), String>)
    ensures
        unit_result_view(r) == spec_step(Stage::ReserveInventory, *order),
        r is Ok <==> order.id != 3,
        r matches Err(e) ==> e@ == "out of stock"@,
{
    if order.id == OUT_OF_STOCK_ID {
        return Err(Stage::ReserveInventory.message());
    }
    Ok(())
}

/// What payment or processing returns, with its error taken by its view.
pub open spec fn charge_result_view(r: Result<u32, String>) -> Result<u32, Seq<char>> {
    match r {
        Ok(c) => Ok(c),
        Err(e) => Err(e@),
    }
}

/// The outcome of charging `order`: the amount, unless it is over the limit.
pub open spec fn spec_charge(order: Order) -> Result<u32, Seq<char>> {
    if passes(Stage::ChargePayment, order) {
        Ok(order.amount)
    } else {
        Err(failure_message(Stage::ChargePayment))
    }
}

/// Payment: an amount over the limit is refused; otherwise the amount is charged.
pub fn charge_payment(order: &Order) -> (r: Result<u32, String>)
    ensures
        charge_result_view(r) == spec_charge(*order),
        r is Ok <==> order.amount <= 1000,
        r matches Ok(c) ==> c == order.amount,
        r matches Err(e) ==> e@ == "amount exceeds limit"@,
{
    if order.amount > CHARGE_LIMIT {
        return Err(Stage::ChargePayment.message());
    }
    Ok(order.amount)
}

/// The first step, in running order, whose check `order` fails, if any.
pub open spec fn first_failure(order: Order) -> Option<Stage> {
    if !passes(Stage::Validate, order) {
        Some(Stage::Validate)
    } else if !passes(Stage::ReserveInventory, order) {
        Some(Stage::ReserveInventory)
    } else if !passes(Stage::ChargePayment, order) {
        Some(Stage::ChargePayment)
    } else {
        None
    }
}

/// The outcome of processing `order`: the message of the first step that
/// refuses it, or the charged amount when every step accepts it.
pub open spec fn spec_process_order(order: Order) -> Result<u32, Seq<char>> {
    match first_failure(order) {
        Some(stage) => Err(failure_message(stage)),
        None => Ok(order.amount),
    }
}

/// Processes `order`: validation, then reservation, then payment; the first
/// step that refuses the order ends the processing with its error.
pub fn process_order(order: Order) -> (r: Result<u32, String>)
    ensures
        charge_result_view(r) == spec_process_order(order),
        r is Ok <==> order.amount != 0 && order.id != 3 && order.amount <= 1000,
        r matches Ok(c) ==> c == order.amount,
        r matches Err(e) ==> e@ == (if order.amount == 0 {
            "amount is zero"@
        } else if order.id == 3 {
            "out of stock"@
        } else {
            "amount exceeds limit"@
        }),
{
    proof {
        lemma_process_order_outcome(order);
    }
    validate(&order)?;
    reserve_inventory(&order)?;
    charge_payment(&order)
}

/// A processed order is charged exactly its amount, and only when every
/// step accepts it; a charged amount is never zero and never over the limit.
pub proof fn lemma_charged_iff_every_step_passes(order: Order)
    ensures
        spec_process_order(order) is Ok <==> (forall|stage: Stage| #[trigger] passes(stage, order)),
        spec_process_order(order) matches Ok(c) ==> c == order.amount && 0 < c <= CHARGE_LIMIT,
{
    if spec_process_order(order) is Ok {
        assert forall|stage: Stage| #[trigger] passes(stage, order) by {
            match stage {
                Stage::Validate => {},
                Stage::ReserveInventory => {},
                Stage::ChargePayment => {},
            }
        }
    } else {
        let stage = first_failure(order)->Some_0;
        assert(!passes(stage, order));
    }
}

/// A refused order is refused by the first step that it fails, and every
/// step before that one accepts it: the steps run in order and the first
/// refusal ends the processing.
pub proof fn lemma_refusal_names_first_failing_step(order: Order)
    ensures
        spec_process_order(order) matches Err(m) ==> exists|stage: Stage|
            {
                &&& !passes(stage, order)
                &&& m == failure_message(stage)
                &&& stage != Stage::Validate ==> passes(Stage::Validate, order)
                &&& stage == Stage::ChargePayment ==> passes(Stage::ReserveInventory, order)
            },
{
    if let Some(stage) = first_failure(order) {
        assert(!passes(stage, order) && spec_process_order(order) == Err::<u32, Seq<char>>(failure_message(stage)));
    }
}

/// The three steps refuse with three different messages, so an error tells
/// which step refused the order.
pub proof fn lemma_failure_messages_distinct(a: Stage, b: Stage)
    ensures
        failure_message(a) == failure_message(b) <==> a == b,
{
    reveal_strlit("amount is zero");
    reveal_strlit("out of stock");
    reveal_strlit("amount exceeds limit");
    if a != b {
        assert(failure_message(a).len() != failure_message(b).len());
    }
}

/// Processing is the step sequence: the outcome is validation's error, else
/// reservation's error, else what payment returns.
pub proof fn lemma_process_is_step_sequence(order: Order)
    ensures
        spec_process_order(order) == match spec_step(Stage::Validate, order) {
            Err(e) => Err(e),
            Ok(()) => match spec_step(Stage::ReserveInventory, order) {
                Err(e) => Err(e),
                Ok(()) => spec_charge(order),
            },
        },
{
}

/// Validation refuses an order exactly when its amount is zero, with the
/// message "amount is zero", whatever the order's id.
pub proof fn lemma_validation_outcome(order: Order)
    ensures
        spec_step(Stage::Validate, order) == (if order.amount == 0 {
            Err("amount is zero"@)
        } else {
            Ok(())
        }),
        passes(Stage::Validate, order) <==> order.amount != 0,
{
}

/// Reservation refuses an order exactly when its id is 3, the out-of-stock
/// order, with the message "out of stock", whatever its amount.
pub proof fn lemma_reservation_outcome(order: Order)
    ensures
        OUT_OF_STOCK_ID == 3,
        spec_step(Stage::ReserveInventory, order) == (if order.id == 3 {
            Err("out of stock"@)
        } else {
            Ok(())
        }),
        passes(Stage::ReserveInventory, order) <==> order.id != 3,
{
}

/// Payment charges the order's amount exactly when it is at most 1000, and
/// otherwise refuses with "amount exceeds limit", whatever the order's id.
pub proof fn lemma_payment_outcome(order: Order)
    ensures
        CHARGE_LIMIT == 1000,
        spec_charge(order) == (if order.amount <= 1000 {
            Ok(order.amount)
        } else {
            Err("amount exceeds limit"@)
        }),
        passes(Stage::ChargePayment, order) <==> order.amount <= 1000,
{
}

/// Each step looks at one field only: validation and payment at the amount,
/// reservation at the id. Two orders that agree on that field get the same
/// outcome from the step.
pub proof fn lemma_steps_read_one_field(a: Order, b: Order)
    ensures
        a.amount == b.amount ==> spec_step(Stage::Validate, a) == spec_step(Stage::Validate, b),
        a.id == b.id ==> spec_step(Stage::ReserveInventory, a) == spec_step(
            Stage::ReserveInventory,
            b,
        ),
        a.amount == b.amount ==> spec_charge(a) == spec_charge(b),
{
}

/// Processing an order: a zero amount is refused with "amount is zero";
/// otherwise order 3 is refused with "out of stock"; otherwise an amount over
/// 1000 is refused with "amount exceeds limit"; otherwise the amount is
/// charged.
pub proof fn lemma_process_order_outcome(order: Order)
    ensures
        spec_process_order(order) == (if order.amount == 0 {
            Err("amount is zero"@)
        } else if order.id == 3 {
            Err("out of stock"@)
        } else if order.amount > 1000 {
            Err("amount exceeds limit"@)
        } else {
            Ok(order.amount)
        }),
{
}

} // verus!
