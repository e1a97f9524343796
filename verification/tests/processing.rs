use order_pipeline::order::{
    charge_payment, process_order, reserve_inventory, validate, Order, Stage, CHARGE_LIMIT,
    OUT_OF_STOCK_ID,
};
use order_pipeline::task::{Action, OrderTask, Phase};

fn err(msg: &str) -> Result<u32, String> {
    Err(msg.to_string())
}

/// Drives a task to its end, recording each wait it asks for.
fn drive(order: Order) -> (Vec<(Stage, u64)>, Result<u32, String>) {
    let mut task = OrderTask::new(order);
    let mut waits = Vec::new();
    loop {
        match task.next_action() {
            Action::Wait { stage, millis } => {
                waits.push((stage, millis));
                task.resume();
            }
            Action::Done => break,
        }
    }
    (waits, task.into_result().expect("a finished task holds its result"))
}

#[test]
fn walkthrough_orders_give_the_documented_results() {
    let orders = vec![
        Order { id: 1, amount: 100 },
        Order { id: 2, amount: 0 },
        Order { id: 3, amount: 500 },
        Order { id: 4, amount: 5000 },
        Order { id: 5, amount: 250 },
    ];
    let results: Vec<Result<u32, String>> = orders.into_iter().map(process_order).collect();
    assert_eq!(
        results,
        vec![
            Ok(100),
            err("amount is zero"),
            err("out of stock"),
            err("amount exceeds limit"),
            Ok(250),
        ]
    );
}

#[test]
fn validate_refuses_only_a_zero_amount() {
    assert_eq!(validate(&Order { id: 1, amount: 0 }), Err("amount is zero".to_string()));
    assert_eq!(validate(&Order { id: 1, amount: 1 }), Ok(()));
    assert_eq!(validate(&Order { id: 3, amount: u32::MAX }), Ok(()));
}

#[test]
fn reserve_inventory_refuses_only_the_out_of_stock_order() {
    assert_eq!(OUT_OF_STOCK_ID, 3);
    assert_eq!(reserve_inventory(&Order { id: 3, amount: 500 }), Err("out of stock".to_string()));
    assert_eq!(reserve_inventory(&Order { id: 2, amount: 500 }), Ok(()));
    assert_eq!(reserve_inventory(&Order { id: 4, amount: 0 }), Ok(()));
}

#[test]
fn charge_payment_charges_the_amount_up_to_the_limit() {
    assert_eq!(CHARGE_LIMIT, 1000);
    assert_eq!(charge_payment(&Order { id: 1, amount: 1000 }), Ok(1000));
    assert_eq!(charge_payment(&Order { id: 1, amount: 1001 }), err("amount exceeds limit"));
    assert_eq!(charge_payment(&Order { id: 1, amount: 0 }), Ok(0));
    assert_eq!(charge_payment(&Order { id: 9, amount: 250 }), Ok(250));
}

#[test]
fn the_first_refusing_step_decides() {
    // Validation runs before reservation, and reservation before payment.
    assert_eq!(process_order(Order { id: 3, amount: 0 }), err("amount is zero"));
    assert_eq!(process_order(Order { id: 3, amount: 5000 }), err("out of stock"));
    assert_eq!(process_order(Order { id: 7, amount: 0 }), err("amount is zero"));
    assert_eq!(process_order(Order { id: 7, amount: 1000 }), Ok(1000));
    assert_eq!(process_order(Order { id: 7, amount: 1 }), Ok(1));
}

#[test]
fn stage_messages_and_delays() {
    assert_eq!(Stage::Validate.message(), "amount is zero");
    assert_eq!(Stage::ReserveInventory.message(), "out of stock");
    assert_eq!(Stage::ChargePayment.message(), "amount exceeds limit");
    assert_eq!(Stage::Validate.delay_millis(), 10);
    assert_eq!(Stage::ReserveInventory.delay_millis(), 30);
    assert_eq!(Stage::ChargePayment.delay_millis(), 50);
}

#[test]
fn task_waits_before_each_step_and_stops_at_the_first_refusal() {
    let all = vec![
        (Stage::Validate, 10),
        (Stage::ReserveInventory, 30),
        (Stage::ChargePayment, 50),
    ];
    assert_eq!(drive(Order { id: 1, amount: 100 }), (all.clone(), Ok(100)));
    assert_eq!(drive(Order { id: 2, amount: 0 }), (all[..1].to_vec(), err("amount is zero")));
    assert_eq!(drive(Order { id: 3, amount: 500 }), (all[..2].to_vec(), err("out of stock")));
    assert_eq!(
        drive(Order { id: 4, amount: 5000 }),
        (all.clone(), err("amount exceeds limit"))
    );
    assert_eq!(drive(Order { id: 5, amount: 250 }), (all, Ok(250)));
}

#[test]
fn task_result_equals_process_order() {
    for id in 0..6u32 {
        for amount in [0u32, 1, 250, 999, 1000, 1001, u32::MAX] {
            let order = Order { id, amount };
            assert_eq!(drive(order).1, process_order(order));
        }
    }
}

#[test]
fn task_phases_and_pending_result() {
    let task = OrderTask::new(Order { id: 8, amount: 42 });
    assert_eq!(task.phase(), Phase::Pending(Stage::Validate));
    assert_eq!(task.order(), Order { id: 8, amount: 42 });
    assert!(!task.is_finished());
    assert_eq!(task.into_result(), None);

    let mut task = OrderTask::new(Order { id: 3, amount: 42 });
    task.resume();
    assert_eq!(task.phase(), Phase::Pending(Stage::ReserveInventory));
    task.resume();
    assert_eq!(task.phase(), Phase::Failed(Stage::ReserveInventory));
    assert!(task.is_finished());
    assert_eq!(task.next_action(), Action::Done);
}

#[test]
fn resuming_a_finished_task_changes_nothing() {
    let mut task = OrderTask::new(Order { id: 1, amount: 100 });
    for _ in 0..3 {
        task.resume();
    }
    assert_eq!(task.phase(), Phase::Charged(100));
    task.resume();
    task.resume();
    assert_eq!(task.phase(), Phase::Charged(100));
    assert_eq!(task.into_result(), Some(Ok(100)));
}
