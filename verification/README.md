# order_pipeline

Processing of an order in three steps, each preceded by a wait:
validation (a zero amount is refused), inventory reservation (the
out-of-stock order is refused) and payment (an amount over the limit is
refused; otherwise the amount is charged). The first step that refuses an
order ends its processing with that step's message.

- `src/order.rs`: the order, the three steps, their composition
  `process_order`, and the laws about them.
- `src/task.rs`: `OrderTask`, a state machine that says which wait comes next
  and, once resumed, runs the pending check; proofs that it waits before the
  steps in order, stops at the first refusal and ends with what
  `process_order` returns.
- `app/main.rs`: the asynchronous driver: one tokio task per order, the waits
  as `tokio::time::sleep`, and structured logs through `tracing`.
