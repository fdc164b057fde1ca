# quant_pivot_execution

The decision logic of an execution service for prediction markets: which
opportunities become orders, what an order looks like, what the venue's answer
does to the ledger, when a position is sold, and how an account is recovered
after an execution that nobody knows of.

`src/` is the library. Every function in it carries a contract that Verus
proves. It performs no I/O: what storage, the venue, the chain or a hash
function answers comes in as an argument, and where work outside and decisions
alternate the library is a step function from a reply to the next thing to do.

`app/` connects the library to the outside through ports: repositories, venue,
event bus, clocks. `tests/` runs the library on concrete values.

## Modules

| Module | What it decides |
| --- | --- |
| `decimal`, `time`, `text`, `types`, `error`, `alerts` | values |
| `sorting`, `search` | stable sorting, first matches |
| `orders`, `plans`, `order_rules` | orders, frozen plans, venue order rules |
| `intent_service` | creating, approving and ending intents |
| `admission` | whether an approved intent may be submitted now |
| `dispatcher`, `execution_pipeline` | submission and its settlement |
| `entry_trigger` | price triggers with confirmation |
| `entry_condition`, `entry_condition_inputs`, `entry_condition_worker` | condition trees, their inputs and their leases |
| `exit_monitor`, `exit_monitor_service`, `exit_dispatcher` | when and how lots are sold |
| `breaker`, `heartbeat`, `lifecycle` | health, kill switch, events |
| `account_chain_projector`, `fee_settlement`, `evm` | finalized chain events |
| `account_pause`, `account_recovery_service`, `account_recovery_reconciler` | recovery of an account |
| `attribution` | results of finished recommendations |

## What the proofs rest on

Decimal arithmetic is done by `rust_decimal` and calendar arithmetic by
`chrono`. The wrappers in `decimal` and `time` state what is taken from these
crates without proof; nothing else in `src/` is trusted.

Amounts are decimals with a 96-bit mantissa. A sum or product that leaves that
range is reported as `DecimalOverflow` instead of being computed.
