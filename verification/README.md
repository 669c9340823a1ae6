# cel-memory

Durable memory for agents across turns, specified and proved with Verus.

A memory holds chunks of text, the sessions they belong to, and logs of what
was deleted and what was retrieved. Chunks are retrieved by text, newest first,
within the scope that the asking caller has. Sessions can be summarized, days
and rules' weeks rolled up, and what is old ages out.

## Layout

- `src/` is the library. `model.rs` describes the memory as a mathematical
  value; the contracts of `basic.rs` and `rollup.rs` say what each operation
  makes of it; `laws.rs` proves what holds of the operations together.
- `tests/` runs the library.
- `app/` is the asynchronous face: a provider trait, a provider whose clones
  share one memory, and conversions to `chrono`, `serde_json` and floating
  point.

## Asking outside

The library asks nobody. A write needs the decision of a hook where there is
one: `admit_write` says whether to ask, and `write` takes the reply. A summary
needs a summarizer: `plan_session_summary` and its siblings say what to ask,
`SummaryPlan::draft` turns the reply into a chunk, and `finish_summary` writes
it and links the summarized chunks to it.

## What is believed without proof

The clock, fresh ids, calendar arithmetic and a few string functions come from
`std`, `chrono` and `uuid`. Each call stands in a small function of its own in
`time.rs`, `ids.rs` or `text.rs`, with the contract that is believed of it.
