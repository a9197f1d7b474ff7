# request_metrics

Sampled request-phase metrics for a Java client with a native core, and the native side of its
callback delivery. The logic is written in Verus: contracts state what its functions return and
change, and are proved. Where the time, chance or another thread decides, they state what holds
whatever comes of it; of the clock that `Clock::new` starts, for one, nothing can be said.

## Layout

- `src/metrics/` samples requests, follows each sampled one through its phases, and buffers what it
  reports until a consumer drains it. `laws.rs` states what holds of whole lifecycles.
- `src/callback/` takes completed commands to the workers, settles the race between completions and
  timeouts, and says step by step how a callback is completed.
- `src/response/` estimates the size of responses, chooses how they are converted, writes large ones
  down as bytes, and keeps the native memory that holds them.
- `src/bridge/` decides about calls into the virtual machine: their order, what their answers mean,
  cached methods, clients and worker threads.
- `src/serial.rs` and `src/text.rs` hold serial numbers and decimal digits.
- `tests/` runs the library.
- `app/` is the shell around it: locks, threads, the runtime, and the calls into the virtual machine.

## Time, chance and sharing

A function that reads the clock says that the moment is one that the clock of the request or of the
state shows. It has a twin that is told the moment; the twin's name ends in `_at`, and its contract
is exact. The functions that decide about sampling start a request as `start_pending_preselected`
does, whose twin serves them too. Sampling takes its percentile from a `Sampler`.

The library works on exclusive references, and the shell puts locks around what threads share. A
`PhaseTimer` therefore names its request by number and is handed that request to close its phase.
What happens when the last clone of a timer goes away is `PhaseTimer::drop_last`, which the shell
calls from its destructor.

## What is trusted

- `tokio::time::Instant::now`, of which nothing is claimed.
- `tokio::time::Instant::duration_since`, named `time_between`.
- `std::time::Duration::as_nanos`, named `total_nanos`.
- `rand::rng` and `random_range`, for a number below a bound.
- The `Debug` text of `redis::Value`, named `debug_text`.
- `dashmap::DashMap::new`, `insert`, `get` and `remove`, over the contents named `native_buffers`.
