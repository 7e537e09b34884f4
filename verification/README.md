# async_svc

A service abstraction for asynchronous request/response work, verified with Verus.

A service (`Svc`) takes a request and hands back a future of its response;
futures (`Future`) are driven by polling. Combinators build services out of
functions (`fn_service`), map their responses (`MapSvc`, `SvcExt::map`), chain
two services (`ThenSvc`, `SvcExt::then`), box them (`box_svc`), and build them
from configuration (`SvcFactory`, `fn_factory`).

Every service and future carries a model: whether it is ready
(`can_exec`, `can_poll`), which requests it takes (`accepts`), which responses
or outputs it may produce (`may_respond`, `may_output`), and how one `exec`,
`poll_ready` or `poll` moves it (`execs_to`, `ready_step`, `polls_to`). The combinators are proved to produce exactly
the responses their parts allow, and the laws (chaining is associative,
mapping twice composes the mappers, function, mapped and boxed services keep
taking requests, a chained service runs once, a finished
future is not polled again) are proved as public proof functions.

Layout:

- `src/` — the verified library (`future`, `fn_service`, `map`, `then`, `ext`,
  `boxed`, `factory`, `fn_factory`).
- `tests/` — tests that drive services and futures on concrete values.
- `app/` — bridges between the library's futures and `std::future::Future`,
  and a TCP server (on tokio) that runs one service per connection.
