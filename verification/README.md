# predict_fun_sdk

A client for the Predict.fun REST API and websocket feed whose decisions are
proved with Verus.

- `src/` is the verified library: environments and client settings
  (`config`), the endpoint table (`api`), what each REST call sends (`request`),
  request and query payloads (`models`), the websocket protocol (`websocket`),
  the reconnecting websocket session as a state machine (`session`), properties
  that span these modules (`laws`), and the outside calls they rest on
  (`trusted`).
- `app/` holds the asynchronous transport: the `PredictClient` with its HTTP
  calls, the `PredictWebSocket` handle and the task that runs the session,
  and serde copies of the payload types.
- `tests/` exercises the library on concrete values.
