# drogue_device

A verified core for an async, allocation-free actor runtime for embedded
devices, and for the driver of an ESP8266 WiFi modem that runs on it.

`src/` is the library, verified with Verus:

- `queue`: the bounded FIFO stores of the channels (`heapless::spsc::Queue`),
  each with a name for the items it holds and a contract for each method used.
- `channel`: bounded single-producer single-consumer channels; polls of sends
  and receives, and the waker action each one calls for.
- `signal`: signals and signal slots, which hand a response from an actor back
  to the task that made the request.
- `actor`: an actor's mailbox: requests and notifications, their futures, and
  the steps of the actor's task.
- `protocol`, `esp8266`: AT commands and modem responses; the routing of
  responses and the step-by-step decisions of start-up, reads, writes, joins,
  connects and closes.
- `button`, `device`: a button's events, and the context that starts a
  device's tasks.

The library allocates nothing: the channels are `heapless` queues, the
mailbox keeps its messages and signal slots in fixed arrays, and the driver's
buffers are arrays or borrowed slices.

`app/` holds what waits and wakes: futures over the library's decisions, the
actor task loop, the button task, and the driver's UART and pin I/O.

`tests/` exercises the library on concrete values.
