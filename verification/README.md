# yewuse

Hooks for Yew applications (window size, breakpoints, clipboard, storage,
keyboard and pointer tracking, scroll locking, timers, WebSockets and more),
split into two crates:

- `src/` is the library, verified with Verus. It holds the decisions behind
  each hook as plain state machines and functions with contracts: the counter
  with its bounds, colour-mode toggling, breakpoint ranges, the keyboard's
  pressed-key set, scroll locking and restoring the body style, the idle and
  timer slots, the geolocation request flow, and the WebSocket connection with
  its bounded reconnection. Laws that relate several operations (an unlock
  undoes a lock, a toggle flips the theme, reconnection attempts never exceed
  their limit, ...) are stated and proved as proof functions beside them.
- `app/` holds the Yew hooks themselves: they read the browser through
  `web_sys`, keep Yew state, and hand plain values to the library, carrying out
  the actions it returns.

`tests/` exercises the library on concrete values.
