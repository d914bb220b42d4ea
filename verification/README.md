# hyprland

A client library for the IPC of the Hyprland compositor, written in Verus.

`src/` is the verified library. It builds every text that goes to Hyprland
(dispatchers, hyprctl commands, Lua bindings, window and layer rules,
hyprpaper keywords) and reads every text that comes back (the event socket,
dispatcher replies, hyprpaper answers, colors, gradients and rectangles of
options). Each public function states its result over a mathematical model
(`Seq<char>` texts and views of the library's types); the `law_*` proof
functions state what holds across functions, such as texts that read back
as the value they were written from.

- `text`: the string toolkit the rest is built on (splitting, trimming,
  integer reading and writing, with their models).
- `shared`, `error`, `instance`: common types, the error type, and the
  paths of a Hyprland instance's sockets.
- `dispatch`, `dispatch_new`, `config`, `bind_new`, `window_rule`, `lua`,
  `ctl`, `hyprpaper`: the commands.
- `event_listener`: reading the event socket's text into events, merging
  the two active-window events, and the dispatchers a changed state needs.
- `keyword`, `data`: option values and the data types Hyprland reports.

Two functions of std are trusted (`String::push`, `str::to_lowercase`);
their contracts sit beside the wrappers in `text` and `keyword`.

`app/` holds what touches the outside world: the sockets, environment
variables, JSON decoding with serde, and the event listener that keeps
handler closures.
