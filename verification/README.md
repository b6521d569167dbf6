# bakawm

The decisions of a small Wayland window manager as a Verus library: what a
configuration script means, where windows go, what a key or a button does, what
is drawn and in which order, who gets which frame of a screen cast, and what the
control program says. Every function under `src/` is proved against its contract;
`app/` is the ordinary Rust around it that reads files, runs Lua, hands the events
of a seat in and carries out what they lead to, talks over sockets and the session
bus, and does the floating-point arithmetic.

| Module | What it holds |
|---|---|
| `geometry`, `float`, `decimal`, `text` | rectangles and transforms, doubles by their bits, numbers as text, strings |
| `animation` | when an animation is over, and what its value is made of |
| `config` | settings, and how a script's calls and its returned table become them |
| `layout` | which windows are tiled, into which slots, and how they get there |
| `shortcuts`, `actions`, `input`, `events` | keys, buttons, touch, tablets and focus |
| `shell` | moves, resizes, decorations and the requests of clients |
| `render`, `render_helpers` | the elements of an output, blur, borders, damage, shaders |
| `screencasting`, `dbus` | casts, their sessions, and the state of the monitors |
| `ipc`, `ctl`, `session` | the control socket, the control program, and the start of a session |

Doubles are held as bit patterns: comparing, clamping, rounding and converting
them is proved here, arithmetic on them is handed in as a result. Values of the
script arrive as plain tables with the conversions that the runtime offers, and
outside work (a frame, a file, a device) is a step that is asked for, with its
outcome handed back.
