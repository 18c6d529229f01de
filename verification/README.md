# pomodoro

A desktop pomodoro timer. The library in `src/` holds its logic, proved with Verus:

- `models`: sessions, duration units, clamping and note length.
- `timer`: the deadline-driven countdown. Instants are held as chrono holds them (Unix
  seconds and nanoseconds, leap seconds included), and moving and comparing them follows chrono.
- `commands`: payloads for the interface, the once-a-second loop's decisions (a completed
  countdown is followed by a one-minute screen rest), giving up, starting, and the
  statistics: the seven-day chart and the week total (day labels come from chrono).
- `recovery`: what to do at start-up with a session left running.
- `settings`, `store`, `notify`, `rest`, `screen`, `clock`, `text`: settings sanitising,
  the recorded session, notification text, rest timing, monitor power, calendar and text helpers.

`app/` is the Tauri shell: windows, events, the SQLite session log and the clock.
