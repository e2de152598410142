# signal_wm

The decision logic of the Signal Wayland compositor, verified with Verus.

- `src/cli.rs`: the values the command line takes, their names and defaults.
- `src/config.rs`: the configuration file's contents, defaults, and the fallback
  to defaults when the file cannot be read.
- `src/builder.rs`: assembling a server from the command and the configuration.
- `src/server.rs`: the listening socket's name and path, the reading of poll(2)
  outcomes, and the event loop's step-by-step decisions.
- `src/decimal.rs`: decimal notation of socket ids, proved to name each id once.
- `app/`: the program around the library — argument parsing, logging, reading the
  configuration file, the wayland display, the window, and the loop that performs
  what the library decides.
