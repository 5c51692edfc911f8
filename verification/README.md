# PostureFlow

Security posture profiles for Linux laptops (Home, Work, Dev, Travel and
custom ones), the anti-lockout validation of custom profiles, and the
context engines that choose a posture: network rules with evil-twin
detection, application triggers, a circadian schedule with a battery
fallback, hardware tokens and walk-away detection, and a zero-trust
Model Context Protocol server.

## Layout

- `src/` is the library, verified with Verus. Every decision is computed
  there from plain values: which firewall, kernel and power steps apply a
  profile (`system`), whether a custom profile is safe and how it is
  sanitized (`config`), which posture a network, a schedule or a running
  program asks for (`autoflow`, `schedule`, `triggers`), the security score
  and the socket inspector (`inspector`), the MCP ratchet and reply texts
  (`mcp`), and the parsers of the command outputs the daemon reads
  (`network`, `inspector::ports`, `hardware`).
- `app/` is the daemon around it: the command line, the D-Bus service,
  the background monitors, and everything that touches files, commands and
  the bus. It hands the library what it read and carries out the plans it
  gets back.
  `--mcp` serves the Model Context Protocol over stdin and stdout;
  `--applet` runs the panel applet (its StatusNotifierItem and DBusMenu
  objects and its event loop), and `--cycle` switches the daemon to the
  next profile. What the applet decides on each event (notification
  texts, daemon calls, the status summary, the state it shows, menu items,
  tray title and tooltip, click and scroll actions) is in `src/applet`.
  The settings window is not part of this crate.
- `tests/` exercise the library on concrete values.
