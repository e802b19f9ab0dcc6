# cursive_flexi_logger_view

A log view for terminal user interfaces built with `cursive`, fed by a
`flexi_logger` writer, with its logic verified by Verus.

- `src/` is the verified library: the styled line made of each log record
  (`line`), the ring of the newest 2048 lines (`ring`, `buffer`), the widths of
  lines (`width`), which lines a view draws and what size it asks for (`view`),
  and what showing, hiding or toggling the debug console does (`console`).
- `app/` is the glue to `cursive` and `flexi_logger`: the shared buffer, the
  `View` and `LogWriter` impls, and the debug console functions that act on
  the screen.
- `tests/` runs the library on concrete values.
