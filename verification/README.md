# EasyHDR

Automatic HDR management for Windows: HDR is switched on when a configured
application starts and off when the last one closes.

- `src/` is the library, written and proved with Verus: configuration model and
  icon recovery, process-change detection, the application controller's event
  handling (counting, debouncing, HDR switching), the HDR state monitor's
  message handling, display-configuration structures and HDR support queries,
  Windows version detection, the icon cache's decisions (PNG encoding and
  decoding are calls into the `image` crate), icon conversion, log rotation
  planning, profilers, auto-start and update checks. The contracts state what
  each function returns, except where the result is a clock reading or a
  random identifier; the `lemma_*` proof functions state properties that span
  several calls.
- `tests/` runs the library on concrete values.
- `app/` is the program around it: files, threads, the system queries, and the
  serde form of the configuration file.
