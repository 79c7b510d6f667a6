# gpui_native

A verified model of GPUI's native platform controls (AppKit elements on macOS,
the UIKit platform glue on iOS), written in Verus.

`src/` is the verified library. For every native element it holds the builder,
the configuration handed to the native layer, the raw values of its style
enums and, where an element keeps a native control between frames, the plan of
native operations each paint performs. Laws proved there include:

- after a paint plan is carried out, the native control shows the element's
  settings (visual effect, stack view, stepper, sidebar, switch), and each plan
  names the settings to remember for the next paint;
- repainting an unchanged element only moves its control;
- selections and indices handed to native lists always name an existing row;
- a toolbar's list of allowed identifiers repeats none when the window's own,
  default and selectable lists repeat none, and ensuring the sidebar's toolbar
  items is idempotent;
- the per-thread task timing log never holds two neighbouring records for the
  same spawn site;
- the log relay writes a line at most once to a stream that was open, and
  reconnects no more often than the cooldown allows.

`app/` is ordinary Rust around the library: the `log` backend with its TCP
relay, the dispatcher's timing bookkeeping, and the elements whose settings are
floating-point numbers (sliders, steppers, progress indicators, sidebars with
pane widths, table, collection, outline, glass effect and image views), which
the library leaves to the glue.

`tests/` exercises the library on concrete values.
