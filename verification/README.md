# masonry widgets

A library of GUI widgets — buttons, checkboxes, radio buttons, labels,
pagination, grids, stacks, flex containers and more — written in Verus: the
state of each widget and what it does when the user acts on it, or when it is
edited, is stated in `requires`/`ensures` contracts and proved.

- `src/` is the verified library. `widget.rs` holds the shared vocabulary
  (child pods, framework requests, input events, `f64` values carried by their
  bits); each widget has a module of its own. The larger proofs are in
  `pagination.rs` (which pages get a button, and how the existing buttons are
  reused), `grid.rs` (placement of children without an explicit cell, with
  the law that the areas found do not overlap), `label.rs` (a style set with
  one property per kind) and `radio_button.rs` (at most one selected button
  per group). `portal.rs` and `scroll_bar.rs` decide how scrolling containers
  answer keys and accessibility actions.
- `tests/` exercises the library on concrete values.
- `app/` is the glue to the outside world: conversions from `ui-events` and
  `accesskit` events, accessibility roles, checks of the preconditions before
  calls, and the few computations on `f64` values that the library leaves out.
