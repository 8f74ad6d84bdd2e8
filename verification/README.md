# shilpo_m3e

The logic of a Material 3 Expressive component library for gpui, written in
Verus: every function in `src/` carries a contract that Verus proves.

- `src/i18n.rs` — locale catalogue: lookup with fallback, plural patterns,
  Bengali digits, text direction, truncation and labels.
- `src/sensitive.rs`, `src/sensitive_input.rs` — the zeroizing buffer and the
  editing state of the sensitive input (selection, grapheme movement, UTF-16
  offsets for the platform input method, masking).
- `src/text.rs`, `src/strings.rs` — UTF-8 / UTF-16 offset arithmetic and the
  string operations the rest is built on.
- `src/button_tokens.rs`, `src/button_group.rs`, `src/icon_button.rs`,
  `src/split_button.rs` — design tokens, boxes and paint plans of the buttons.
- `src/switch.rs`, `src/components.rs` — layout and paint of switches,
  chips, toggle buttons and checkboxes, and the variants of the simpler
  components.
- `src/color.rs`, `src/argb.rs` — named colours, colour and gradient values
  written as text, packed ARGB colours and their hexadecimal notation.
- `src/carousel.rs`, `src/rail.rs`, `src/recording.rs` — navigation state and
  decisions of the carousel, the navigation rail and the recording picker.
- `src/outside.rs` — the calls into `zeroize`, `unicode-segmentation` and the
  parts of `std` without a vstd specification, with their trusted contracts.

The laws the library keeps are the `law_*` proof functions at the end of
the modules they concern.

`app/` holds the gpui side: floating-point colours and pixel sizes, the input
entity and its platform input handler, views and logging. `tests/` runs the
library on concrete values.
