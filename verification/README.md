# unwrap_rs

The logic of the unwrap.rs portfolio site, written in Verus and proved
against its contracts, with a thin Rust shell around it.

`src/` is the verified library:

- `phase` — the seventeen-step phase cycle of the `.unwrap()` particle
  animation, and how long each step lasts.
- `glyphs` — the stylised glyph of each character of the target text, and the
  random glyphs particles flicker through (drawn with `rand`).
- `particles` — the discrete decisions about particles: kinds of decorative
  particles, the connection lines between text particles, colours and classes.
- `error_boundary`, `status_indicator` — components that keep their state in
  three copies and read it by majority vote.
- `social_links` — the link catalogue, and links whose fields are kept in three
  copies and healed by vote.
- `static_files` — which file a request path names, refusal of unsafe paths,
  and content types.
- `widgets` — classes of the title, subtitle and logo.

`app/` holds what cannot be verified: the Leptos and Yew components (markup,
timers, browser clock), the floating-point particle physics, and the backend
that reads files and answers HTTP requests.
