# hummingbird

The verified core of the Hummingbird music player's interface, written in Verus.

- `src/devices/format.rs` — audio stream formats.
- `src/ui/components/popover.rs` — how a popover is anchored for each of its
  twelve positions, with proofs that every position sits on the side it names
  and lines up as it names.
- `src/ui/components/managed_image.rs` — album art: decoding through the
  `image` crate and the RGBA to BGRA reordering the renderer expects.
- `src/ui/library/track_listing.rs` — disc grouping and the track-number
  column width of a track listing.
- `src/ui/settings/interface.rs` — the language, theme and startup-view choices
  of the interface settings page, and its library layout switches.
- `src/ui/troubleshooting.rs` — the troubleshooting report and its operating
  system, CPU and GPU labels (machine facts come from `sysinfo`).
- `src/text.rs` — Unicode white-space trimming and decimal rendering.

`app/` holds what stays outside verification: the database read of album art,
the system memory query, floating-point formatting, and the GPUI layout of the
popover anchor.
