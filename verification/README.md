# rdw

The logic of a remote desktop widget, verified with Verus: what the display widget
does with keys, grabs and the cursor, how the framebuffer is updated, and what the VNC,
RDP, Spice and QEMU displays send to their servers and do with what comes back.

The GTK widgets, the protocol sessions and the audio pipelines run around this library;
it takes and gives plain values. Each public function states its result, except where
the result comes from the machine or process-global state (installing the logger, the
host's name and platform).

Layout of `src/`:

- `display.rs`: key press/release synthesis, grabs, cursor choice, resize requests.
- `paintable.rs`: the framebuffer's size, pixel format and area updates.
- `enums.rs`, `ffi.rs`: scroll directions and the grab and key-event flags.
- `rdp/`: fast-path input events, clipboard formats and UTF-16 text, the connection
  state and clipboard exchanges, sound formats.
- `vnc.rs`, `spice.rs`: pointer masks, key events, authentication and encodings,
  clipboard formats, surface ranges.
- `usbredir.rs`: device names and paths, redirection state, stream polling.
- `gstaudio.rs`: audio streams by id and the captured sample queue.
- `keymap.rs`, `launcher.rs`, `logger.rs`, `text.rs`, `seqs.rs`: keycode tables, the
  launcher's choices, the logger, text and sequence helpers.

`app/` holds the command-line launcher.
