# rsmpv

Bindings for [libmpv](https://mpv.io/), the embeddable mpv media player, whose
logic is verified with Verus: typed properties, owned events and nodes, handles
and their life cycle, custom stream protocols, and the render API.

- `src/` is the verified library. It decides which libmpv function is called
  with which arguments, and what the reply means, on plain values. It makes no
  call itself.
- `app/` connects it to the C library: FFI declarations, conversion between C
  memory and the library's values, and the owners of what libmpv holds pointers
  to (callbacks, streams, handles, render contexts).
- `tests/` runs the library, partly against a core that lives in memory.

## Quick start

With the types of `app/`:

```rust
let mut mpv = Mpv::builder()?
    .set_property("vo", "null")?
    .set_property("ao", "null")?
    .build()?;

mpv.command(&["loadfile", "video.mkv"])?;
mpv.observe_property(1, "playback-time", Format::Double)?;

loop {
    // None = timeout or spurious wakeup; keep waiting.
    match mpv.wait_event(-1.0) {
        Some(Event::PropertyChange { name, data, .. }) => println!("{name}: {data:?}"),
        Some(Event::EndFile { .. }) | Some(Event::Shutdown) => break,
        _ => {}
    }
}
```

## What is proved

- A structured value reads back from its C representation as itself, and so
  does what a property is set to.
- Strings with a NUL never reach libmpv: exactly those requests are refused.
- An event carries the userdata of its request, its value follows the requested
  format, and fields that an old libmpv lacks are never used.
- A handle that was created is owned by a player, or destroyed.
- A callback is in its cell whenever libmpv may dispatch through it, and every
  callback ever set is released exactly once, the last one after the mpv object
  is gone. So is what else the owner holds for that object.
- A stream never reports more bytes than the buffer holds, and probing its size
  leaves its position where it was.
- A software surface is accepted exactly if its size is not negative, a row
  holds its pixels and the buffer holds `stride * height` bytes; then every row
  that mpv writes lies in the buffer.

Not proved, but relied on: what `String::from_utf8_lossy` and
`core::str::from_utf8` return, as their documentation says.

## Linking

`app/build_script.rs` is the build script of a crate that links libmpv, found
via `pkg-config` (package `mpv`). `MPV_LIBRARY_DIR` names a directory with the
library instead, and `MPV_NO_PKG_CONFIG` asks for a plain `-lmpv`. Minimum
supported libmpv: client API 1.108 (mpv 0.33); written against client API 2.5.

The mpv library is GPLv2+ by default, or LGPLv2.1+ when it is built with
`-Dgpl=false`.
