# himawari_wallpaper

Sets the latest Himawari-8 full-disc picture of the earth as the desktop
wallpaper, from a tray icon on Windows.

`src/` is the verified library:

- `raster` — RGB images as plain bytes, placing one image on a black canvas,
  and the calls into the `image` crate (resize, crop).
- `layout` — the tile grid to fetch, the size and position of the earth, and
  the "full" and "half" wallpapers.
- `frame` — the time of the frame to fetch (through `chrono`), its cache file
  name, which cached files are stale, and the one-download-at-a-time gate.
- `decimal` — decimal notation of integers.
- `wide` — NUL-terminated UTF-16 text for the tray icon's fixed fields.
- `tray` — the tray window's state machine, the timer period and the
  download notices.

`app/` is the program around it: network and file access, the clock, the
`wallpaper` crate, threads and the Windows API.
