# bevy_in_app

Embeds the Bevy engine in the native view of an iOS or Android app.

`src/` is the verified library (Verus):

- `app_views` — the registry that maps Bevy window entities to the native
  views that render them, with its laws (what `get_view` finds after
  `create_window` and `remove_view`);
- `view_maps` — the `bevy_platform` hash maps behind the registry, declared to
  Verus, and the trusted wrappers of their methods;
- `asset_path` — file names, extensions and meta file paths of asset paths;
- `asset_io` — the answers of the Android asset reader;
- `motion` — device tilt to arrow-key events, on Android and on iOS;
- `plugins` — which plugins the app runs with on each platform.

`app/` binds the library to Bevy, the NDK and UIKit: the desktop `main`, the
entry points that the host app calls, the asset reader, and the native window
handles. `tests/` runs the library on concrete values.
