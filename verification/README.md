# day-piece-camera

A camera viewfinder with photo capture for Day apps, with its logic written and proved in Verus.

- `src/` is the verified library. `camera` is what an app asks for; `session` decides what follows
  from each thing that happens to a viewfinder; `run` states what holds over its whole life;
  `photo`, `state` and `report` read what the native sides report, with `text` beneath them;
  `patch`, `native` and `table` are how commands cross to the native sides; `permission` asks the
  OS; `page` is the logic of a page with a viewfinder on it; `support` and `ohos` are about builds.
- `app/` is the Day piece around it: it reads signals, performs the actions, and registers the
  renderers of the three mobile toolkits. It also holds the demo page, and `ohos_build`, which a build script
  calls for HarmonyOS.
- `tests/` runs the library.

The session runs only while the app wants it and only on the camera permission. The OS is asked for
that permission only where the app opted in, and once in a viewfinder's life. A grant that comes after the app stopped wanting the
session starts nothing.
