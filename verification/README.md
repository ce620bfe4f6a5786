# openharmony_ability

Verified core of an OpenHarmony (HarmonyOS) native-ability runtime: the
state machines and rules behind the ArkTS bridge, written in Verus and proved
against their contracts.

## Layout

- `src/` — the verified library.
  - `registry`, `app_state`, `window`, `version`, `lifecycle`: per-process and
    per-app state (want parameters, window labels, continuation, render owner,
    surface and decoration latching, sub-window ids, API levels) and the
    steps a lifecycle callback takes.
  - `bridge` and the plugin modules (`accessibility`, `account`,
    `app_control`, `autostart`, `deep_link`, `fault_injection`, `menu`,
    `permission`, `process`, `resource`, `screenshot`, `shortcut`,
    `statusbar`, `updater`, `webview*`, `demo`): the typed bridge contracts,
    request validation, answer checking and error classification.
  - `text`, `keyed`, `nested`: verified text helpers and sorted text-keyed maps.
  - `cursor`: cursor-lock checks and the mapping of window-manager answers.
- `app/` — the host around the library: process-wide state behind locks, the
  window-manager and ArkWeb calls, the JSON wire forms of the library's types,
  and the execution of lifecycle steps.
- `tests/` — scenario tests of the library.

Laws of the library are the `law_*` proof functions in `src/`.
