# moonwave

Request redirection for the game client, as a verified library.

- `src/` holds every decision the hooks make, each with a contract proved by Verus:
  - `url`: splitting a URL into host and path-and-query, the Epic Games host
    test, and joining a URL back (with the round-trip laws);
  - `curl_hook`: what the `curl_easy_setopt` hook hands on for each option;
  - `hooking`: the hook installation steps as a state machine;
  - `maps`: reading a library's base address from `/proc/self/maps` lines;
  - `cfnetwork`, `protocol`, `wkwebview`, `partyhub`: the iOS and JNI side
    decisions (GraphQL rewrite, which requests the URL protocol takes, the web
    view navigation policy, the record of original delegate methods);
  - `text`: the character-level string model these share.
- `app/` holds the FFI, hooking, Objective-C runtime and logging code that
  performs those decisions on Android and iOS.
- `tests/` runs the library on concrete inputs.
