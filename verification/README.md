# recorder

The logic of a small desktop recorder: a tray application whose main window
can be pinned above the others and opens next to the mouse, plus two capture
programs (screen to WebM, camera preview).

- `src/` is the library, verified with Verus:
  - `config` — the settings and the cache that serves them;
  - `windows` — placing the main window at the mouse, finding the monitor
    under the mouse, pinning the window;
  - `tray` — the tray menu, what its entries do, the pin events;
  - `lifecycle` — start-up notices and run-loop decisions;
  - `capture` — pacing of the capture loops.
- `app/` is the desktop program around it (windowing, tray, I/O, JSON).
- `tests/` exercises the library.
