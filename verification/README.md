# exam_client

Verified core of a Windows exam-monitoring client (Tauri 2): it shows the exam
page full screen, blocks shortcut keys and system functions, and lets only the
administrator leave. A sealed state file detects an exit that did not go
through the administrator: the next start shows a lock screen.

- `src/` — the library, verified with Verus:
  - `config`: the configuration and its defaults;
  - `state`: the state record and the verdict of the start-up check;
  - `sealed_state`: the state file's format (nonce + AES-256-GCM);
  - `admin`: bcrypt password check and the exit / unlock commands as a state machine;
  - `keyboard`: which keystrokes the low-level hook swallows;
  - `startup`: the start-up plan (lock screen or exam window, policy writes, hook);
  - `search`: where the configuration and state files are looked for.
- `app/` — the Windows/Tauri shell: files, registry, hook installation, windows.
- `tests/` — tests of the library.
