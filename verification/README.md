# filen-menubar

A tray application for Filen cloud sync on macOS and Linux. It runs the
bundled Filen CLI in continuous-sync mode, follows its output and shows the
sync state, pending files, the current transfer and a history of recent file
operations in the system tray.

## Layout

- `src/` is the library, written in Verus. Verus proves each function
  against its contract, except a few small trusted wrappers (marked
  `#[verifier::external_body]`) around the clock, the environment's
  directories, the file system, the system locale, Unicode lowercasing,
  UTF-8 checking and lossy decoding, `String::from_iter` and the texts of I/O
  and JSON errors, whose contracts are taken on trust. Functions whose answer comes from the machine (a file's existence,
  the system locale) state what holds whatever the machine says. The modules:
  - `state`: the sync state machine and the observable application state;
  - `cli/`: framing of the CLI's JSON and stderr output, UTF-8 extraction from
    partial reads, event handling, network-error detection, process lifecycle
    (start permits, generations, stale exits) and CLI discovery;
  - `activity`, `activity_view`: the bounded, persistent history of file
    operations and the rows of the Recent Activity window;
  - `login`: the prompt driver of the interactive CLI login and the single
    login slot;
  - `tray`, `tray_menu`: menu layout, icons, status lines and the retry timers;
  - `config`, `credentials`, `logging`, `locale`, `paths`, `update`, `error`:
    configuration values, data and log locations, language choice, release
    version comparison and error messages.
- `tests/` exercises the library on concrete values.
- `app/` is ordinary Rust around the library: files, processes, the login
  pseudo-terminal, logging, translations, JSON forms of the library's values
  and the tray actions. The desktop shell supplies the tray, dialogs and the
  location of the bundled CLI.
