# taicho

Taicho is a desktop inspector for [Honcho](https://honcho.dev) workspaces: it
connects to a Honcho server, lists its peers, sessions, messages and
conclusions, shows their details, and lets the user chat with a peer, upload
files and schedule dreams.

The crate is written in Verus. Its library (`src/`) holds the rules of the
application with contracts that Verus proves:

- `domain`: the records shown (pages, peers, sessions, messages, conclusions,
  the work queue) and the upload rules (accepted MIME types, the type guessed
  from a file's extension, file names as `std::path` reads them).
- `error`: the application's errors and what each shows the user.
- `persistence`: connection profiles and their validation, the keychain
  account of an API key, settings and window state.
- `state`: the selection, the inspector sections, the connection state and the
  stack of notifications.
- `actor`: which commands the background actor serves and how (a state
  machine over the connection), the relay of a streamed chat, and the small
  decisions of the command handlers.
- `ui`: what each panel decides — request views, the message feed, the search
  palette, keyboard shortcuts, the upload queue and its runs, the chat
  transcript, the connection form, confirmations and status lines, page links,
  log files.
- `text` and `numeric`: trimming, prefixes, case folding, decimal numbers.

`app/` is the program around it: the Dioxus interface, the actor that talks
to the Honcho SDK, files and the system keychain. It hands the library plain
values and acts on what the library decides.

`tests/` runs the library on concrete inputs.
