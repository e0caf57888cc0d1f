# sumplayer

The core of the SumPlayer desktop browser, verified with Verus: the tab strip, bookmarks,
history, downloads, window geometry, and the request handling of the local HTTP control
server (port 17580), each with contracts over mathematical views.

## Layout

- `src/` — the verified library.
  - `tab_manager.rs`: tabs, the active tab, pinning, reordering, the stack of closed tabs,
    URL resolution and the layout of the content area.
  - `bookmark.rs`, `history.rs`, `download.rs`: the stores, with their invariants.
  - `window_state.rs`: the saved window geometry and where to put the window on start.
  - `control_server.rs`: starting the server, local-address filtering, query strings,
    parameter reading and the route table.
  - `routes.rs`: what each route asks of the browser, and the replies that do not depend on
    the browser's data.
  - `scripts.rs`: the page scripts the browser sends, each stated as text.
  - `screenshot.rs`, `urlcodec.rs`, `clock.rs`, `text.rs`, `seqs.rs`: base64 payloads,
    URL encoding, time, string and sequence helpers.
- `tests/` — tests of the library on concrete values.
- `app/` — the Tauri program around the library: commands, webviews, files, the HTTP
  socket, and zoom factors (floating point).

## Collections

Text-keyed sets and maps are held as vectors with a stated invariant: the query parameters
as a `Vec` of pairs whose keys are distinct, the tracked download paths as a `Vec` without
repeats, and the urls already found by a history search as the results found so far. The
std `HashMap<String, _>` and `HashSet<String>` were not used because vstd's specifications
for them give no usable view of their contents with `String` keys.
