# nooboard_gui

The state and decision logic of the nooboard desktop client, written in
Verus and proved against its contracts.

- `src/bootstrap`: the configuration chooser (presets, picked files and
  folders, the actions of the chooser window and the launch hand-off).
- `src/clipboard`: the committed-history window with its detail cache, the
  edit session, the broadcast targets, and what the clipboard page renders.
- `src/network`: the direct-seed editor and filter, pending actions, and
  what the network page renders.
- `src/settings`: the section drafts that follow workspace snapshots
  without overwriting edits, the checks made before a save, and the
  storage units.
- `src/home`: the control dock, the recent-activity card and the clipboard
  panel of the home page.
- `src/assets.rs`: the table of bundled icon paths, with lookup and sorted
  listing.
- `src/text.rs`: the string operations the pages use (trimming, searching,
  reading a port number), std's `String::push` and `str::to_lowercase`
  behind contracts, and small formatters.
- `app/`: the command-line entry point, the decimal (floating-point)
  amounts of the storage fields, and the drivers that run the chooser's
  outside work around the verified controller.
- `tests/`: tests of the library on concrete values.

## Collections

What the logic relies on of each collection is stated in its model:

- the network page keeps the ids of the seeds, requests and sessions with an
  action running in `HashSet<u128>`s, whose view is the `Set` of ids that
  the contracts speak of;
- the history window is a `Vec` of pages, newest first, each page non-empty,
  and the detail cache is a `Vec` of records, oldest stored first, in which
  no event occurs twice (`HistoryView::wf`);
- the selected broadcast targets are a `Vec` of session ids in strictly
  increasing order, so each id occurs once.

The history window, its cache and the broadcast targets are held as `Vec`s
because their contracts speak of positions and order: which page is evicted
from which end, which cached record was stored first and is dropped first,
and in which order the selected sessions are listed. A `Seq` states these
directly; a map keyed by event id would keep the lookup but not the order
of storing, which the cache would then have to keep a second time beside it.
