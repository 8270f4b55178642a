# cshop-ui

The interface of the C-Shop image editor, split in two.

- `src/` is a Verus library: the decisions the interface takes without
  needing a window. The user operations whose decisions take plain values
  are `Action`s, applied in one place, `shell::run`, which returns the
  shell's next state and the work the window must do on the documents; the
  menu bar says which entries are live and which action each queues.
  Operations the shell decides nothing about are handed back unchanged as a
  `Task`; those whose settings are floating-point or the core's own values
  (filter and adjustment settings, typed text, shape geometry, layer
  styles, resampling) are not `Action`s at all and belong to the window.
  The canvas's pointer handling is `canvas::canvas_step`: which handler
  takes an event, and what the active tool does with it; `strokes` says
  where a stroke paints and whether it becomes an undo step, and
  `text_edit` what each editing step does to the type and its caret.
  Beside that: which
  tab keeps focus when one closes, where a new,
  copied, pasted or dragged layer goes, what the status bar and the notices
  say, which files a folder lists and in what order, when a layer thumbnail
  is stale, which menu entries are live, how a canvas resize shifts the
  layers, how byte counts are written. Each public function states its result
  in its `ensures`, and the properties that span several calls are public
  proof functions beside them.
- `app/` is the egui window around it: drawing, the GPU textures, the file
  system, the system clipboard, worker threads, and the floating-point view
  geometry. It reads what the library needs, hands it over as plain values,
  and carries out what comes back.
- `tests/` exercises the library from outside.

The only outside code the library calls directly is `ahash`'s map, which
holds the thumbnail stamps, and `str::to_lowercase`, which the file and
profile lists sort by; both are behind small trusted wrappers in
`src/thumbs.rs` and `src/listing.rs`.
