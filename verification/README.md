# tdf kitty display logic

The part of tdf that decides what is sent to a terminal speaking the kitty graphics protocol,
directly or through tmux, written in Verus.

- `src/kitty.rs`: placement descriptions (`DisplayLocation`, `DisplayConfig`, the tmux and
  direct placements) and `KittyDisplayRun`, the step-by-step procedure that turns a batch of
  page images into terminal actions and collects the pages whose images failed.
- `src/tmux.rs`: `TmuxPassthroughWriter`, the encoding of output into tmux passthrough
  sequences, with the laws of a write-to-flush cycle.
- `src/placeholder.rs`: unicode placeholder cells, cursor positioning, the shared-memory
  probe name.
- `src/dbg_writer.rs`: `DbgWriter`, which keeps the text written since the last flush.
- `src/image_id.rs`: the per-process image id base and the ids of one-off images.
- `src/decimal.rs`: decimal notation.
- `app/`: the I/O around the library: stdout, the crossterm event stream, kittage actions,
  PNG encoding, the cached id base, and the floating-point page scaling.
