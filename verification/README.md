# qbz

The logic of a music streaming renderer, verified with Verus.

`src/` is the library. Each public function states what it returns or changes,
and Verus proves it.

- `stream_config`, `stream_buffer`, `media_source`, `stream_laws`: the buffer
  between a download and its decoder, with seeks that move the download.
- `remote_stream`: probing a remote track, and where a download goes next.
- `decode`, `playback_engine`, `writer`, `volume_curve`: decoding packet by
  packet, the playback engines and the threads that write to them.
- `cmaf`, `cmaf_segment`, `cmaf_download`: segmented streams.
- `playback_cache`: the index of the cache on disk.
- `queue`, `renderer_model`, `renderer`, `renderer_command`, `materialize`: the
  cloud's queue and commands, applied to a player.
- `engine`, `report`, `sink`, `service`, `pairing`: loads, reports, session
  events, connections and local pairing.
- `text`, `json`: text, and the reading of JSON through `serde_json`.

What waits, reads or sends is a state machine in the library: it says what to do
next and takes in what came of it. `app/` does these things, with files, sockets,
threads and clocks, and holds what is floating point.

`tests/` runs the library on concrete values.
