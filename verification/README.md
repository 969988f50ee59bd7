# kobo

What an application on an e-ink reader and the runtime that draws it say to each
other, and the library an application is written with, in Verus.

`src/` is the library. Every function in it is verified against its contract.

- **The wire.** `frame` turns a `message` into bounded bytes and back;
  `wire`, `item`, `lists`, `parts`, `prose`, `leaf*`, `node*`, `screen*`,
  `device_*`, `task_codec`, `store_codec`, `shell_codec` and `message_codec`
  hold the format of each part. For each there are four spec functions: the
  bytes of a value, the length they take or why they are refused, what reading
  makes of bytes, and which values come back unchanged. `law_frames_read_back`
  ties them together, and `reading` shows that what was read loses nothing when
  it is sent on.
- **What is said.** `ui`, `glyph`, `make`, `device`, `task`, `store`, `shell`,
  `picture`, `blob`, `message` and `limits`. Each type has a model with the same
  fields over mathematical values.
- **Applications.** `context`, `command`, `handles` and `hardware` collect what
  an application asks for in one callback; `session` decides what becomes of it;
  `runner` drives an application through `KoboApp`; `client` turns commands into
  messages and messages into events.
- **Screens.** `builder*`, `metadata`, `navigator`, `failure`, `name`, `area`
  and `same`.
- **Transfers.** `shelf` moves blobs in pieces; `heartbeat` and `span` keep time.

Version 12 of the format has no form for a section that is a control, progress
through a reading screen, strips and grids of covers, rows with a description,
or requests for the reader's identity and its local day. So there is no
`tappable_section`, `reading_progress`, `image_strip`, `media_grid`,
`described_rows_with_trailing`, `paginate_described_rows_with_trailing`,
`read_identity` or `read_local_day`.

Two things are believed rather than proved: that `std::str::from_utf8` decodes
UTF-8 (`wire`), and that the machine has a clock of which nothing is assumed
(`runner`).

`app/` is ordinary Rust: frames over a stream, the socket loop, and the
pagination that depends on a typesetter. `tests/` runs the library on concrete
values.
