# threema_cli

A lightweight, headless Threema multi-device client, verified with Verus.

The client joins an existing multi-device group as an additional device. It receives and sends
plain-text messages in one-to-one conversations; group conversations are not implemented. Messages
arrive directly from the chat server or reflected from another linked device. A message that is sent
is first announced to the other devices, then handed to the chat server, and reported as sent once
the chat server has acknowledged it. Recipients that are not known yet are looked up at the directory
server and then synced to the other devices.

- `src/` is the library. It takes plain values and says what is to be done; every function states
  what it returns, and Verus proves it. Four small functions are taken on trust instead: they call
  `data_encoding` (hexadecimal text) and the standard library (UTF-8, upper case), and Verus
  believes what they say of those calls. The modules whose names end in `_laws`, and `e2e_runs`, state
  and prove what holds across operations: that a nonce is on the disk before anything encrypted with
  it leaves the device, that a message is announced before it is delivered, that what the chat
  server delivers is reported at most once.
- `tests/` runs the library on concrete values.
- `app/` is the command-line program: files, sockets, encryption (by libthreema) and arguments. It
  performs what the library asks for. Besides printing messages it reads `IDENTITY message text`
  lines from stdin and sends them.
