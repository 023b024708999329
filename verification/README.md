# ts3_client

The workings of a minimal TeamSpeak 3 client for Windows, proved with Verus.

`src/` is the library. It decides; it performs no input or output.

| Module | What it holds |
|---|---|
| `worker` | when to connect, when to reconnect and when to give up |
| `session` | what becomes of commands, voice and news while a connection lasts |
| `snapshot`, `ordering` | the channel tree, sorted |
| `client` | what the window, the HTTP API and the worker say to each other, and the sounds that go with it |
| `api` | the local HTTP API: what a request does and what is answered |
| `config`, `volumes` | profiles and settings, files in older formats, volumes by nickname |
| `interface`, `tray` | what the windows show, what their controls do, the tray icon |
| `audio`, `stream` | when the microphone is sent, frames and packets, layout for a device, and what holds over a succession of callbacks |
| `i18n`, `texts`, `parity`, `text` | Japanese and English texts, filling in placeholders, that the two languages match, text helpers |
| `sync` | locking that survives a panic |

Each function states in its contract what it returns or changes. Properties that span functions are
public proof functions, mostly at the end of a module.

Single-precision numbers (volumes, the threshold of voice activation) are held by their bit patterns.

`app/` is the program around the library: files, devices, sockets, windows, and arithmetic on samples.

`tests/` runs the library on concrete values.
