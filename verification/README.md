# mcservernap

A daemon that lets Minecraft Java servers nap. It keeps the public port of each server open,
answers server lists while the server sleeps, launches the server when somebody logs in, proxies
to it while it runs and stops it once nobody has used it for a while.

The decisions of the daemon are a library, verified with [Verus](https://github.com/verus-lang/verus):
what is accepted, what is sent, and what happens next are functions from plain values to plain
values, each with a contract that says exactly what it returns. The program around the library
performs the input and output.

## Layout

`src/` is the verified library.

| Module | What it decides |
| --- | --- |
| `config` | which configurations are accepted, and what is prepared from them |
| `minecraft` | the release catalogue, the packet format, the answers of a sleeping server |
| `rcon` | the packets of the remote console |
| `supervisor` | the lifecycle of a server: what an operator or a login may ask for, when a server is launched, when it counts as ready, idle or stable, and how it is stopped |
| `backend_use` | who uses a backend, and since when nobody does |
| `process` | how a server process is launched and ended |
| `runtime` | serving clients, connecting to the backend, letting go of clients |
| `control` | the protocol between the daemon and its command line, and where its endpoint is |
| `coordinator` | activating servers, signals, the orderly end of the daemon |
| `cli` | what the command line prints |
| `text`, `bytes`, `json`, `endpoint`, `context`, `random` | what the others are made of |

Public proof functions state properties that span several functions: that a server is launched
only after every probe was refused, that used servers are never stopped for idleness, that every
prepared server can be answered about within one frame, that what is encoded is decoded again.

A few functions call outside crates (PNG decoding, Base64, TOML, JSON strings, randomness). Their
contracts are trusted; the doc comment of each says what it claims.

`app/` is the program: command line, sockets, files, processes, signals and the clock.

`tests/` runs the library on concrete values.
