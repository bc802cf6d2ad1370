# zerofs

Configuration and start-up logic of a filesystem server that keeps its data in
an object store, verified with Verus.

`src/` is the library. Each public function states in its contract what it
returns; what holds across functions is stated in public proof functions.

| module | what it holds |
| --- | --- |
| `text`, `lines`, `decimal` | characters, white space, replacement; lines and comments; decimal numbers |
| `expand` | environment variables in configured text |
| `address` | socket addresses and sets of them |
| `compression`, `replication`, `tuning`, `provider`, `settings` | the sections of a configuration |
| `render` | the configuration file of a new installation |
| `cache`, `engine` | cache budgets, engine settings, modes of opening the database |
| `listeners` | what the servers listen on |
| `run` | the steps of a server process, from an open filesystem to its end |
| `otrace` | one line of text per traced object-store request |

`app/` is ordinary Rust around the library: the configuration file as serde
reads and writes it, the caches and the storage engine, and the process that
performs the steps that `run` asks for. The filesystem, its protocols and its
stores come in through the traits of `app/platform.rs`.

Sizes are written in gigabytes, as floating-point numbers; the library holds
them in bytes.
