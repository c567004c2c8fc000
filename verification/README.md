# cairo_wasm_interface

Compiling, running and testing Cairo projects that are held in memory, without a file system.

`src/` is a library that Verus verifies. It describes the database that a project is compiled in
(which crates are registered, with which files and settings), and decides, step by step, what is
done with it and what is returned. `app/` performs those steps with the Cairo tool chain.

| Module | What it holds |
| --- | --- |
| `text`, `path`, `entries`, `number` | strings, paths, string-keyed lists, and how numbers are written |
| `directory`, `embedded` | directories in memory, from lists of files and from embedded bytes |
| `edition`, `config`, `database` | editions, crate configurations, and the database itself |
| `project` | registering projects and their dependencies |
| `compile`, `run`, `starknet`, `test_runner` | the four kinds of work, each as a session |
| `error` | what can go wrong |
| `laws`, `traces` | what holds of projects and of sessions as a whole |

A session says what is to be done next (`action`) and takes note of what came of it (`advance`)
until it is finished.
