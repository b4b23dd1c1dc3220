# herdr_runner

The run-a-command gesture of a file viewer that lives in herdr: `!` opens a prompt, and the
command typed there runs in a new herdr tab rooted at the selected directory, or at the directory
of the selected file. The viewer never executes the command itself.

`src/` is the library, verified with Verus. It performs no I/O: a `Controller` takes in keys and
host answers and says which herdr call comes next.

| module | what it holds |
| --- | --- |
| `runner` | target directory, argument vectors, tab label, history and its walk, pane id |
| `prompt` | the one-line editor |
| `controller` | the session's state, and what keys and host answers do to it |
| `laws` | what holds of the whole, as proof functions |
| `input`, `tree`, `launch` | keys, tree nodes, the guard on host-supplied identifiers |
| `text`, `paths` | what is taken on trust of `str`, `String`, `Path` and `PathBuf`, and what trimmed text and parent directories are |

`app/` is the ordinary Rust around it: terminal keys, herdr's JSON, and the loop that runs herdr.

