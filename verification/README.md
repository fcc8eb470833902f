# chat_config

The configuration of a command-line chat program, as a verified library: its settings, the
roles and models that can be selected, the sessions that are started and ended, where its files
are, and what the user is shown of it.

- `src/` is the library. Verus proves the contract of every function but one, which is named
  below.
  - `config` holds the configuration and the settings that a user changes in it.
  - `dialogue` selects a role and builds what is sent; `models` selects a model and lists what
    the prompt completes; `sessions` starts and ends a session and keeps what was said.
  - `startup` makes a configuration ready; `legacy` takes over the settings of old files.
  - `paths` says where files are; `info` says what is shown.
  - `laws` states and proves what holds of the configuration as a whole.
- `tests/` runs the library on concrete values.
- `app/` is ordinary Rust around it: files, the environment, the terminal.

What a role, a session or a client does of its own (whether a role answers to a name, what a
session makes of a message, how many tokens a text takes) is handed to the library as a function.
The contracts hold whatever those functions answer: they say what each is asked, and what becomes
of its answer. The same goes for reading and writing a temperature, which is kept as the bits of
a double-precision number, and for looking whether a place is there.

One function is trusted to do what its contract says: `read_yaml` in `legacy`, which calls
`serde_yaml::from_str`.
