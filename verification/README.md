# gremvm

A command that keeps a persistent [Tart](https://tart.run) macOS VM on a Mac: it
installs the VM, has launchd run it in the background, and offers SSH, Screen
Sharing, a recovery console and Tailscale. Each VM has a name, and the command of
that name manages it.

The crate is a library, verified with [Verus](https://github.com/verus-lang/verus),
and a thin program around it.

## How it works

The library decides and does nothing itself. A procedure reads the replies that
the host has given so far; where it needs one more, it stops with a request and
says how many replies to keep. The program does what the request says, appends the
reply, and has the procedure decide anew. So what a command does is a function of
the replies, and "never" can be stated and proved: no list of replies leads to the
request.

- `src/session.rs` holds the requests, the replies and the combinators that
  specifications are written with.
- `src/text.rs`, `path.rs`, `names.rs`, `encoding.rs`, `error.rs`, `command.rs`,
  `facts.rs`, `agent.rs`, `instance.rs`, `host.rs`, `config.rs` and
  `install_state.rs` are the values.
- `src/files.rs`, `process.rs`, `service.rs`, `keychain.rs`, `unlock.rs`,
  `password.rs`, `volume.rs`, `vm.rs`, `machine.rs`, `options.rs`, `install.rs`,
  `remote.rs`, `lifecycle.rs`, `console.rs`, `tailscale.rs` and `cli.rs` are the
  procedures. Each executable function is proved to follow the specification of
  the same name.
- `src/footprint.rs` and `conduct.rs` list what each command can ask for.
- `src/laws.rs`, `headless.rs`, `isolation.rs`, `settings.rs` and `replay.rs` state
  what holds of the commands: that installing starts nothing, that looking at a VM
  changes nothing, that no graphical login is needed, that no two VMs share a file,
  and so on.
- `app/` parses command lines, performs requests and reads and writes the formats
  of the host.
- `tests/` runs the commands on a simulated Mac.

## What is trusted

`hex::encode`, `getrandom::fill`, `String::from_utf8`, `String::from_utf8_lossy`
and `String::push` do what their doc comments in `src/encoding.rs`,
`src/password.rs` and `src/text.rs` say. That the host does what is asked of it,
and reports it truthfully, is up to `app/` and macOS.
