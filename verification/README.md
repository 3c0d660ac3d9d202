# easy-proxy

One command connects to a company network behind a Sangfor EasyConnect gateway and offers it as
a local proxy: HTTP and SOCKS5 on one port of `127.0.0.1`, or, with `--tun`, as routes and
resolver entries for the whole machine. A daemon keeps the tunnel (`zju-connect`) alive, notices
when the network changes, and brings the connection back, if need be with a login of its own.

## Layout

- `src/` is the logic, written in Verus. Contracts state what the functions return, and Verus
  proves it; what rests on the clock or on the home directory is tied to the call that read it.
  Functions named `law_…` state what holds of the library as a whole, such
  as: a silent login never comes sooner after the last SMS than configured; in the transparent
  mode no probe is sent before the guards have passed; installing twice changes nothing more
  than installing once; a message that is printed through the shell stays one inert word.
- `src/outside.rs` holds the calls into other crates. Their contracts are believed.
- `app/` is the program around the library: arguments, files, processes, sockets, the terminal.
  It performs what the library asks for and reports what happened. It expects `zju-connect`
  beside its own executable.
- `tests/` runs the library on concrete values.
