# oxicloud

The decisions behind the services of a cloud storage server, written in Rust
and proved with Verus.

Databases, files, caches, mail and HTTP lie outside the library. A service that
works with them is written as a chain of small types: each stands for one
request to the outside, and the method that takes the reply says what comes
next. The contracts say so exactly, for every reply.

## Modules

- `groups`: subject groups. `reach` says what it means to reach one group from
  another and computes it; `membership` is about nested groups, their circles
  and their depth; `repository` and `service` decide what the replies of the
  database mean.
- `thumbnail`: sizes, names of files, rendering with the `image` crate, serving,
  and generation in the background. `store` models what is kept, so that
  theorems can speak of it over several calls.
- `lifecycle`: events in the life of files and contents, and the handlers that
  answer them.
- `audio`: metadata of audio files.
- `magic_link`: invitations and sign-ins by mail.
- `wopi`: the host side of the protocol of document editors.
- `favorites`, `email`, `errors`, `identifier`, `clock`, `numbers`, `text`:
  shared values.

Public proof functions whose names begin with `law_` state what holds over
several functions or calls.

`app/` holds the ordinary Rust around the library: SQL, the cache, tasks, HTTP
handlers and the types with `serde` derives. `tests/` runs the library.
