# lore

The decisions behind Lore's file I/O, content reads and token exchange, written
in Verus and free of I/O.

- `src/` is the verified library.
  - `driver`: backend selection and the whole-file limit.
  - `pool`: the bookkeeping of the syscall pool.
  - `read`: finding a file in a revision, and streaming its content as events.
  - `exchange`, `exchange_laws`: obtaining an authorization token, and what that
    comes to.
  - `auth`, `auth_laws`: resolving an identity and its tokens, and what that
    comes to.
  - `errors`: what errors carry.
  - `cache`, `selection`, `clock`, `text`, `presigned`: what those rest on.
  - `bytes_spec`, and a few items of `clock` and `text`: what is taken on trust of
    `bytes` and of the standard library.
- `app/` is the host: files, threads, locks, channels and routes.
- `tests/` runs the library.

Work that alternates with the outside world is a chain of actions. An action
says what to ask for, and its `next` takes the answer and gives the next action:

```text
exchange(..) -> LockCache -> LoadStoredToken -> .. -> Return
```

Each `next` can be resumed only with an answer to its own question, so a host
cannot put the steps in another order. The laws speak of whole chains: what they
end in, in any world whose answers are a function of the question, and that they
end.
