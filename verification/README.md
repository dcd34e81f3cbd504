# gh_activity

A command-line tool that lists the recent public GitHub activity of a user,
one coloured line per event, with a verified core.

- `src/` is the library, verified with Verus:
  - `text.rs`: character-level helpers (equality, prefixes, decimal notation,
    trimming, capitalising).
  - `username.rs`: which usernames are accepted, and the events address.
  - `event.rs`: the events as the API reports them and their decoding into a
    uniform shape.
  - `render.rs`: the one-line descriptions and their random colours.
  - `http.rs`: status codes, the messages for failed requests, and the
    tool's errors.
- `app/main.rs` is the program around it: argument parsing, the HTTP
  request, JSON decoding, and printing.
- `tests/` exercises the library on concrete values.
