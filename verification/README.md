# nano_url

A link shortener. The library in `src/` holds its logic, verified with
Verus:

- `codec`: short codes, ids written in base 62 and padded to six symbols,
  with proofs that a code reads back as its id (so distinct ids get
  distinct codes) and that ids below 62^6 give exactly six symbols;
- `text`: the character classes behind the checks (white space, alias
  characters) and trimming of trailing slashes;
- `backend`: the request, error and reply types, the checks on links and
  aliases, short-link building, redirect answers and the recent-links list;
- `create`: the steps of creating a link, as a state machine that the
  application drives around the store;
- `views`: the link form and the recent-links page, with proofs that the
  form's hints agree with the server's checks.

`app/` is the Dioxus fullstack application around it: routing, pages,
server functions and the SQLite store. `tests/` runs the library on
concrete inputs.
