# library_frontend

The client side of a small library-management site: a catalogue of titles
that signed-in readers borrow and return, and that administrators edit,
with an administration page for accounts and loans.

- `src/` is the verified library. It holds the records the server sends
  (`models`), the requests the site sends and how it reads the replies
  (`api`, with `json` for reading one member of a JSON reply), the state
  kept across pages (`state`: session, toasts, title cache), the request
  sequences behind restoring a session, signing in and registering
  (`flows`), the form rules (`forms`), the catalogue page's decisions
  (`catalog`), what each button does (`actions`), the page frame
  (`pages`) and text helpers (`text`). Every function carries a contract
  that Verus proves; the laws of the library are public proof functions
  named `law_*`.
- `app/` is the Dioxus web application around it: components, the HTTP
  calls, the browser storage and the timers. It hands the library plain
  values and carries out what the library decides.
- `tests/` runs the library on concrete inputs.
