# deltabeer_tui

The terminal client of DeltaBeer, a card-based tab system: users are looked up
by scanning their card, spend from their balance, and administrators top up,
create, update and promote users.

The crate is split in two.

* `src/` is the verified library, checked with Verus. It holds the client's
  state machine and every decision it takes:
  * `text`, `fields`, `model`, `auth`, `key`: texts, input fields, the domain
    values and tokens;
  * `dialog/`, `page`, `app`: the dialogs, the pages, and `App::update`, which
    turns messages into commands for the server (a command that needs
    administrator rights always carries a token);
  * `input`: the card scanner in front of the key map;
  * `execute`, `client`, `error`: which HTTP calls a command takes, in what
    order, what their outcome becomes, and how endpoint URLs are built;
  * `splash`, `runtime`, `config`: the weighted splash pictures, what the
    terminal shows, and the checked settings.
* `app/` is the program around it: the terminal, the event loop, HTTPS with
  `reqwest`, JSON shapes, the settings file, and drawing with `ratatui`.
* `tests/` runs the library on concrete values.
