# hermione terminal

A terminal user interface for keeping workspaces and the commands run in
them. This crate is its verified core, written in Verus:

- `src/input.rs`, `src/smart_input.rs`, `src/forms.rs`: text inputs, the
  search-or-command prompt under the lists, and forms of several inputs.
- `src/models/`: the screens. Each holds its state, states as a spec
  function what every message does to it, and proves its `update` against it.
- `src/routes.rs`, `src/params.rs`, `src/parameters.rs`: where a screen can
  send the terminal, and with which parameters.
- `src/program/`: the state machine of the terminal program: from a key
  press to the next state and the request for the services, and from their
  answer to the next state.
- `src/router.rs`, `src/router/`: what the router shows after a change.
- `tests/`: scenarios run against the compiled library.
- `app/`: the command line and the terminal loop: reading keys, drawing, and
  answering the program's requests.
