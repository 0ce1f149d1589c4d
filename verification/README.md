# rs_matter_stack

The decisions of a Matter stack, verified with Verus.

- `src/` is the library. Its functions take a state and an event, or the outcome of an action, and
  give the new state and the next action, so that everything that is decided is proved, and
  nothing in it waits, sends or reads.
  - `netif`, `oper`, `stack`: which interface the stack runs on, and when it has to start again.
  - `mdns`, `udp`: the steps of the mDNS service, and addresses.
  - `persist`: keys, files, and what is stored when.
  - `wireless`, `wifi`: the known networks, their commissioning, the controllers and the managers
    that keep the device connected.
  - `flow`: the life of the stack over Ethernet, wireless networks and BLE.
- `app/` performs the actions: sockets, files, radios, timers and tasks.
- `tests/` runs the library on concrete values.

What is taken from other crates without proof stands in `text`, `digits`, `netif` and
`wireless::proxy`, where a comment says for each such function what is relied on.
