# orb_control

The decisions of an orb's control tools, verified with Verus.

- `src/backend.rs`: which backend an orb talks to, by the environment and the build.
- `src/main_board.rs`, `src/message.rs`: the main board, its interfaces and its messages.
- `src/script.rs`, `src/commands.rs`: commands as scripts of messages and waits.
- `src/board_info.rs`, `src/info_fetch.rs`: what the main board tells about itself.
- `src/firmware.rs`: updating the firmware and switching images.
- `src/dump.rs`, `src/stress.rs`: dumping messages and stress testing the link.
- `src/p2p.rs`: blob topics and the peers that they yield.
- `src/text.rs`: white space, letter case and decimal numbers.

The library performs no I/O. An operation names its next action, takes what
came of it and goes on; `app/` performs the actions. The drivers of the CAN
interfaces and of the gossip network plug in behind the traits
`can::CanStack` and `p2p::Gossip`.
