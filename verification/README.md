# typestate_bitcoin_handshake

The Bitcoin P2P handshake (version / verack in both directions), written with the typestate
pattern, with its contracts and laws proved.

- `src/handshake.rs`: the typestates (`Initial`, `SentVersion`, `Received`, `SentAck`,
  `ReceiveAck`, `ReceiveVersion`, `AckAfterVersion`, `Completed`) and the transitions between
  them; `read_message` tells the handshake messages apart.
- `src/session.rs`: one run of the handshake as a state machine over those typestates, its
  specification (`step`, `run`) and the properties proved of it (completion exactly when the
  peer sent both messages before its messages ended, one acknowledgement for the peer's
  version message, finished runs stay finished).
- `src/message.rs`: the messages as plain values and the construction of our version message.
- `src/codec.rs`: framing of messages on a byte stream, on top of the `bitcoin` crate's
  decoder and encoder.
- `src/connection.rs`: the reader's and writer's decisions on the outcome of socket I/O.
- `app/`: the program: command line, TCP connections, tokio channels and the loop that drives
  a session.
