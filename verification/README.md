# coeus

The verified core of a small deployment daemon (`coeusd`) and its client
(`coeus`). The client sends a deploy request over an encrypted TCP stream; the
daemon accepts it, checks out the requested revision of a configuration
repository and runs `nh` to build and then switch to the new system.

## Layout

- `src/` — the library, verified with Verus:
  - `packet`, `envelope`, `wire`: the packets, their envelope and their
    `postcard` wire form;
  - `ids`, `variant`: the checks on packet identifiers and on the shape of
    each variant of a packet enum;
  - `noise`, `handshake`, `frame`, `stream`: the Noise handshake, the sealing
    and opening of frames under per-direction nonces, and the reading and
    writing state of each half of the stream;
  - `psk`: the text form of the pre-shared key;
  - `command`, `deploy`, `options`, `config`, `session`, `cli`: the deployment
    plan, settings, and what each side does with the packets it receives.
- `app/` — the programs: sockets, the async runtime, files, git and processes.
- `tests/` — tests of the library.
