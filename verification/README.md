# webds

WebDS (Web Desktop Share) streams a Wayland desktop to a browser as H.264 and
replays the browser's keyboard and mouse input on the desktop.

- `src/` is the library, checked by Verus:
  - `hid` reads the browser's input commands (`mma`, `pm`, `rm`, `pk`, `rk`)
    into actions and Linux input codes;
  - `cap` holds the capture decisions: which compositor globals to bind, when
    to set up a new shared-memory buffer, the XRGB to RGB pixel conversion, the
    key-frame schedule and the queue of clients;
  - `encode` converts frames to YUV 4:2:0 and drives the OpenH264 encoder;
  - `net` reads the TLS certificate chain and key from PEM, tells TLS from
    plain HTTP and builds the `https` redirect;
  - `args` reads the command line with clap, against a model of what clap
    does with the program's arguments;
  - `text` holds the character-level reading that the others share.
- `app/` is the program around it: the Wayland connections, the threads and
  channels, the HTTP/WebSocket server and TLS.
- `tests/` runs the library on concrete inputs.

The server reads `index.html`, `cert.pem` and `key.pem` from its working
directory.
