# seatd

A seat daemon: one client at a time opens the seat and, through the daemon,
the graphics (DRM), input and terminal devices it needs; the daemon keeps the
devices open and hands their file descriptors to the client.

- `src/` is the verified library. `server` decides every request against the
  seat's state (`SeatState`), stated over the model `SeatView` and the step
  functions beside it; `client` reads the server's answers and makes the
  client calls over a transport it is given; `cli` maps the command line to
  commands and their answers to what is printed; `drm` and `vt` hold the ioctl
  encodings and device-path rules; `text` the string helpers; `laws` the
  properties that hold across operations.
- `app/` is the program: the socket server and its event loop, the transport,
  the ioctls, and printing.
- `tests/` exercises the library.
