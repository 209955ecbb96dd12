# rs_tcp

A UDP-over-TCP tunnel. The client listens for datagrams and carries them to
the server over one TCP stream; the server hands them to a UDP target and
carries the answers back.

- `src/` is the verified library: the byte-shift cipher (`cipher`), the frame
  format of the stream (`frame`), the authentication message (`auth`) and the
  relay decisions of client and server (`relay`).
- `app/` is the program around it: argument handling, sockets and tasks.
