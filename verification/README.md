# prtsc

A screen capture and recording tool built on the XDG Desktop Portal. Without
arguments it captures a screenshot once and prints the saved location,
`prtsc record [path]` records a screencast to an MP4 file until Ctrl-C, and
`prtsc mcp` exposes the capture action as an MCP tool over stdio.

- `src/` is the library, written in Verus: the decisions of the command line,
  the MCP replies, the negotiation of pixel formats, and the recorder, from raw
  frames to the bytes of the file. What the library relies on in the outside
  crates `openh264`, `mp4` and `rmcp` is stated at the functions that call them.
- `tests/` runs the library with the real encoder and muxer.
- `app/` is the program around it: arguments, the portal, PipeWire, and files.

The functions named `law_..` state what holds of the library as a whole: for
instance that whatever happens to a stream, the file of its recording holds
exactly what the encoder gave out, and that a player reads the encoder's units
back out of the samples.

A frame buffer is taken in only if it holds a whole frame of even width and
height; the program stops on any other, and asks `EncodeState::can_process`
first.
