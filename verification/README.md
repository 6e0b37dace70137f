# yterm

A small terminal emulator. `src/` is the verified library (Verus): the
messages between backend and user interface, the table of calls that wait
for an answer, the terminal's text state and the decisions of both event
loops, with UTF-8 encoding of typed characters and decoding of shell output.
`app/` is the program around it: the tokio runtime, pseudo terminals and
`fork` through libc, and the GTK window.
