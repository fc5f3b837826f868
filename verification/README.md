# AstroViewer

A live viewer for astronomy cameras: it shows frames of FITS files and of
ToupTek, SVBony, GigE Vision and INDI cameras, records them to FITS, and solves
them against a star database.

- `src/` is the library. It holds the state of a session, the rules of every
  panel, and the text formats: source descriptors, FITS keywords, log lines,
  saved settings. All of it is verified with Verus: each function says in its
  contract what it returns or changes, and the `law_*` proof functions say what
  holds of several of them together.
- `app/` is the program around it: windows, threads, files, and the floating
  point arithmetic of the display. It plays FITS files and drives ToupTek
  cameras. For SVBony, GigE Vision and INDI the library holds the panels and
  their commands, but `app/` has no driver: such a source can be chosen, and
  opening it is reported as an error.
- `tests/` runs the library on concrete values.

Numbers that are floating point in the program are a type parameter `F` in the
library, and what is computed with them is handed in as a closure: the contracts
then say what is done with its results, whatever they are.
