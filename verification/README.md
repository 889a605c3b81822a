# vdisplay

The verified core of a macOS menu-bar tool that adds a virtual screen at a
chosen size (in points) and density (1x or 2x).

- `src/` is the library, proved with Verus: reading `WIDTHxHEIGHT@SCALE`
  arguments and dialog fields, the checks a spec must pass, the identity
  (name, pixel ceiling, vendor, product, serial) a display of it reports, the
  one display a session holds at a time, and the menu that shows it.
- `app/` is the program around it: the Objective-C runtime calls that make a
  display, the status item, menu and dialog, and `main`.
- `tests/` runs the library on concrete values.
