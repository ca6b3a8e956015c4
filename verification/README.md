# tilegame

The logic of a small tile-placing game drawn with OpenGL, verified with Verus.

- `src/` is the verified library: the board of tiles (`game::tiles`), the
  keyboard handling that moves the cursor and places tiles (`events`), the
  byte layout of vertices and geometry (`geometry`), the preparation of
  texture pixels (`texture`), shader records (`rendering::shader`) and grid
  indexing (`utilities`).
- `app/` is the program around it: the window, the OpenGL calls, file
  loading, and the floating-point placement of the background rectangle.
- `tests/` exercises the library on concrete values.
