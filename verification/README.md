# darkiron

The Dark Iron extension for the World of Warcraft 1.12 client, split in two:

- `src/` is the verified library (Verus). It takes the extension's
  decisions: configuration defaults and notices, base-archive lookup and the
  steps of archive location and loading, console requests as C strings, the
  OpenGL call lists for textures and primitives, the overlay's frame gating,
  the start-once guard of the loader entry point, and the tables of detoured
  routines and memory patches.
- `app/` is the code that runs inside the client: detours, calls into the
  client and OpenGL/Direct3D, file and network access, logging, and
  floating-point geometry. It performs what the library plans.
- `tests/` runs the library on concrete values.
