# idaphs_cad

The verified core of a small CAD application built on the truck modeling kernel.

`src/` is the library, checked by Verus:

- `part_file` — the `.idaphsprt` part file: the magic bytes `IDAPHS01` followed by
  the UTF-8 JSON text of truck's compressed solid; framing, the index check that
  keeps truck's extraction from indexing out of range, and the error for each way
  a file can be unreadable. A saved solid always writes, and loading what was
  saved gives back a solid of the same shell, face, wire and edge structure. The
  JSON library and truck are called behind trusted
  wrappers in this file; `outside.rs` declares their types.
- `user_io`, `key_set`, `input_handler` — the state kept of buttons, pointer and keys.
- `tool`, `menubar`, `toolbar`, `messages` — what the scene does for each event.
- `selection` — which face or edge a click selects, from the ray hits.
- `kernel` — the render kernel's message loop: redraw requests, the texture pool
  and the buffer size.

`app/` is the program around it: the Slint window, file dialogs and file I/O, the
GPU renderers, the thread that runs the render kernel, and the floating-point
camera and ray geometry.
