# renamite

The editing core of a vector animation editor, in Verus: executable Rust whose behaviour
is stated in contracts and proved.

## What it is

The library holds the editor's state and its decisions. It knows the document as a tree of
numbered nodes, the selection, the clipboard, the tools, the timeline, the state machines
with their graph and their preview, the inspector, the colour picker, the file lifecycle
and the fonts. For every event it says what becomes of the session and which commands the
history is to carry out, under which name.

Floating point, drawing, dialogs and the disk are not part of it. Where a decision only
carries such a value from one place to another, the value goes by a number.

## Layout

* `src/` is the verified library.
  * `model`, `tree`: the document and the walks over it.
  * `commands`, `session`: what the editor asks of the history, and the session's state.
  * `clipboard`, `styling`, `strokes`, `pathops`, `arrange`: commands on a selection.
  * `layers`, `timeline`, `viewport`, `shell`, `assets`, `fields`: the panels.
  * `inspect`, `propedit`, `gradients`, `colors`, `picker`: the inspector and its editors.
  * `machine`, `machine_edit`, `machine_ui`, `graph`, `preview`: state machines.
  * `files`, `paths`, `exports`: files in and out.
  * `faces`, `font`, `text`: font files, fonts and the layout of text.
  * `seqs`, `strings`: what the others build on.
  * `laws`: what holds of the editor as a whole.
* `tests/` runs the library on concrete values.
* `app/` is the edge: outlines of text, views and placements, dialogs and files, and the
  loops that carry out what the library has decided.

## Trust

What is not proved stands in `faces.rs`, `font.rs` and `files.rs`: small wrappers round `ttf-parser`,
`serde_json`, `image` and two functions of the standard library, each with a contract that
says what is taken from it.
