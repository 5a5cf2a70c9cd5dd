# zerium

The logic of the user interface panels of Zerium, a video editor, written in
Verus: the property inspector (resolving the controls of the selected items,
scene bindings, array edits, the state kept between syncs with the editor),
the search picker, the notification queue and the timeline's time ruler.
Every function of the library carries a contract that Verus proves, but
for three small wrappers in `text` around std calls that vstd gives no
specification (building a string from characters, case mapping and the
whitespace test), whose contracts are trusted.

- `src/` is the verified library, one module per concern: `model`,
  `inspector`, `path`, `resolve`, `tree`, `control`, `scene`,
  `scene_inputs`, `sync`, `lookup`, `edit`, `elements`, `rows`, `append`, `selection`, `file_input`,
  `numeric`, `state`, `search`, `session`, `time_grid`, and `text` for the
  character-level helpers.
- `tests/` exercises the library on concrete values.
- `app/` holds what the library leaves to its caller: arithmetic on
  floating-point values (number inputs, the time ruler) and the order in
  which the resolution steps run, with the editor filling in the animation
  state between them.
