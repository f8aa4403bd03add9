# operator

The animation and interaction logic of a desktop operator (an animated
character drawn from Spine skeletons), verified with Verus.

- `src/skin.rs`: the animation state of a skin: which skeleton plays each
  animation, the current and the previous animation, and what a switch of
  animation asks the skeletons to do; the paths of the skin's asset files.
- `src/operator.rs`: an operator: how it answers host events and pointer
  input, how it turns and steps when it walks, and its JSON descriptions.
- `src/json.rs`: the JSON texts, written by serde_json.
- `app/`: the plugin around the library: loading skeletons and textures,
  drawing with egui, positions and speeds (floating point), and the event
  channel to the host.
- `tests/`: tests of the library.
