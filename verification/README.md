# tweek

The state and decision logic of the Tweek GUI toolkit, verified with Verus.

* `src/` is the verified library: text editing (`editor`, `text_field`, `text_area`),
  focus handling in a scene (`scene`), list boxes, checkboxes and option groups
  (`list_box`, `option_group`), layers and their mouse states (`layer`), the event listener
  registry of a stage (`stage`), font and theme registries (`theme`), the registry of
  component kinds (`gui_types`) and a few small shared types (`tools`, `command`, `views`).
  Each public function states what it returns and changes; the laws that relate several
  operations are public proof functions next to them.
* `app/` is the drawing side: floating-point geometry, image fitting, text measurement
  with glyph_brush and the glue that turns mouse points and glyph positions into the
  indexes and flags the library decides on.
* `tests/` runs the library on concrete inputs.
