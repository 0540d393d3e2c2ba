# layout_tree

A document of nested layouts, lines, spans and characters, and a cursor
that walks it, verified with Verus.

- `src/style.rs`: colors and styles of elements.
- `src/primitives.rs`: the document, four arenas of elements that name
  their children by index, and its value (`DocModel`).
- `src/node.rs`: handles to elements, their children, adding a copy of a
  child to a mother, highlighting.
- `src/navigation.rs`: the cursor (`LayoutZipper`), its value
  (`ZipperModel`), and every move, each specified over those values.
- `src/laws.rs`: what the moves do together: round trips, rows kept,
  well-formedness kept, the document's shape kept, the focus highlighted.
- `app/lib.rs`: conversions to and from the terminal renderer's styles and
  `anyhow` errors, and entry points that check preconditions.
- `tests/`: executable tests.
