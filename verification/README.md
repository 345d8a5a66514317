# flow_designer

A visual data-pipeline designer: operators (read a CSV file, select
attributes, replace missing values, normalize and encode, split into training
and test rows, fit a linear regression, save to CSV or Excel) are placed on a
canvas, chained by drawing connections, and run one after the other, each
handing its table to the next.

- `src/` is the verified library. It holds the operators and their typed
  properties, the connection state machine of the canvas, the run loop, the
  console log, the panels' state, and, for every operator kind, the plan that
  decides what it does with its input and properties (which file, which
  columns, which fill strategy, which features) and every message it refuses
  with. A table is modelled by its column names, column kinds and height.
  `src/laws.rs` states the properties that span several calls.
- `tests/` runs the library on concrete values.
- `app/` is the desktop application around it: the Bevy window and widgets,
  the background tasks, file dialogs, process files (JSON), and the data-frame
  and regression work on the cells, which is floating-point arithmetic.
