# fast_float_etna

A property-testing harness for a decimal floating-point parser, with its
decision logic verified by Verus.

- `src/` — the verified library: IEEE-754 bit-pattern classification
  (`ieee`), the decimal round-trip property (`property`), the generated
  inputs and their mutation (`shape`), tool and property selection and the
  combination of run outcomes (`runner`), the one-line JSON report
  (`report`), and text building (`text`).
- `app/` — the runner program: the parsers themselves (floating point), the
  testing frameworks, timing and printing.
- `tests/` — witness inputs for the property and tests of the library.
