# ballistics_frontend

A front end to the `ballistics-engine` crate for Python callers, with its own
logic verified by Verus.

- `src/` is the verified library: the reader of input dictionaries, the unit
  conversions, the objects with imperial properties, the requests made to the
  engine, and the statistics of Monte Carlo runs. Numbers are held as IEEE 754
  binary64 bit patterns (`double`), with verified, correctly rounded arithmetic.
  What holds of several functions together is proved in the modules whose names
  end in `_laws`, in `nearest` and in `sorting`.
- `app/` is the Python module around it: it converts between Python objects,
  native floating point and the library's values, and calls the engine.
- `tests/` runs the library, against native floating point and the engine.

Each function that ends in an engine call is split in two: one function of the
library says what is handed to the engine, another what the caller gets for each
answer.
