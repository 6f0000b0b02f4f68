# smithay-winit

The input and graphics backend of a compositor that runs inside one window of a host window
system.  The decisions of the backend are written and verified in Verus.

- `src/` is the verified library.
  - `backend` takes in the events of the window and says which calls the compositor's handler is
    owed, with which time stamps and key counts, and what has to be done to the window.
  - `init` takes the steps of setting up the window and its rendering context.
  - `events` holds the input events, with the scaling of touch positions.
  - `graphics` answers for the window as something to draw on.
  - `window` and `input` hold what the window reports and what the compositor is told.
  - `number` reads floating-point numbers by their bits.
  - `error` holds the errors.
  - `laws` proves what holds of the backend as a whole.
- `tests/` runs the library on concrete values.
- `app/` carries out the requests of the library on a real window of `winit`.  What it needs of
  an EGL layer is a set of traits, for that layer to implement.
