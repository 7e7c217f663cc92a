# ahoy_box3d

The decisions of a Source-style character controller on top of the Box3D physics
engine, verified with Verus, and the book-keeping of the bodies and shapes that
it meets.

- `src/` is the verified library.
  - `scalar`, `time`, `entity`: quantities, spans of time and handles.
  - `runtime`: which entity has which body and shape.
  - `body`, `controller`: bodies, colliders, and a character's settings and state.
  - `contact`: what a character makes of the contacts of a cast or an overlap.
  - `ground`, `water`, `motion`, `slide`, `jump`, `climb`: how it stands, swims,
    gains and loses speed, slides and steps, jumps and climbs.
  - `travel`: how it goes through water, over ground or through the air.
  - `tick`: what is done in one tick, and in which order.
  - `pickup`, `impulse`: what it holds and what it pushes.
- `tests/` runs the library: `decisions.rs` one function at a time, `movement.rs`
  on whole movements among boxes.
- `app/` is the Bevy plugin around the library: components, systems, the native
  world, and arithmetic on floating-point numbers.

Quantities are carried as the bit patterns of single-precision numbers. The
library compares them, exactly, and picks among them: minima, maxima, and whether
a vector is too long are its to decide. Sums, products and roots, and so the
vector that a longer one is scaled to, are made in `app/` and handed to the
library. Laws that span several functions are the public proof functions whose
names start with `law_`. Where a law needs a sum or a product, it says so: it then
holds in exact arithmetic.
