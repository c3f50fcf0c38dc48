# cavestory

The rules of the CaveStory-rs engine's controller, rumble, touch-overlay,
language, settings, save-storage and trainer features, written in Verus with
their contracts proved.

- `src/` is the verified library. Each module states its model in spec
  functions and views, and proves the laws that tie its operations together
  (functions named `law_*`).
- `tests/` runs the library on concrete values.
- `app/` is the platform side that the library leaves out: JNI calls into the
  Android activity, file access, serde mirrors of the settings, and the
  judgements that rest on floating-point stick and touch positions.

Verify with Verus on `src/lib.rs`; build and test with Cargo.
