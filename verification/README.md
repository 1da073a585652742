# signal_ffi

The verified core of a C binding for the Signal protocol library.

- `src/` holds the decisions that the binding makes itself, each with a
  contract proved by Verus:
  - `store.rs`: how the status code and object returned by a storage
    callback become the result of a store operation;
  - `callback.rs`: the storage callbacks, the names under which they are
    reported, and the errors a store operation fails with;
  - `checks.rs`: null-argument and buffer checks, the flag written by a
    signature check, the type codes of errors, the integer written for an
    absent id;
  - `compare.rs`: the integer written for a key comparison;
  - `direction.rs`: the integer handed to the trust callback.
- `app/` is the exported C surface: pointer handling, the calls into the
  protocol library and into the C callbacks, and the conversion of the
  library's results into the protocol's error types.
- `tests/` exercises every public function of `src/` on concrete values.
