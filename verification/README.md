# modular_bitfield_impl

The planning half of the `#[bitfield]` attribute: for a struct and its
configuration it decides what the expansion holds — the storage size, the
compile-time checks of `filled`, `bits`, `bytes` and `#[repr(uN)]`, the byte
conversions, the name, documentation and bit offset of every getter and
setter, and the optional `Specifier` and `Debug` impls.

- `src/` is verified with Verus. Compile-time sizes are symbolic
  (`SizeExpr`): `SizeExpr::evaluates` says whether the compiler can evaluate
  one (no `usize` overflow or underflow; a struct of 0 bits has none), and
  `SizeExpr::eval` gives its value, for any widths of the field types.
  Configured values carry the location where they were written (`SpanId`, an
  index into the caller's table of spans), and the plan keeps it for the
  tokens that stem from them.
- `src/items.rs` describes, with its `holds` and `accepts` spec functions,
  when each emitted check compiles (`filled`, `bits`, `bytes`, `#[repr(uN)]`,
  the `Specifier` limit of 128 bits) and which values `from_bytes` and the
  checked setters accept. These describe the token templates in
  `app/render.rs` as rustc and `modular_bitfield` treat them; they are not
  proved of the rendered tokens. `src/laws.rs` proves over these descriptions
  what the expansion guarantees: minimal storage, fields placed one after
  another inside it, the meaning of each check, the accepted ranges.
- The `from_bytes` of a derived `Specifier` accepts exactly the raw values
  below `2^BITS` (`bytes < 1 << BITS` where the shift fits in `Bytes`, every
  value where it does not). A bound of `bytes <= 1 << BITS` would also accept
  `2^BITS`, whose bit `BITS` lies at a position undefined for the struct.
- `app/` converts a parsed `syn::ItemStruct` into the library's model and
  renders the plan into tokens with `quote`.
- `tests/` runs the library on concrete structs.
