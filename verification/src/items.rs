//! The parts of an expansion.
//!
//! The `holds` and `accepts` spec functions here describe how the emitted
//! code behaves under rustc and `modular_bitfield`: when a check compiles and
//! which values a conversion or setter accepts. They are the model of the
//! emitted text that the renderer writes for each part (its token templates);
//! nothing here proves them of the tokens themselves, and the laws of the
//! crate are proved over these descriptions.

use vstd::prelude::*;
use vstd::arithmetic::power2::pow2;
use crate::model::{ConfigValue, ReprKind, SpanId};
use crate::size_expr::SizeExpr;

verus! {

/// The check trait of `::modular_bitfield::private::checks` that a size check implements.
#[derive(Clone, Copy, Debug, PartialEq, Eq)]
pub enum CheckTrait {
    CheckFillsUnalignedBits,
    CheckDoesNotFillUnalignedBits,
    CheckTotalSizeMultipleOf8,
    CheckTotalSizeIsNotMultipleOf8,
}

/// The comparison in a check of the configured number of bits.
#[derive(Clone, Copy, Debug, PartialEq, Eq)]
pub enum Comparator {
    /// `==`
    Eq,
    /// `>`
    Gt,
}

/// The compile-time check that the struct fills, or does not fill, its storage.
#[derive(Debug, PartialEq, Eq)]
pub enum FilledCheck {
    /// With `bits = N`: `CheckType = [(); (N <comparator> actual_bits) as usize]`.
    Unaligned {
        check: CheckTrait,
        required_bits: usize,
        comparator: Comparator,
        actual_bits: SizeExpr,
    },
    /// Without `bits = N`: `Size = TotalSize<[(); (actual_bits) % 8usize]>`.
    Aligned { check: CheckTrait, actual_bits: SizeExpr },
}

impl FilledCheck {
    /// Whether the generated check compiles: its size expression evaluates,
    /// the unaligned checks accept a comparison that is `true`,
    /// `CheckTotalSizeMultipleOf8` accepts a remainder of 0 and
    /// `CheckTotalSizeIsNotMultipleOf8` one of 1 to 7.
    ///
    /// Describes the emitted template; see the module documentation.
    pub open spec fn holds(self, widths: spec_fn(int) -> nat) -> bool {
        &&& match self {
            FilledCheck::Unaligned { actual_bits, .. } => actual_bits.evaluates(widths),
            FilledCheck::Aligned { actual_bits, .. } => actual_bits.evaluates(widths),
        }
        &&& match self {
            FilledCheck::Unaligned { required_bits, comparator, actual_bits, .. } => match comparator {
                Comparator::Eq => required_bits as int == actual_bits.eval(widths),
                Comparator::Gt => required_bits as int > actual_bits.eval(widths),
            },
            FilledCheck::Aligned { check, actual_bits } => match check {
                CheckTrait::CheckTotalSizeMultipleOf8 => actual_bits.eval(widths) % 8 == 0,
                CheckTrait::CheckTotalSizeIsNotMultipleOf8 => actual_bits.eval(widths) % 8 != 0,
                _ => false,
            },
        }
    }
}

/// The `Specifier` impl of a struct with `#[derive(Specifier)]`.
#[derive(Debug, PartialEq, Eq)]
pub struct SpecifierImpl {
    /// `BITS`; also checked to be at most 128.
    pub bits: SizeExpr,
    /// The storage in bits, for the conversions of the byte array.
    pub next_divisible_by_8: SizeExpr,
}

impl SpecifierImpl {
    /// Whether `CheckSpecifierHasAtMost128Bits` compiles:
    /// `CheckType = [(); (BITS <= 128) as usize]` must be `[(); 1]`.
    ///
    /// Describes the emitted template; see the module documentation.
    pub open spec fn holds(self, widths: spec_fn(int) -> nat) -> bool {
        self.bits.evaluates(widths) && self.bits.eval(widths) <= 128
    }

    /// Whether the impl's `from_bytes` accepts the raw value `raw`: exactly
    /// the values with no bit set at a position from `BITS` on, since such a
    /// bit is undefined for the struct. The emitted check compares with
    /// `bytes < 1 << BITS` where that shift fits in `Bytes`, and accepts every
    /// value of `Bytes` where it does not; in particular `2^BITS` itself, which
    /// sets bit `BITS`, is rejected (a bound of `bytes <= 1 << BITS` would let
    /// it through).
    ///
    /// Describes the emitted template; see the module documentation.
    pub open spec fn accepts(self, raw: int, widths: spec_fn(int) -> nat) -> bool {
        0 <= raw < pow2(self.bits.eval(widths) as nat)
    }
}

/// The builder that the generated `Debug` impl calls.
#[derive(Clone, Copy, Debug, PartialEq, Eq)]
pub enum DebugBuilder {
    /// `debug_tuple`, for a tuple struct.
    Tuple,
    /// `debug_struct`
    Struct,
}

/// One `.field(..)` call of the generated `Debug` impl.
#[derive(Debug, PartialEq, Eq)]
pub struct DebugField {
    /// The index of the field.
    pub index: usize,
    /// The field's name, passed as a string literal; absent for a tuple struct.
    pub label: Option<String>,
    /// The checked getter whose result is shown.
    pub getter: String,
}

impl DebugField {
    /// The entry as plain values: the index, the label and the getter.
    pub open spec fn entry(self) -> (nat, Option<Seq<char>>, Seq<char>) {
        (
            self.index as nat,
            match self.label {
                Some(l) => Some(l@),
                None => None,
            },
            self.getter@,
        )
    }
}

/// The generated `Debug` impl.
#[derive(Debug, PartialEq, Eq)]
pub struct DebugImpl {
    pub builder: DebugBuilder,
    pub fields: Vec<DebugField>,
}

/// The struct definition: `bytes: [u8; byte_len]`.
#[derive(Debug, PartialEq, Eq)]
pub struct StructDef {
    pub byte_len: SizeExpr,
}

/// The zero-initializing `new` constructor: `bytes: [0u8; byte_len]`.
#[derive(Debug, PartialEq, Eq)]
pub struct Constructor {
    pub byte_len: SizeExpr,
}

/// The check that the struct has the size that `bytes = N` gives.
#[derive(Debug, PartialEq, Eq)]
pub struct BytesCheck {
    pub bytes: usize,
    /// Where `bytes = N` was written; the check is placed there.
    pub span: SpanId,
}

impl BytesCheck {
    /// Whether the check compiles for a struct whose byte array has
    /// `byte_len` bytes: the struct then has exactly that size.
    ///
    /// Describes the emitted template; see the module documentation.
    pub open spec fn holds(self, byte_len: SizeExpr, widths: spec_fn(int) -> nat) -> bool {
        byte_len.evaluates(widths) && byte_len.eval(widths) == self.bytes as int
    }
}

/// The `From` impls between a `#[repr(uN)]` struct and its primitive.
#[derive(Debug, PartialEq, Eq)]
pub struct ReprImpl {
    pub kind: ReprKind,
    /// Where `#[repr(uN)]` was written; the impls are placed there.
    pub span: SpanId,
    /// Checked through `IsUNCompatible`, implemented only for `[(); N]`.
    pub actual_bits: SizeExpr,
}

impl ReprImpl {
    /// Whether the compatibility check compiles.
    ///
    /// Describes the emitted template; see the module documentation.
    pub open spec fn holds(self, widths: spec_fn(int) -> nat) -> bool {
        self.actual_bits.evaluates(widths) && self.actual_bits.eval(widths) == self.kind.spec_bits()
    }
}

/// How `from_bytes` accepts a byte array.
#[derive(Debug, PartialEq, Eq)]
pub enum FromBytes {
    /// `filled`: every byte array is a value; `From<[u8; N]>` is generated.
    Infallible,
    /// Not `filled`: the last byte is checked with
    /// `u16::from(bytes[(next / 8usize) - 1]) < (0x01 << (8 - (next - (size))))`,
    /// and `TryFrom<[u8; N]>` is generated.
    Checked { next_divisible_by_8: SizeExpr, size: SizeExpr },
}

impl FromBytes {
    /// Whether `from_bytes` accepts a byte array whose last byte is `last_byte`.
    ///
    /// Describes the emitted template; see the module documentation.
    pub open spec fn accepts(self, last_byte: u8, widths: spec_fn(int) -> nat) -> bool {
        match self {
            FromBytes::Infallible => true,
            FromBytes::Checked { next_divisible_by_8, size } => {
                let unused = next_divisible_by_8.eval(widths) - size.eval(widths);
                (last_byte as int) < pow2((8 - unused) as nat)
            },
        }
    }
}

/// The conversions between the struct and its byte array.
#[derive(Debug, PartialEq, Eq)]
pub struct ByteConversion {
    /// The length of the byte array.
    pub byte_len: SizeExpr,
    pub from_bytes: FromBytes,
}

/// The check of a field's `#[bits = N]` attribute (an empty check without one).
#[derive(Clone, Copy, Debug, PartialEq, Eq)]
pub struct FieldBitsCheck {
    pub field: usize,
    /// The width that `#[bits = N]` asserts, with the span where it was
    /// written; the check is placed there.
    pub expected_bits: Option<ConfigValue<usize>>,
}

impl FieldBitsCheck {
    /// Whether the check compiles: the field's type has the expected width.
    ///
    /// Describes the emitted template; see the module documentation.
    pub open spec fn holds(self, widths: spec_fn(int) -> nat) -> bool {
        match self.expected_bits {
            Some(n) => widths(self.field as int) == n.value,
            None => true,
        }
    }
}

/// The getters of a field.
#[derive(Debug, PartialEq, Eq)]
pub struct GetterPlan {
    pub field: usize,
    /// The getter that panics on an invalid bit pattern.
    pub getter: String,
    /// The getter that returns `Result`.
    pub checked_getter: String,
    /// The message of the panicking getter.
    pub panic_message: String,
    pub getter_docs: String,
    pub checked_getter_docs: String,
    /// The bit offset at which the field is read.
    pub offset: SizeExpr,
}

/// The setters of a field.
#[derive(Debug, PartialEq, Eq)]
pub struct SetterPlan {
    pub field: usize,
    pub with_name: String,
    pub with_checked_name: String,
    pub set_name: String,
    pub set_checked_name: String,
    /// The message of the panicking setters.
    pub panic_message: String,
    pub with_docs: String,
    pub checked_with_docs: String,
    pub setter_docs: String,
    pub checked_setter_docs: String,
    /// The bit offset at which the field is written.
    pub offset: SizeExpr,
}

impl SetterPlan {
    /// Whether the checked setter writes the raw value `raw` of the field,
    /// whose `Bytes` type has `base_bits` bits: where the field's width is
    /// `base_bits` every raw value is written; otherwise `raw` is compared
    /// with `!0 >> (base_bits - BITS)`, the all-ones value shifted right.
    ///
    /// Describes the emitted template; see the module documentation.
    pub open spec fn accepts(self, raw: int, base_bits: nat, widths: spec_fn(int) -> nat) -> bool {
        let spec_bits = widths(self.field as int);
        base_bits == spec_bits || raw <= (pow2(base_bits) - 1) / pow2((base_bits - spec_bits) as nat) as int
    }
}

/// The accessors of one field.
#[derive(Debug, PartialEq, Eq)]
pub struct FieldAccessors {
    pub field: usize,
    pub getters: Option<GetterPlan>,
    pub setters: Option<SetterPlan>,
}

/// The field checks and the accessors of all fields.
#[derive(Debug, PartialEq, Eq)]
pub struct Accessors {
    pub bits_checks: Vec<FieldBitsCheck>,
    pub fields: Vec<FieldAccessors>,
}

/// Everything that a `#[bitfield]` struct expands to, in order of emission.
#[derive(Debug, PartialEq, Eq)]
pub struct Expansion {
    pub struct_def: StructDef,
    pub check_filled: FilledCheck,
    pub constructor: Constructor,
    pub byte_conversion: ByteConversion,
    pub accessors: Accessors,
    pub specifier_impl: Option<SpecifierImpl>,
    pub bytes_check: Option<BytesCheck>,
    pub repr_impl: Option<ReprImpl>,
    pub debug_impl: Option<DebugImpl>,
}

} // verus!
