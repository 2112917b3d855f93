use vstd::prelude::*;
use crate::items::{
    Accessors, ByteConversion, BytesCheck, CheckTrait, Comparator, Constructor, DebugBuilder,
    DebugField, DebugImpl, Expansion, FieldAccessors, FieldBitsCheck, FilledCheck, FromBytes,
    GetterPlan, ReprImpl, SetterPlan, SpecifierImpl, StructDef,
};
use crate::model::{BitfieldStruct, Config, ConfigValue, Field, FieldConfig, FieldInfo};
use crate::names::{
    checked_getter_docs, checked_getter_name, checked_setter_docs, checked_with_docs, field_name,
    field_frag, field_frag_text, field_name_text, getter_docs, getter_name, getter_panic_message, join2, join3, join4, join5,
    set_checked_name, set_name, setter_docs, setter_panic_message, with_checked_name, with_docs,
    with_name,
};
use crate::size_expr::{bytes_of_bits, round_up_to_8, sum_of_field_bits, SizeExpr};

verus! {

/// `g` is the getters plan of the field `field` at `index` of the struct
/// named `struct_name`, reading at `offset`.
pub open spec fn is_getter_plan(
    g: GetterPlan,
    struct_name: Seq<char>,
    field: Field,
    index: nat,
    offset: SizeExpr,
) -> bool {
    let name = field_name(field.ident_view(), index);
    &&& g.field == index
    &&& g.getter@ == getter_name(field.ident_view(), index)
    &&& g.checked_getter@ == checked_getter_name(field.ident_view(), index)
    &&& g.panic_message@ == getter_panic_message(struct_name, name)
    &&& g.getter_docs@ == getter_docs(name)
    &&& g.checked_getter_docs@ == checked_getter_docs(name)
    &&& g.offset == offset
}

/// `s` is the setters plan of the field `field` at `index` of the struct
/// named `struct_name`, writing at `offset`.
pub open spec fn is_setter_plan(
    s: SetterPlan,
    struct_name: Seq<char>,
    field: Field,
    index: nat,
    offset: SizeExpr,
) -> bool {
    let name = field_name(field.ident_view(), index);
    let frag = field_frag(field.ident_view(), index);
    &&& s.field == index
    &&& s.with_name@ == with_name(frag)
    &&& s.with_checked_name@ == with_checked_name(frag)
    &&& s.set_name@ == set_name(frag)
    &&& s.set_checked_name@ == set_checked_name(frag)
    &&& s.panic_message@ == setter_panic_message(struct_name, name)
    &&& s.with_docs@ == with_docs(name)
    &&& s.checked_with_docs@ == checked_with_docs(name)
    &&& s.setter_docs@ == setter_docs(name)
    &&& s.checked_setter_docs@ == checked_setter_docs(name)
    &&& s.offset == offset
}

/// `a` holds the accessors of the field `field` at `index` of the struct
/// named `struct_name`, placed at `offset`.
pub open spec fn is_field_accessors(
    a: FieldAccessors,
    struct_name: Seq<char>,
    field: Field,
    config: FieldConfig,
    index: nat,
    offset: SizeExpr,
) -> bool {
    &&& a.field == index
    &&& config.spec_skip_getters() ==> a.getters is None
    &&& !config.spec_skip_getters() ==> (a.getters matches Some(g) && is_getter_plan(
        g,
        struct_name,
        field,
        index,
        offset,
    ))
    &&& config.spec_skip_setters() ==> a.setters is None
    &&& !config.spec_skip_setters() ==> (a.setters matches Some(s) && is_setter_plan(
        s,
        struct_name,
        field,
        index,
        offset,
    ))
}

/// `a` holds the field checks and the accessors of the struct `st` under
/// `config`: the field at index `i` is placed after the fields before it.
pub open spec fn is_accessors_of(a: Accessors, st: BitfieldStruct, config: Config) -> bool {
    &&& a.bits_checks.len() == st.fields.len()
    &&& a.fields.len() == st.fields.len()
    &&& forall|i: int|
        0 <= i < st.fields.len() ==> #[trigger] a.bits_checks[i] == (FieldBitsCheck {
            field: i as usize,
            expected_bits: config.spec_field_config(i).bits,
        })
    &&& forall|i: int|
        0 <= i < st.fields.len() ==> is_field_accessors(
            #[trigger] a.fields[i],
            st.ident@,
            st.fields[i],
            config.spec_field_config(i),
            i as nat,
            sum_of_field_bits(i as nat),
        )
}

/// The `.field(..)` entry of the `Debug` impl for the field at `index`: its
/// name as label for a named field, and its checked getter.
pub open spec fn debug_entry(st: BitfieldStruct, index: nat) -> (nat, Option<Seq<char>>, Seq<char>) {
    let f = st.fields[index as int];
    (index, f.ident_view(), checked_getter_name(f.ident_view(), index))
}

/// The entries of the `Debug` impl for the first `n` fields: those whose
/// getters are not skipped, in order.
pub open spec fn debug_entries(st: BitfieldStruct, config: Config, n: nat) -> Seq<(nat, Option<Seq<char>>, Seq<char>)>
    decreases n,
{
    if n == 0 {
        seq![]
    } else {
        let before = debug_entries(st, config, (n - 1) as nat);
        if config.spec_field_config(n - 1).spec_skip_getters() {
            before
        } else {
            before.push(debug_entry(st, (n - 1) as nat))
        }
    }
}

/// `d` is the `Debug` impl of the struct `st` under `config`.
pub open spec fn is_debug_impl_of(d: DebugImpl, st: BitfieldStruct, config: Config) -> bool {
    let entries = debug_entries(st, config, st.fields.len() as nat);
    &&& d.builder == (if st.is_tuple { DebugBuilder::Tuple } else { DebugBuilder::Struct })
    &&& d.fields.len() == entries.len()
    &&& forall|i: int| 0 <= i < entries.len() ==> #[trigger] d.fields[i].entry() == entries[i]
}

impl BitfieldStruct {
    /// The number of bits that the struct stores: `bits = N` where it is
    /// given, else the sum of the widths of its fields.
    pub open spec fn spec_target_size(self, config: Config) -> SizeExpr {
        match config.bits {
            Some(b) => SizeExpr::SpannedLit(b.value, b.span),
            None => sum_of_field_bits(self.fields.len() as nat),
        }
    }

    /// The length of the byte array that stores the struct.
    pub open spec fn spec_byte_len(self, config: Config) -> SizeExpr {
        bytes_of_bits(round_up_to_8(self.spec_target_size(config)))
    }

    /// The check of `filled` that the struct gets.
    pub open spec fn spec_filled_check(self, config: Config) -> FilledCheck {
        let actual_bits = sum_of_field_bits(self.fields.len() as nat);
        let filled = config.spec_filled_enabled();
        match config.bits {
            Some(b) => FilledCheck::Unaligned {
                check: if filled {
                    CheckTrait::CheckFillsUnalignedBits
                } else {
                    CheckTrait::CheckDoesNotFillUnalignedBits
                },
                required_bits: b.value,
                comparator: if filled { Comparator::Eq } else { Comparator::Gt },
                actual_bits,
            },
            None => FilledCheck::Aligned {
                check: if filled {
                    CheckTrait::CheckTotalSizeMultipleOf8
                } else {
                    CheckTrait::CheckTotalSizeIsNotMultipleOf8
                },
                actual_bits,
            },
        }
    }

    /// Generates the expression denoting the sum of all field bit specifier sizes:
    /// `0usize + BITS(0) + BITS(1) + ...`.
    pub fn generate_bitfield_size(&self) -> (r: SizeExpr)
        ensures
            r == sum_of_field_bits(self.fields.len() as nat),
    {
        let mut acc = SizeExpr::Lit(0);
        let mut i: usize = 0;
        while i < self.fields.len()
            invariant
                i <= self.fields.len(),
                acc == sum_of_field_bits(i as nat),
            decreases self.fields.len() - i,
        {
            acc = SizeExpr::Add(Box::new(acc), Box::new(SizeExpr::FieldBits(i)));
            i = i + 1;
        }
        acc
    }

    /// Generates the expression denoting the actual configured or implied bit width.
    pub fn generate_target_or_actual_bitfield_size(&self, config: &Config) -> (r: SizeExpr)
        ensures
            r == self.spec_target_size(*config),
            config.bits matches Some(b) ==> r == SizeExpr::SpannedLit(b.value, b.span),
            config.bits is None ==> r == sum_of_field_bits(self.fields.len() as nat),
    {
        match config.bits {
            Some(b) => SizeExpr::SpannedLit(b.value, b.span),
            None => self.generate_bitfield_size(),
        }
    }

    /// Returns the expression `(((value - 1) / 8) + 1) * 8`: the next value
    /// divisible by 8, from `value` on. For a value of 0 the compiler cannot
    /// evaluate it (`0 - 1` underflows); see `law_next_divisible_by_8`.
    pub fn next_divisible_by_8(value: &SizeExpr) -> (r: SizeExpr)
        ensures
            r == round_up_to_8(*value),
    {
        SizeExpr::Mul(
            Box::new(
                SizeExpr::Add(
                    Box::new(
                        SizeExpr::Div(
                            Box::new(
                                SizeExpr::Sub(Box::new(value.deep_copy()), Box::new(SizeExpr::Lit(1))),
                            ),
                            Box::new(SizeExpr::Lit(8)),
                        ),
                    ),
                    Box::new(SizeExpr::Lit(1)),
                ),
            ),
            Box::new(SizeExpr::Lit(8)),
        )
    }

    /// The length of the byte array, `next_divisible_by_8(size) / 8usize`.
    fn storage_byte_len(&self, config: &Config) -> (r: SizeExpr)
        ensures
            r == self.spec_byte_len(*config),
    {
        let size = self.generate_target_or_actual_bitfield_size(config);
        let next = Self::next_divisible_by_8(&size);
        SizeExpr::Div(Box::new(next), Box::new(SizeExpr::Lit(8)))
    }

    /// Generates the check, with `bits = N` given, that the actual number of
    /// bits is equal to `N` if `filled = true`, and smaller than `N` if
    /// `filled = false`.
    pub fn generate_filled_check_for_unaligned_bits(&self, config: &Config, required_bits: usize) -> (r: FilledCheck)
        ensures
            r == (FilledCheck::Unaligned {
                check: if config.spec_filled_enabled() {
                    CheckTrait::CheckFillsUnalignedBits
                } else {
                    CheckTrait::CheckDoesNotFillUnalignedBits
                },
                required_bits,
                comparator: if config.spec_filled_enabled() { Comparator::Eq } else { Comparator::Gt },
                actual_bits: sum_of_field_bits(self.fields.len() as nat),
            }),
    {
        let actual_bits = self.generate_bitfield_size();
        let filled = config.filled_enabled();
        let check = if filled {
            CheckTrait::CheckFillsUnalignedBits
        } else {
            CheckTrait::CheckDoesNotFillUnalignedBits
        };
        let comparator = if filled { Comparator::Eq } else { Comparator::Gt };
        FilledCheck::Unaligned { check, required_bits, comparator, actual_bits }
    }

    /// Generates the check, without `bits = N`, that the actual number of
    /// bits is divisible by 8 if `filled = true`, and not divisible by 8 if
    /// `filled = false`.
    pub fn generate_filled_check_for_aligned_bits(&self, config: &Config) -> (r: FilledCheck)
        ensures
            r == (FilledCheck::Aligned {
                check: if config.spec_filled_enabled() {
                    CheckTrait::CheckTotalSizeMultipleOf8
                } else {
                    CheckTrait::CheckTotalSizeIsNotMultipleOf8
                },
                actual_bits: sum_of_field_bits(self.fields.len() as nat),
            }),
    {
        let actual_bits = self.generate_bitfield_size();
        let check = if config.filled_enabled() {
            CheckTrait::CheckTotalSizeMultipleOf8
        } else {
            CheckTrait::CheckTotalSizeIsNotMultipleOf8
        };
        FilledCheck::Aligned { check, actual_bits }
    }

    /// Generates the check of `filled`: with `bits = N`, that the number of
    /// bits is `N` (`filled = true`) or smaller (`filled = false`); without,
    /// that it is a multiple of 8 (`filled = true`) or not (`filled = false`).
    pub fn generate_check_for_filled(&self, config: &Config) -> (r: FilledCheck)
        ensures
            r == self.spec_filled_check(*config),
    {
        match config.bits {
            Some(b) => self.generate_filled_check_for_unaligned_bits(config, b.value),
            None => self.generate_filled_check_for_aligned_bits(config),
        }
    }

    /// Generates the struct definition, which holds only a byte array of the
    /// minimum length that stores all its bits.
    pub fn generate_struct(&self, config: &Config) -> (r: StructDef)
        ensures
            r.byte_len == self.spec_byte_len(*config),
    {
        StructDef { byte_len: self.storage_byte_len(config) }
    }

    /// Generates the constructor that initializes all bytes to zero.
    pub fn generate_constructor(&self, config: &Config) -> (r: Constructor)
        ensures
            r.byte_len == self.spec_byte_len(*config),
    {
        Constructor { byte_len: self.storage_byte_len(config) }
    }

    /// Generates the compile-time assertion of the struct's size if `bytes = N` was given.
    pub fn expand_optional_bytes_check(&self, config: &Config) -> (r: Option<BytesCheck>)
        ensures
            match config.bytes {
                Some(b) => r == Some(BytesCheck { bytes: b.value, span: b.span }),
                None => r is None,
            },
    {
        match config.bytes {
            Some(b) => Some(BytesCheck { bytes: b.value, span: b.span }),
            None => None,
        }
    }

    /// Generates the `From` impls for a `#[repr(uN)]` struct.
    pub fn expand_repr_from_impls_and_checks(&self, config: &Config) -> (r: Option<ReprImpl>)
        ensures
            match config.repr {
                Some(k) => r == Some(ReprImpl { kind: k.value, span: k.span, actual_bits: self.spec_target_size(*config) }),
                None => r is None,
            },
    {
        match config.repr {
            Some(k) => Some(
                ReprImpl {
                    kind: k.value,
                    span: k.span,
                    actual_bits: self.generate_target_or_actual_bitfield_size(config),
                },
            ),
            None => None,
        }
    }

    /// Generates the conversions from and to the byte array: `from_bytes`
    /// accepts every array if `filled`, and otherwise checks that no bit is
    /// set at a position that is undefined for the struct.
    pub fn expand_byte_conversion_impls(&self, config: &Config) -> (r: ByteConversion)
        ensures
            r.byte_len == self.spec_byte_len(*config),
            config.filled != Some(false) ==> r.from_bytes is Infallible,
            config.filled == Some(false) ==> r.from_bytes is Checked,
            config.spec_filled_enabled() ==> r.from_bytes is Infallible,
            !config.spec_filled_enabled() ==> r.from_bytes == (FromBytes::Checked {
                next_divisible_by_8: round_up_to_8(self.spec_target_size(*config)),
                size: self.spec_target_size(*config),
            }),
    {
        let size = self.generate_target_or_actual_bitfield_size(config);
        let next = Self::next_divisible_by_8(&size);
        let byte_len = SizeExpr::Div(Box::new(next.deep_copy()), Box::new(SizeExpr::Lit(8)));
        let from_bytes = if config.filled_enabled() {
            FromBytes::Infallible
        } else {
            FromBytes::Checked { next_divisible_by_8: next, size }
        };
        ByteConversion { byte_len, from_bytes }
    }

    /// Expands to the `Specifier` impl for the struct if `#[derive(Specifier)]`
    /// is applied to it as well; otherwise returns `None`.
    pub fn generate_specifier_impl(&self, config: &Config) -> (r: Option<SpecifierImpl>)
        ensures
            config.derive_specifier ==> r == Some(SpecifierImpl {
                bits: self.spec_target_size(*config),
                next_divisible_by_8: round_up_to_8(self.spec_target_size(*config)),
            }),
            !config.derive_specifier ==> r is None,
            config.derive_specifier && config.bits is Some ==> r->Some_0.bits == SizeExpr::SpannedLit(
                config.bits->Some_0.value,
                config.bits->Some_0.span,
            ),
    {
        if !config.derive_specifier {
            return None;
        }
        let bits = self.generate_target_or_actual_bitfield_size(config);
        let next_divisible_by_8 = Self::next_divisible_by_8(&bits);
        Some(SpecifierImpl { bits, next_divisible_by_8 })
    }

    /// Generates the getters of a field, unless `#[skip(getters)]` leaves them out.
    pub fn expand_getters_for_field(&self, offset: &SizeExpr, info: &FieldInfo) -> (r: Option<GetterPlan>)
        ensures
            info.config.spec_skip_getters() ==> r is None,
            !info.config.spec_skip_getters() ==> (r matches Some(g) && is_getter_plan(
                g,
                self.ident@,
                *info.field,
                info.index as nat,
                *offset,
            )),
    {
        if info.config.skip_getters() {
            return None;
        }
        let name = field_name_text(&info.field.ident, info.index);
        let frag = field_frag_text(&info.field.ident, info.index);
        let (getter, checked_getter) = match &info.field.ident {
            Some(id) => (id.clone(), join2(frag.as_str(), "_or_err")),
            None => (join2("get_", frag.as_str()), join3("get_", frag.as_str(), "_or_err")),
        };
        let panic_message = join4(
            "value contains invalid bit pattern for field ",
            self.ident.as_str(),
            ".",
            name.as_str(),
        );
        let getter_docs = join3("Returns the value of `", name.as_str(), "`.");
        let checked_getter_docs = join5(
            "Returns the value of `",
            name.as_str(),
            "`.\n\n# Errors\n\nIf the returned value contains an invalid bit pattern for `",
            name.as_str(),
            "`.",
        );
        Some(
            GetterPlan {
                field: info.index,
                getter,
                checked_getter,
                panic_message,
                getter_docs,
                checked_getter_docs,
                offset: offset.deep_copy(),
            },
        )
    }

    /// Generates the setters of a field, unless `#[skip(setters)]` leaves them out.
    pub fn expand_setters_for_field(&self, offset: &SizeExpr, info: &FieldInfo) -> (r: Option<SetterPlan>)
        ensures
            info.config.spec_skip_setters() ==> r is None,
            !info.config.spec_skip_setters() ==> (r matches Some(s) && is_setter_plan(
                s,
                self.ident@,
                *info.field,
                info.index as nat,
                *offset,
            )),
    {
        if info.config.skip_setters() {
            return None;
        }
        let name = field_name_text(&info.field.ident, info.index);
        let frag = field_frag_text(&info.field.ident, info.index);
        let f = frag.as_str();
        let n = name.as_str();
        let panic_message = join4("value out of bounds for field ", self.ident.as_str(), ".", n);
        let setter_docs = join5(
            "Sets the value of `",
            n,
            "` to the given value.\n\n# Panics\n\nIf the given value is out of bounds for `",
            n,
            "`.",
        );
        let checked_setter_docs = join5(
            "Sets the value of `",
            n,
            "` to the given value.\n\n# Errors\n\nIf the given value is out of bounds for `",
            n,
            "`.",
        );
        let with_docs = join5(
            "Returns a copy of the bitfield with the value of `",
            n,
            "` set to the given value.\n\n# Panics\n\nIf the given value is out of bounds for `",
            n,
            "`.",
        );
        let checked_with_docs = join5(
            "Returns a copy of the bitfield with the value of `",
            n,
            "` set to the given value.\n\n# Errors\n\nIf the given value is out of bounds for `",
            n,
            "`.",
        );
        Some(
            SetterPlan {
                field: info.index,
                with_name: join2("with_", f),
                with_checked_name: join3("with_", f, "_checked"),
                set_name: join2("set_", f),
                set_checked_name: join3("set_", f, "_checked"),
                panic_message,
                with_docs,
                checked_with_docs,
                setter_docs,
                checked_setter_docs,
                offset: offset.deep_copy(),
            },
        )
    }

    /// Generates the check of a field's `#[bits = N]` attribute, an empty one without it.
    pub fn expand_bits_checks_for_field(field_info: &FieldInfo) -> (r: FieldBitsCheck)
        ensures
            r == (FieldBitsCheck { field: field_info.index, expected_bits: field_info.config.bits }),
    {
        FieldBitsCheck { field: field_info.index, expected_bits: field_info.config.bits }
    }

    /// Generates the getters and setters of a field at `offset`, and moves
    /// `offset` past the field.
    pub fn expand_getters_and_setters_for_field(&self, offset: &mut SizeExpr, info: &FieldInfo) -> (r: FieldAccessors)
        ensures
            is_field_accessors(r, self.ident@, *info.field, info.config, info.index as nat, *old(offset)),
            *final(offset) == SizeExpr::Add(Box::new(*old(offset)), Box::new(SizeExpr::FieldBits(info.index))),
    {
        let getters = self.expand_getters_for_field(offset, info);
        let setters = self.expand_setters_for_field(offset, info);
        let mut previous = SizeExpr::Lit(0);
        std::mem::swap(&mut previous, offset);
        *offset = SizeExpr::Add(Box::new(previous), Box::new(SizeExpr::FieldBits(info.index)));
        FieldAccessors { field: info.index, getters, setters }
    }

    /// Generates the field checks and the getters and setters of all fields,
    /// each field placed after the fields before it.
    pub fn expand_getters_and_setters(&self, config: &Config) -> (r: Accessors)
        ensures
            is_accessors_of(r, *self, *config),
    {
        let infos = self.field_infos(config);
        let mut bits_checks: Vec<FieldBitsCheck> = Vec::new();
        let mut i: usize = 0;
        while i < infos.len()
            invariant
                infos.len() == self.fields.len(),
                forall|j: int|
                    0 <= j < infos.len() ==> {
                        &&& (#[trigger] infos[j]).index == j
                        &&& *infos[j].field == self.fields[j]
                        &&& infos[j].config == config.spec_field_config(j)
                    },
                i <= infos.len(),
                bits_checks.len() == i,
                forall|j: int|
                    0 <= j < i ==> #[trigger] bits_checks[j] == (FieldBitsCheck {
                        field: j as usize,
                        expected_bits: config.spec_field_config(j).bits,
                    }),
            decreases infos.len() - i,
        {
            bits_checks.push(Self::expand_bits_checks_for_field(&infos[i]));
            i = i + 1;
        }
        let mut offset = SizeExpr::Lit(0);
        let mut fields: Vec<FieldAccessors> = Vec::new();
        let mut i: usize = 0;
        while i < infos.len()
            invariant
                infos.len() == self.fields.len(),
                forall|j: int|
                    0 <= j < infos.len() ==> {
                        &&& (#[trigger] infos[j]).index == j
                        &&& *infos[j].field == self.fields[j]
                        &&& infos[j].config == config.spec_field_config(j)
                    },
                i <= infos.len(),
                fields.len() == i,
                offset == sum_of_field_bits(i as nat),
                forall|j: int|
                    0 <= j < i ==> is_field_accessors(
                        #[trigger] fields[j],
                        self.ident@,
                        self.fields[j],
                        config.spec_field_config(j),
                        j as nat,
                        sum_of_field_bits(j as nat),
                    ),
            decreases infos.len() - i,
        {
            let a = self.expand_getters_and_setters_for_field(&mut offset, &infos[i]);
            fields.push(a);
            i = i + 1;
        }
        Accessors { bits_checks, fields }
    }

    /// Generates the `core::fmt::Debug` impl if `#[derive(Debug)]` is included:
    /// it shows every field whose getters are not skipped, through its checked getter.
    pub fn generate_debug_impl(&self, config: &Config) -> (r: Option<DebugImpl>)
        ensures
            config.derive_debug ==> (r matches Some(d) && is_debug_impl_of(d, *self, *config)),
            !config.derive_debug ==> r is None,
    {
        if !config.derive_debug {
            return None;
        }
        let builder = if self.is_tuple { DebugBuilder::Tuple } else { DebugBuilder::Struct };
        let infos = self.field_infos(config);
        let mut fields: Vec<DebugField> = Vec::new();
        let mut i: usize = 0;
        while i < infos.len()
            invariant
                infos.len() == self.fields.len(),
                forall|j: int|
                    0 <= j < infos.len() ==> {
                        &&& (#[trigger] infos[j]).index == j
                        &&& *infos[j].field == self.fields[j]
                        &&& infos[j].config == config.spec_field_config(j)
                    },
                i <= infos.len(),
                fields.len() == debug_entries(*self, *config, i as nat).len(),
                forall|j: int|
                    0 <= j < fields.len() ==> #[trigger] fields[j].entry() == debug_entries(
                        *self,
                        *config,
                        i as nat,
                    )[j],
            decreases infos.len() - i,
        {
            let info = &infos[i];
            if !info.config.skip_getters() {
                let name = field_name_text(&info.field.ident, info.index);
                let frag = field_frag_text(&info.field.ident, info.index);
                let (label, getter) = match &info.field.ident {
                    Some(_) => (Some(name), join2(frag.as_str(), "_or_err")),
                    None => (None, join3("get_", frag.as_str(), "_or_err")),
                };
                fields.push(DebugField { index: info.index, label, getter });
            }
            i = i + 1;
        }
        Some(DebugImpl { builder, fields })
    }

    /// Expands the `#[bitfield]` struct into its complete bitfield definition.
    pub fn expand(&self, config: &Config) -> (r: Expansion)
        ensures
            r.struct_def.byte_len == self.spec_byte_len(*config),
            r.check_filled == self.spec_filled_check(*config),
            config.bits is None && config.filled != Some(false) ==> r.check_filled
                matches FilledCheck::Aligned { check: CheckTrait::CheckTotalSizeMultipleOf8, .. },
            config.bits is None && config.filled == Some(false) ==> r.check_filled
                matches FilledCheck::Aligned { check: CheckTrait::CheckTotalSizeIsNotMultipleOf8, .. },
            config.bits is Some && config.filled != Some(false) ==> r.check_filled
                matches FilledCheck::Unaligned { comparator: Comparator::Eq, .. },
            config.bits is Some && config.filled == Some(false) ==> r.check_filled
                matches FilledCheck::Unaligned { comparator: Comparator::Gt, .. },
            r.constructor.byte_len == self.spec_byte_len(*config),
            r.byte_conversion.byte_len == self.spec_byte_len(*config),
            config.filled != Some(false) ==> r.byte_conversion.from_bytes is Infallible,
            config.filled == Some(false) ==> r.byte_conversion.from_bytes is Checked,
            config.spec_filled_enabled() ==> r.byte_conversion.from_bytes is Infallible,
            !config.spec_filled_enabled() ==> r.byte_conversion.from_bytes == (FromBytes::Checked {
                next_divisible_by_8: round_up_to_8(self.spec_target_size(*config)),
                size: self.spec_target_size(*config),
            }),
            is_accessors_of(r.accessors, *self, *config),
            config.derive_specifier ==> r.specifier_impl == Some(SpecifierImpl {
                bits: self.spec_target_size(*config),
                next_divisible_by_8: round_up_to_8(self.spec_target_size(*config)),
            }),
            !config.derive_specifier ==> r.specifier_impl is None,
            config.derive_specifier && config.bits is Some ==> r.specifier_impl->Some_0.bits
                == SizeExpr::SpannedLit(config.bits->Some_0.value, config.bits->Some_0.span),
            match config.bytes {
                Some(b) => r.bytes_check == Some(BytesCheck { bytes: b.value, span: b.span }),
                None => r.bytes_check is None,
            },
            match config.repr {
                Some(k) => r.repr_impl == Some(ReprImpl { kind: k.value, span: k.span, actual_bits: self.spec_target_size(*config) }),
                None => r.repr_impl is None,
            },
            config.derive_debug ==> (r.debug_impl matches Some(d) && is_debug_impl_of(d, *self, *config)),
            !config.derive_debug ==> r.debug_impl is None,
    {
        let check_filled = self.generate_check_for_filled(config);
        let struct_def = self.generate_struct(config);
        let constructor = self.generate_constructor(config);
        let specifier_impl = self.generate_specifier_impl(config);
        let byte_conversion = self.expand_byte_conversion_impls(config);
        let accessors = self.expand_getters_and_setters(config);
        let bytes_check = self.expand_optional_bytes_check(config);
        let repr_impl = self.expand_repr_from_impls_and_checks(config);
        let debug_impl = self.generate_debug_impl(config);
        Expansion {
            struct_def,
            check_filled,
            constructor,
            byte_conversion,
            accessors,
            specifier_impl,
            bytes_check,
            repr_impl,
            debug_impl,
        }
    }
}

} // verus!
