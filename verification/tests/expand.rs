use modular_bitfield_impl::items::{
    BytesCheck, CheckTrait, Comparator, DebugBuilder, FilledCheck, FromBytes, ReprImpl, SpecifierImpl,
};
use modular_bitfield_impl::model::{
    BitfieldStruct, Config, ConfigValue, Field, FieldConfig, ReprKind, SkipWhich, SpanId,
};
use modular_bitfield_impl::size_expr::SizeExpr;

fn lit(n: usize) -> SizeExpr {
    SizeExpr::Lit(n)
}

fn bits(i: usize) -> SizeExpr {
    SizeExpr::FieldBits(i)
}

fn plus(a: SizeExpr, b: SizeExpr) -> SizeExpr {
    SizeExpr::Add(Box::new(a), Box::new(b))
}

/// Const evaluation of the expression in `usize`: `None` where it fails.
fn try_eval(e: &SizeExpr, widths: &[i64]) -> Option<usize> {
    match e {
        SizeExpr::Lit(n) => Some(*n),
        SizeExpr::SpannedLit(n, _) => Some(*n),
        SizeExpr::FieldBits(i) => usize::try_from(widths[*i]).ok(),
        SizeExpr::Add(a, b) => try_eval(a, widths)?.checked_add(try_eval(b, widths)?),
        SizeExpr::Sub(a, b) => try_eval(a, widths)?.checked_sub(try_eval(b, widths)?),
        SizeExpr::Div(a, b) => try_eval(a, widths)?.checked_div(try_eval(b, widths)?),
        SizeExpr::Mul(a, b) => try_eval(a, widths)?.checked_mul(try_eval(b, widths)?),
    }
}

fn eval(e: &SizeExpr, widths: &[i64]) -> i64 {
    try_eval(e, widths).expect("the expression evaluates") as i64
}

fn named(names: &[&str]) -> BitfieldStruct {
    BitfieldStruct {
        ident: "Color".to_string(),
        is_tuple: false,
        fields: names.iter().map(|n| Field { ident: Some(n.to_string()) }).collect(),
    }
}

fn tuple(n: usize) -> BitfieldStruct {
    BitfieldStruct {
        ident: "Packed".to_string(),
        is_tuple: true,
        fields: (0..n).map(|_| Field { ident: None }).collect(),
    }
}

fn at<T>(value: T, span: usize) -> ConfigValue<T> {
    ConfigValue { value, span: SpanId(span) }
}

fn config() -> Config {
    Config {
        bytes: None,
        bits: None,
        filled: None,
        repr: None,
        derive_debug: false,
        derive_specifier: false,
        field_configs: Vec::new(),
    }
}

/// The struct of the documentation of `generate_bitfield_size`:
/// `r: B8, g: B8, b: B8, a: bool, rest: B7`.
fn color() -> BitfieldStruct {
    named(&["r", "g", "b", "a", "rest"])
}

const COLOR_WIDTHS: [i64; 5] = [8, 8, 8, 1, 7];

#[test]
fn bitfield_size_of_color() {
    let size = color().generate_bitfield_size();
    let expected = plus(plus(plus(plus(plus(lit(0), bits(0)), bits(1)), bits(2)), bits(3)), bits(4));
    assert_eq!(size, expected);
    assert_eq!(eval(&size, &COLOR_WIDTHS), 32);
}

#[test]
fn bitfield_size_without_fields() {
    let st = named(&[]);
    assert_eq!(st.generate_bitfield_size(), lit(0));
    // A struct of 0 bits gets no storage that compiles.
    assert_eq!(try_eval(&st.generate_struct(&config()).byte_len, &[]), None);
}

#[test]
fn target_size_prefers_configured_bits() {
    let mut c = config();
    c.bits = Some(at(24, 7));
    // The literal stays at the span where `bits = 24` was written.
    assert_eq!(color().generate_target_or_actual_bitfield_size(&c), SizeExpr::SpannedLit(24, SpanId(7)));
    assert_eq!(
        color().generate_target_or_actual_bitfield_size(&config()),
        color().generate_bitfield_size()
    );
}

#[test]
fn next_divisible_by_8_shape_and_values() {
    let e = BitfieldStruct::next_divisible_by_8(&lit(13));
    let expected = SizeExpr::Mul(
        Box::new(plus(
            SizeExpr::Div(
                Box::new(SizeExpr::Sub(Box::new(lit(13)), Box::new(lit(1)))),
                Box::new(lit(8)),
            ),
            lit(1),
        )),
        Box::new(lit(8)),
    );
    assert_eq!(e, expected);
    for (v, r) in [(1, 8), (7, 8), (8, 8), (9, 16), (13, 16), (16, 16), (17, 24), (128, 128)] {
        assert_eq!(eval(&BitfieldStruct::next_divisible_by_8(&lit(v)), &[]), r);
    }
    // `0 - 1` underflows: const evaluation fails for 0 bits.
    assert_eq!(try_eval(&BitfieldStruct::next_divisible_by_8(&lit(0)), &[]), None);
}

fn filled_holds(check: &FilledCheck, widths: &[i64]) -> bool {
    match check {
        FilledCheck::Unaligned { required_bits, comparator, actual_bits, .. } => {
            let actual = eval(actual_bits, widths);
            match comparator {
                Comparator::Eq => *required_bits as i64 == actual,
                Comparator::Gt => *required_bits as i64 > actual,
            }
        }
        FilledCheck::Aligned { check, actual_bits } => {
            let rem = eval(actual_bits, widths) % 8;
            match check {
                CheckTrait::CheckTotalSizeMultipleOf8 => rem == 0,
                CheckTrait::CheckTotalSizeIsNotMultipleOf8 => rem != 0,
                _ => false,
            }
        }
    }
}

#[test]
fn check_for_filled_aligned_filled() {
    let check = color().generate_check_for_filled(&config());
    assert_eq!(
        check,
        FilledCheck::Aligned {
            check: CheckTrait::CheckTotalSizeMultipleOf8,
            actual_bits: color().generate_bitfield_size(),
        }
    );
    assert!(filled_holds(&check, &COLOR_WIDTHS));
    assert!(!filled_holds(&check, &[8, 8, 8, 1, 6]));
}

#[test]
fn check_for_filled_aligned_unfilled() {
    let mut c = config();
    c.filled = Some(false);
    let check = color().generate_check_for_filled(&c);
    assert_eq!(
        check,
        FilledCheck::Aligned {
            check: CheckTrait::CheckTotalSizeIsNotMultipleOf8,
            actual_bits: color().generate_bitfield_size(),
        }
    );
    assert!(!filled_holds(&check, &COLOR_WIDTHS));
    assert!(filled_holds(&check, &[8, 8, 8, 1, 6]));
}

#[test]
fn check_for_filled_unaligned() {
    let mut c = config();
    c.bits = Some(at(32, 7));
    let check = color().generate_check_for_filled(&c);
    assert_eq!(
        check,
        FilledCheck::Unaligned {
            check: CheckTrait::CheckFillsUnalignedBits,
            required_bits: 32,
            comparator: Comparator::Eq,
            actual_bits: color().generate_bitfield_size(),
        }
    );
    assert!(filled_holds(&check, &COLOR_WIDTHS));
    c.filled = Some(false);
    c.bits = Some(at(40, 7));
    let check = color().generate_check_for_filled(&c);
    assert_eq!(
        check,
        FilledCheck::Unaligned {
            check: CheckTrait::CheckDoesNotFillUnalignedBits,
            required_bits: 40,
            comparator: Comparator::Gt,
            actual_bits: color().generate_bitfield_size(),
        }
    );
    assert!(filled_holds(&check, &COLOR_WIDTHS));
    assert!(!filled_holds(&check, &[8, 8, 8, 8, 8]));
}

#[test]
fn struct_and_constructor_byte_length() {
    let st = color();
    let c = config();
    let expected = SizeExpr::Div(
        Box::new(BitfieldStruct::next_divisible_by_8(&st.generate_bitfield_size())),
        Box::new(lit(8)),
    );
    assert_eq!(st.generate_struct(&c).byte_len, expected);
    assert_eq!(st.generate_constructor(&c).byte_len, expected);
    assert_eq!(eval(&expected, &COLOR_WIDTHS), 4);
    assert_eq!(eval(&expected, &[8, 8, 8, 1, 6]), 4);
    assert_eq!(eval(&expected, &[8, 8, 8, 8, 1]), 5);
    let mut c = config();
    c.bits = Some(at(12, 7));
    assert_eq!(eval(&st.generate_struct(&c).byte_len, &COLOR_WIDTHS), 2);
}

#[test]
fn bytes_check_present_only_when_configured() {
    assert_eq!(color().expand_optional_bytes_check(&config()), None);
    let mut c = config();
    c.bytes = Some(at(4, 8));
    assert_eq!(
        color().expand_optional_bytes_check(&c),
        Some(BytesCheck { bytes: 4, span: SpanId(8) })
    );
}

#[test]
fn repr_impl_present_only_with_repr() {
    assert_eq!(color().expand_repr_from_impls_and_checks(&config()), None);
    let mut c = config();
    c.repr = Some(at(ReprKind::U32, 9));
    assert_eq!(
        color().expand_repr_from_impls_and_checks(&c),
        Some(ReprImpl {
            kind: ReprKind::U32,
            span: SpanId(9),
            actual_bits: color().generate_bitfield_size(),
        })
    );
    assert_eq!(ReprKind::U32.bits(), 32);
    assert_eq!(ReprKind::U128.bits(), 128);
}

#[test]
fn specifier_impl_present_only_with_derive() {
    assert_eq!(color().generate_specifier_impl(&config()), None);
    let mut c = config();
    c.derive_specifier = true;
    let size = color().generate_bitfield_size();
    assert_eq!(
        color().generate_specifier_impl(&c),
        Some(SpecifierImpl {
            next_divisible_by_8: BitfieldStruct::next_divisible_by_8(&size),
            bits: size,
        })
    );
}

#[test]
fn byte_conversion_filled_is_infallible() {
    let conv = color().expand_byte_conversion_impls(&config());
    assert_eq!(conv.from_bytes, FromBytes::Infallible);
    assert_eq!(eval(&conv.byte_len, &COLOR_WIDTHS), 4);
}

fn accepts(from_bytes: &FromBytes, last_byte: u8, widths: &[i64]) -> bool {
    match from_bytes {
        FromBytes::Infallible => true,
        FromBytes::Checked { next_divisible_by_8, size } => {
            let unused = eval(next_divisible_by_8, widths) - eval(size, widths);
            (last_byte as u16) < (1u16 << (8 - unused))
        }
    }
}

#[test]
fn byte_conversion_unfilled_checks_the_last_byte() {
    let mut c = config();
    c.filled = Some(false);
    let st = named(&["a", "b"]);
    let conv = st.expand_byte_conversion_impls(&c);
    let size = st.generate_bitfield_size();
    assert_eq!(
        conv.from_bytes,
        FromBytes::Checked { next_divisible_by_8: BitfieldStruct::next_divisible_by_8(&size), size }
    );
    // 8 + 4 bits: the high nibble of the second byte is undefined.
    let widths = [8, 4];
    assert_eq!(eval(&conv.byte_len, &widths), 2);
    assert!(accepts(&conv.from_bytes, 0x0f, &widths));
    assert!(!accepts(&conv.from_bytes, 0x10, &widths));
    assert!(!accepts(&conv.from_bytes, 0xff, &widths));
    // 8 + 7 bits: only the top bit is undefined.
    let widths = [8, 7];
    assert!(accepts(&conv.from_bytes, 0x7f, &widths));
    assert!(!accepts(&conv.from_bytes, 0x80, &widths));
}

#[test]
fn named_field_getters_and_setters() {
    let st = color();
    let infos = st.field_infos(&config());
    let offset = plus(lit(0), bits(0));
    let g = st.expand_getters_for_field(&offset, &infos[1]).unwrap();
    assert_eq!(g.field, 1);
    assert_eq!(g.getter, "g");
    assert_eq!(g.checked_getter, "g_or_err");
    assert_eq!(g.panic_message, "value contains invalid bit pattern for field Color.g");
    assert_eq!(g.getter_docs, "Returns the value of `g`.");
    assert_eq!(
        g.checked_getter_docs,
        "Returns the value of `g`.\n\n# Errors\n\nIf the returned value contains an invalid bit pattern for `g`."
    );
    assert_eq!(g.offset, offset);
    let s = st.expand_setters_for_field(&offset, &infos[1]).unwrap();
    assert_eq!(s.with_name, "with_g");
    assert_eq!(s.with_checked_name, "with_g_checked");
    assert_eq!(s.set_name, "set_g");
    assert_eq!(s.set_checked_name, "set_g_checked");
    assert_eq!(s.panic_message, "value out of bounds for field Color.g");
    assert_eq!(
        s.setter_docs,
        "Sets the value of `g` to the given value.\n\n# Panics\n\nIf the given value is out of bounds for `g`."
    );
    assert_eq!(
        s.checked_setter_docs,
        "Sets the value of `g` to the given value.\n\n# Errors\n\nIf the given value is out of bounds for `g`."
    );
    assert_eq!(
        s.with_docs,
        "Returns a copy of the bitfield with the value of `g` set to the given value.\n\n# Panics\n\nIf the given value is out of bounds for `g`."
    );
    assert_eq!(
        s.checked_with_docs,
        "Returns a copy of the bitfield with the value of `g` set to the given value.\n\n# Errors\n\nIf the given value is out of bounds for `g`."
    );
    assert_eq!(s.offset, offset);
}

#[test]
fn tuple_field_accessors_use_the_index() {
    let st = tuple(13);
    let infos = st.field_infos(&config());
    let g = st.expand_getters_for_field(&lit(0), &infos[12]).unwrap();
    assert_eq!(g.getter, "get_12");
    assert_eq!(g.checked_getter, "get_12_or_err");
    assert_eq!(g.panic_message, "value contains invalid bit pattern for field Packed.12");
    assert_eq!(g.getter_docs, "Returns the value of `12`.");
    let s = st.expand_setters_for_field(&lit(0), &infos[0]).unwrap();
    assert_eq!(s.set_name, "set_0");
    assert_eq!(s.set_checked_name, "set_0_checked");
    assert_eq!(s.with_name, "with_0");
    assert_eq!(s.with_checked_name, "with_0_checked");
}

fn skipping(which: SkipWhich, field: usize) -> Config {
    let mut c = config();
    c.field_configs = vec![None; field + 1];
    c.field_configs[field] = Some(FieldConfig { bits: None, skip: Some(which) });
    c
}

#[test]
fn raw_identifier_fields_keep_r_hash_only_where_the_original_does() {
    let st = BitfieldStruct {
        ident: "Flags".to_string(),
        is_tuple: false,
        fields: vec![Field { ident: Some("r#type".to_string()) }],
    };
    let mut c = config();
    c.derive_debug = true;
    let e = st.expand(&c);
    let g = e.accessors.fields[0].getters.as_ref().unwrap();
    assert_eq!(g.getter, "r#type");
    assert_eq!(g.checked_getter, "type_or_err");
    assert_eq!(g.panic_message, "value contains invalid bit pattern for field Flags.r#type");
    assert_eq!(g.getter_docs, "Returns the value of `r#type`.");
    let s = e.accessors.fields[0].setters.as_ref().unwrap();
    assert_eq!(s.set_name, "set_type");
    assert_eq!(s.set_checked_name, "set_type_checked");
    assert_eq!(s.with_name, "with_type");
    assert_eq!(s.with_checked_name, "with_type_checked");
    assert_eq!(s.panic_message, "value out of bounds for field Flags.r#type");
    let d = e.debug_impl.unwrap();
    assert_eq!(d.fields[0].label.as_deref(), Some("r#type"));
    assert_eq!(d.fields[0].getter, "type_or_err");
}

#[test]
fn skip_leaves_out_accessors() {
    let st = color();
    for (which, getters, setters) in [
        (SkipWhich::All, false, false),
        (SkipWhich::Getters, false, true),
        (SkipWhich::Setters, true, false),
    ] {
        let c = skipping(which, 2);
        let acc = st.expand_getters_and_setters(&c);
        assert_eq!(acc.fields[2].getters.is_some(), getters);
        assert_eq!(acc.fields[2].setters.is_some(), setters);
        assert!(acc.fields[1].getters.is_some() && acc.fields[1].setters.is_some());
    }
}

#[test]
fn offsets_accumulate_over_all_fields() {
    let st = color();
    let c = skipping(SkipWhich::All, 1);
    let acc = st.expand_getters_and_setters(&c);
    assert_eq!(acc.fields.len(), 5);
    let mut expected = lit(0);
    for i in 0..5 {
        assert_eq!(acc.fields[i].field, i);
        if i != 1 {
            assert_eq!(acc.fields[i].getters.as_ref().unwrap().offset, expected);
            assert_eq!(acc.fields[i].setters.as_ref().unwrap().offset, expected);
        }
        expected = plus(expected, bits(i));
    }
    let offsets: Vec<i64> = [0, 2, 3, 4]
        .iter()
        .map(|&i| eval(&acc.fields[i].getters.as_ref().unwrap().offset, &COLOR_WIDTHS))
        .collect();
    assert_eq!(offsets, vec![0, 16, 24, 25]);
}

#[test]
fn getters_and_setters_for_field_moves_the_offset() {
    let st = color();
    let infos = st.field_infos(&config());
    let mut offset = plus(lit(0), bits(0));
    let acc = st.expand_getters_and_setters_for_field(&mut offset, &infos[1]);
    assert_eq!(acc.getters.unwrap().offset, plus(lit(0), bits(0)));
    assert_eq!(offset, plus(plus(lit(0), bits(0)), bits(1)));
}

#[test]
fn bits_checks_follow_field_configs() {
    let st = color();
    let mut c = config();
    c.field_configs = vec![None, None, None, Some(FieldConfig { bits: Some(at(1, 11)), skip: None })];
    let acc = st.expand_getters_and_setters(&c);
    assert_eq!(acc.bits_checks.len(), 5);
    assert_eq!(acc.bits_checks[3].expected_bits, Some(at(1, 11)));
    assert_eq!(acc.bits_checks[3].field, 3);
    assert_eq!(acc.bits_checks[0].expected_bits, None);
    assert_eq!(acc.bits_checks[4].expected_bits, None);
    let infos = st.field_infos(&c);
    let check = BitfieldStruct::expand_bits_checks_for_field(&infos[3]);
    assert_eq!(check, acc.bits_checks[3]);
}

#[test]
fn field_config_lookup_defaults() {
    let c = skipping(SkipWhich::Getters, 1);
    assert_eq!(c.field_config(0), FieldConfig { bits: None, skip: None });
    assert_eq!(c.field_config(1).skip, Some(SkipWhich::Getters));
    assert_eq!(c.field_config(7), FieldConfig { bits: None, skip: None });
    assert!(c.field_config(1).skip_getters());
    assert!(!c.field_config(1).skip_setters());
    assert!(config().filled_enabled());
    let mut c = config();
    c.filled = Some(false);
    assert!(!c.filled_enabled());
}

#[test]
fn debug_impl_absent_without_derive() {
    assert!(color().generate_debug_impl(&config()).is_none());
}

#[test]
fn debug_impl_of_named_struct_skips_getterless_fields() {
    let mut c = skipping(SkipWhich::Getters, 1);
    c.derive_debug = true;
    let d = color().generate_debug_impl(&c).unwrap();
    assert_eq!(d.builder, DebugBuilder::Struct);
    let entries: Vec<(usize, Option<String>, String)> =
        d.fields.iter().map(|f| (f.index, f.label.clone(), f.getter.clone())).collect();
    assert_eq!(
        entries,
        vec![
            (0, Some("r".to_string()), "r_or_err".to_string()),
            (2, Some("b".to_string()), "b_or_err".to_string()),
            (3, Some("a".to_string()), "a_or_err".to_string()),
            (4, Some("rest".to_string()), "rest_or_err".to_string()),
        ]
    );
    // A field whose setters alone are skipped is still shown.
    let mut c = skipping(SkipWhich::Setters, 1);
    c.derive_debug = true;
    assert_eq!(color().generate_debug_impl(&c).unwrap().fields.len(), 5);
}

#[test]
fn debug_impl_of_tuple_struct() {
    let mut c = config();
    c.derive_debug = true;
    let d = tuple(2).generate_debug_impl(&c).unwrap();
    assert_eq!(d.builder, DebugBuilder::Tuple);
    assert_eq!(d.fields[0].label, None);
    assert_eq!(d.fields[0].getter, "get_0_or_err");
    assert_eq!(d.fields[1].getter, "get_1_or_err");
}

#[test]
fn expand_assembles_every_part() {
    let st = color();
    let mut c = config();
    c.bytes = Some(at(4, 8));
    c.repr = Some(at(ReprKind::U32, 9));
    c.derive_debug = true;
    c.derive_specifier = true;
    let e = st.expand(&c);
    assert_eq!(e.struct_def, st.generate_struct(&c));
    assert_eq!(e.check_filled, st.generate_check_for_filled(&c));
    assert_eq!(e.constructor, st.generate_constructor(&c));
    assert_eq!(e.byte_conversion, st.expand_byte_conversion_impls(&c));
    assert_eq!(e.accessors, st.expand_getters_and_setters(&c));
    assert_eq!(e.specifier_impl, st.generate_specifier_impl(&c));
    assert_eq!(e.bytes_check, st.expand_optional_bytes_check(&c));
    assert_eq!(e.repr_impl, st.expand_repr_from_impls_and_checks(&c));
    assert_eq!(e.debug_impl, st.generate_debug_impl(&c));
    assert!(e.specifier_impl.is_some() && e.bytes_check.is_some());
    assert!(e.repr_impl.is_some() && e.debug_impl.is_some());
    let plain = st.expand(&config());
    assert!(plain.specifier_impl.is_none() && plain.bytes_check.is_none());
    assert!(plain.repr_impl.is_none() && plain.debug_impl.is_none());
}

#[test]
fn deep_copy_is_equal() {
    let e = BitfieldStruct::next_divisible_by_8(&color().generate_bitfield_size());
    assert_eq!(e.deep_copy(), e);
}
