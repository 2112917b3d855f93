//! Each law of the library on concrete values.

use modular_bitfield_impl::items::FromBytes;
use modular_bitfield_impl::model::{
    BitfieldStruct, Config, ConfigValue, Field, ReprKind, SpanId,
};
use modular_bitfield_impl::names::push_decimal;
use modular_bitfield_impl::size_expr::SizeExpr;

/// Const evaluation of the expression in `usize`: `None` where it fails.
fn try_eval(e: &SizeExpr, widths: &[i64]) -> Option<usize> {
    match e {
        SizeExpr::Lit(n) => Some(*n),
        SizeExpr::SpannedLit(n, _) => Some(*n),
        SizeExpr::FieldBits(i) => usize::try_from(widths[*i]).ok(),
        SizeExpr::Add(a, b) => try_eval(a, widths)?.checked_add(try_eval(b, widths)?),
        SizeExpr::Sub(a, b) => try_eval(a, widths)?.checked_sub(try_eval(b, widths)?),
        SizeExpr::Div(a, b) => try_eval(a, widths)?.checked_div(try_eval(b, widths)?),
        SizeExpr::Mul(a, b) => try_eval(a, widths)?.checked_mul(try_eval(b, widths)?),
    }
}

fn eval(e: &SizeExpr, widths: &[i64]) -> i64 {
    try_eval(e, widths).expect("the expression evaluates") as i64
}

fn st(n: usize) -> BitfieldStruct {
    BitfieldStruct {
        ident: "S".to_string(),
        is_tuple: false,
        fields: (0..n).map(|i| Field { ident: Some(format!("f{}", i)) }).collect(),
    }
}

fn at<T>(value: T, span: usize) -> ConfigValue<T> {
    ConfigValue { value, span: SpanId(span) }
}

fn config() -> Config {
    Config {
        bytes: None,
        bits: None,
        filled: None,
        repr: None,
        derive_debug: true,
        derive_specifier: false,
        field_configs: Vec::new(),
    }
}

#[test]
fn law_next_divisible_by_8_on_values() {
    for v in 1..200usize {
        let r = eval(&BitfieldStruct::next_divisible_by_8(&SizeExpr::Lit(v)), &[]);
        assert_eq!(r % 8, 0);
        assert!(v as i64 <= r && r < v as i64 + 8);
    }
}

#[test]
fn law_bitfield_size_is_sum_of_widths_on_values() {
    let widths = [3, 5, 1, 7];
    assert_eq!(eval(&st(4).generate_bitfield_size(), &widths), 16);
}

#[test]
fn law_storage_is_minimal_on_values() {
    for (widths, bytes) in [(vec![3, 5], 1), (vec![3, 6], 2), (vec![64, 64], 16), (vec![1], 1)] {
        let s = st(widths.len());
        let len = eval(&s.generate_struct(&config()).byte_len, &widths);
        assert_eq!(len, bytes);
    }
}

#[test]
fn law_fields_lie_within_storage_on_values() {
    let widths = [3, 6, 7];
    let s = st(3);
    let mut c = config();
    c.filled = Some(false);
    let e = s.expand(&c);
    let storage = 8 * eval(&e.struct_def.byte_len, &widths);
    for (i, f) in e.accessors.fields.iter().enumerate() {
        let off = eval(&f.getters.as_ref().unwrap().offset, &widths);
        assert!(off + widths[i] <= storage);
    }
    assert_eq!(storage, 16);
}

#[test]
fn law_fields_follow_one_another_on_values() {
    let widths = [3, 6, 7];
    let e = st(3).expand(&config());
    let offs: Vec<i64> = e
        .accessors
        .fields
        .iter()
        .map(|f| eval(&f.setters.as_ref().unwrap().offset, &widths))
        .collect();
    assert_eq!(offs, vec![0, 3, 9]);
}

#[test]
fn law_filled_storage_has_no_spare_bits_on_values() {
    let widths = [3, 5, 8];
    let e = st(3).expand(&config());
    assert_eq!(8 * eval(&e.struct_def.byte_len, &widths), 16);
}

#[test]
fn law_bytes_check_on_values() {
    let widths = [9, 3];
    let s = st(2);
    let mut c = config();
    c.filled = Some(false);
    let len = eval(&s.generate_struct(&c).byte_len, &widths);
    assert_eq!(len, 2);
}

#[test]
fn law_repr_matches_storage_on_values() {
    let mut c = config();
    c.repr = Some(at(ReprKind::U16, 9));
    let s = st(2);
    let e = s.expand(&c);
    let widths = [10, 6];
    let r = e.repr_impl.unwrap();
    assert_eq!(eval(&r.actual_bits, &widths), 16);
    assert_eq!(8 * eval(&e.struct_def.byte_len, &widths), r.kind.bits() as i64);
}

#[test]
fn law_from_bytes_accepts_values_in_range_on_values() {
    let mut c = config();
    c.filled = Some(false);
    let s = st(2);
    let e = s.expand(&c);
    let widths = [8, 3];
    let (next, size) = match &e.byte_conversion.from_bytes {
        FromBytes::Checked { next_divisible_by_8, size } => (next_divisible_by_8, size),
        FromBytes::Infallible => panic!("unfilled conversion is checked"),
    };
    let unused = eval(next, &widths) - eval(size, &widths);
    for lo in [0u8, 0x55, 0xff] {
        for hi in 0..=255u8 {
            let accepts = (hi as u16) < (1u16 << (8 - unused));
            let value = lo as u32 + 256 * hi as u32;
            assert_eq!(accepts, value < (1 << 11));
        }
    }
}

#[test]
fn law_debug_uses_generated_getters_on_values() {
    let e = st(3).expand(&config());
    let d = e.debug_impl.unwrap();
    for f in &d.fields {
        assert_eq!(e.accessors.fields[f.index].getters.as_ref().unwrap().checked_getter, f.getter);
    }
}

#[test]
fn law_accessor_names_differ_on_values() {
    let e = st(1).expand(&config());
    let g = e.accessors.fields[0].getters.as_ref().unwrap();
    let s = e.accessors.fields[0].setters.as_ref().unwrap();
    let names = [
        &g.getter,
        &g.checked_getter,
        &s.set_name,
        &s.set_checked_name,
        &s.with_name,
        &s.with_checked_name,
    ];
    for a in 0..6 {
        for b in a + 1..6 {
            assert_ne!(names[a], names[b]);
        }
    }
}

#[test]
fn law_filled_check_on_values() {
    let e = st(2).expand(&config());
    assert!(matches!(
        e.check_filled,
        modular_bitfield_impl::items::FilledCheck::Aligned {
            check: modular_bitfield_impl::items::CheckTrait::CheckTotalSizeMultipleOf8,
            ..
        }
    ));
}

#[test]
fn law_storage_of_zero_bits_does_not_evaluate() {
    let s = st(2);
    let widths = [0, 0];
    assert_eq!(try_eval(&s.generate_struct(&config()).byte_len, &widths), None);
    let mut c = config();
    c.bits = Some(at(0, 7));
    assert_eq!(try_eval(&s.generate_constructor(&c).byte_len, &widths), None);
}

#[test]
fn law_specifier_storage_fits_on_values() {
    let mut c = config();
    c.derive_specifier = true;
    let spec = st(2).generate_specifier_impl(&c).unwrap();
    for widths in [[64, 64], [3, 4], [60, 61], [1, 0]] {
        let bits = eval(&spec.bits, &widths);
        let next = eval(&spec.next_divisible_by_8, &widths);
        assert!(bits <= 128);
        assert!(bits <= next && next <= 128 && next % 8 == 0);
    }
    assert!(eval(&spec.bits, &[64, 65]) > 128);
}

#[test]
fn law_setter_accepts_values_in_range_on_values() {
    // `!0 >> (base_bits - BITS)` on a `u8` for a field of 5 bits.
    let max: u8 = !0u8 >> (8 - 5);
    assert_eq!(max as u32, (1 << 5) - 1);
    for raw in 0..=255u8 {
        assert_eq!(raw <= max, (raw as u32) < (1 << 5));
    }
}

#[test]
fn decimal_text() {
    for n in [0usize, 7, 10, 99, 1234, usize::MAX] {
        let mut s = String::from("x");
        push_decimal(&mut s, n);
        assert_eq!(s, format!("x{}", n));
    }
}
