use vstd::prelude::*;
use vstd::arithmetic::power2::{lemma2_to64, lemma_pow2_adds, lemma_pow2_pos, pow2};
use crate::items::{Accessors, CheckTrait, FilledCheck, BytesCheck, DebugImpl, FromBytes, ReprImpl, SetterPlan, SpecifierImpl};
use vstd::arithmetic::div_mod::lemma_fundamental_div_mod_converse;
use crate::expand::{debug_entries, debug_entry, is_accessors_of, is_debug_impl_of, is_field_accessors};
use crate::names::{
    checked_getter_name, field_frag, getter_name, unraw, set_checked_name, set_name, with_checked_name,
    with_name,
};
use crate::model::{BitfieldStruct, Config, FieldConfig, SkipWhich, SpanId};
use crate::size_expr::{
    lemma_evaluates_in_range, lemma_sum_of_field_bits_eval, lemma_sum_of_field_bits_evaluates,
    lemma_width_sum_nonneg, round_up_to_8, sum_of_field_bits, valid_widths, width_sum, SizeExpr,
};

verus! {

/// The expression `next_divisible_by_8` builds evaluates exactly for a value
/// of at least 1 whose rounded value fits in `usize`, to the smallest multiple
/// of 8 that is not below the value. For 0 it does not evaluate: `0 - 1`
/// underflows.
pub proof fn law_next_divisible_by_8(value: SizeExpr, widths: spec_fn(int) -> nat)
    requires
        value.evaluates(widths),
    ensures
        ({
            let v = value.eval(widths);
            let r = round_up_to_8(value).eval(widths);
            &&& round_up_to_8(value).evaluates(widths) <==> (v >= 1 && r <= usize::MAX)
            &&& v >= 1 ==> r % 8 == 0 && v <= r < v + 8
            &&& v >= 1 && v % 8 == 0 ==> r == v
            &&& v == 0 ==> !round_up_to_8(value).evaluates(widths)
        }),
{
    let v = value.eval(widths);
    let r = round_up_to_8(value).eval(widths);
    lemma_evaluates_in_range(value, widths);
    let one = SizeExpr::Lit(1);
    let eight = SizeExpr::Lit(8);
    let sub = SizeExpr::Sub(Box::new(value), Box::new(one));
    let div = SizeExpr::Div(Box::new(sub), Box::new(eight));
    let add = SizeExpr::Add(Box::new(div), Box::new(one));
    assert(round_up_to_8(value) == SizeExpr::Mul(Box::new(add), Box::new(eight)));
    assert(one.evaluates(widths) && one.eval(widths) == 1);
    assert(eight.evaluates(widths) && eight.eval(widths) == 8);
    assert(sub.eval(widths) == v - 1);
    assert(sub.evaluates(widths) <==> v >= 1);
    assert(div.eval(widths) == (v - 1) / 8);
    assert(div.evaluates(widths) <==> v >= 1);
    assert(add.eval(widths) == (v - 1) / 8 + 1);
    assert((v - 1) == 8 * ((v - 1) / 8) + (v - 1) % 8);
    assert(add.evaluates(widths) <==> v >= 1);
    assert(r == ((v - 1) / 8 + 1) * 8);
}

/// The size expression of a struct evaluates to the sum of the widths of its
/// fields, and the compiler evaluates it exactly when that sum fits in `usize`.
pub proof fn law_bitfield_size_is_sum_of_widths(st: BitfieldStruct, widths: spec_fn(int) -> nat)
    requires
        valid_widths(widths, st.fields.len() as nat),
    ensures
        sum_of_field_bits(st.fields.len() as nat).eval(widths) == width_sum(widths, st.fields.len() as nat),
        sum_of_field_bits(st.fields.len() as nat).evaluates(widths) <==> width_sum(
            widths,
            st.fields.len() as nat,
        ) <= usize::MAX,
{
    lemma_sum_of_field_bits_eval(widths, st.fields.len() as nat);
    lemma_sum_of_field_bits_evaluates(widths, st.fields.len() as nat);
}

/// The widths summed up to a later field are at least those summed up to an earlier one.
pub proof fn lemma_width_sum_monotone(widths: spec_fn(int) -> nat, i: nat, j: nat)
    requires
        i <= j,
    ensures
        width_sum(widths, i) <= width_sum(widths, j),
    decreases j - i,
{
    if i < j {
        lemma_width_sum_monotone(widths, i, (j - 1) as nat);
    }
}

/// Where the byte length of the storage evaluates, so does the number of
/// bits, and it is at least 1.
proof fn lemma_byte_len_evaluates(st: BitfieldStruct, config: Config, widths: spec_fn(int) -> nat)
    requires
        st.spec_byte_len(config).evaluates(widths),
    ensures
        st.spec_target_size(config).evaluates(widths),
        st.spec_target_size(config).eval(widths) >= 1,
{
    reveal_with_fuel(SizeExpr::evaluates, 6);
    reveal_with_fuel(SizeExpr::eval, 2);
}

/// The check of `filled` compiles exactly when the fields' widths sum to a
/// `usize` and: with `bits = N`, the fields take `N` bits (`filled = true`)
/// or fewer (`filled = false`); without, they take a multiple of 8 bits
/// (`filled = true`) or not (`filled = false`).
pub proof fn law_filled_check(st: BitfieldStruct, config: Config, widths: spec_fn(int) -> nat)
    requires
        valid_widths(widths, st.fields.len() as nat),
    ensures
        st.spec_filled_check(config).holds(widths) <==> {
            let actual = width_sum(widths, st.fields.len() as nat);
            &&& actual <= usize::MAX
            &&& match config.bits {
                Some(required) => if config.spec_filled_enabled() {
                    actual == required.value as int
                } else {
                    actual < required.value as int
                },
                None => if config.spec_filled_enabled() {
                    actual % 8 == 0
                } else {
                    actual % 8 != 0
                },
            }
        },
{
    law_bitfield_size_is_sum_of_widths(st, widths);
}

/// The byte length of the storage evaluates exactly when the struct stores at
/// least 1 bit (for 0 bits the rounding underflows) and the storage fits in
/// `usize`; the byte array is then the shortest that holds the bits: `8 * len`
/// is the smallest multiple of 8 that is not below them.
pub proof fn law_storage_is_minimal(st: BitfieldStruct, config: Config, widths: spec_fn(int) -> nat)
    requires
        st.spec_target_size(config).evaluates(widths),
    ensures
        ({
            let size = st.spec_target_size(config).eval(widths);
            let len = st.spec_byte_len(config).eval(widths);
            &&& st.spec_byte_len(config).evaluates(widths) <==> (size >= 1 && 8 * len <= usize::MAX)
            &&& size == 0 ==> !st.spec_byte_len(config).evaluates(widths)
            &&& size >= 1 ==> 8 * len >= size && 8 * len < size + 8
        }),
{
    let size_expr = st.spec_target_size(config);
    law_next_divisible_by_8(size_expr, widths);
    let r = round_up_to_8(size_expr).eval(widths);
    reveal_with_fuel(SizeExpr::eval, 2);
    reveal_with_fuel(SizeExpr::evaluates, 2);
    assert(st.spec_byte_len(config).eval(widths) == r / 8);
    assert(st.spec_byte_len(config).evaluates(widths) <==> round_up_to_8(size_expr).evaluates(widths));
}

/// A struct that fills its storage without `bits = N` uses every bit of its
/// byte array, whenever its check of `filled` and its storage compile.
pub proof fn law_filled_storage_has_no_spare_bits(
    st: BitfieldStruct,
    config: Config,
    widths: spec_fn(int) -> nat,
)
    requires
        valid_widths(widths, st.fields.len() as nat),
        config.spec_filled_enabled(),
        config.bits is None,
        st.spec_filled_check(config).holds(widths),
        st.spec_byte_len(config).evaluates(widths),
    ensures
        8 * st.spec_byte_len(config).eval(widths) == width_sum(widths, st.fields.len() as nat),
{
    law_filled_check(st, config, widths);
    lemma_sum_of_field_bits_eval(widths, st.fields.len() as nat);
    lemma_byte_len_evaluates(st, config, widths);
    law_storage_is_minimal(st, config, widths);
}

/// The field at index `i` occupies the bits from its offset, the sum of the
/// widths of the fields before it, up to the offset of the next field; the
/// fields thus follow one another without gap or overlap.
pub proof fn law_fields_follow_one_another(widths: spec_fn(int) -> nat, i: nat, j: nat)
    requires
        i < j <= usize::MAX,
    ensures
        sum_of_field_bits(i).eval(widths) == width_sum(widths, i),
        sum_of_field_bits(i).eval(widths) >= 0,
        sum_of_field_bits(i + 1).eval(widths) == sum_of_field_bits(i).eval(widths) + widths(i as int),
        sum_of_field_bits(i).eval(widths) + widths(i as int) <= sum_of_field_bits(j).eval(widths),
{
    lemma_sum_of_field_bits_eval(widths, i);
    lemma_sum_of_field_bits_eval(widths, i + 1);
    lemma_sum_of_field_bits_eval(widths, j);
    lemma_width_sum_nonneg(widths, i);
    lemma_width_sum_monotone(widths, i + 1, j);
}

/// Whenever its check of `filled` and its storage compile, every field of the
/// struct lies within the byte array: its accessors read and write only
/// stored bits.
pub proof fn law_fields_lie_within_storage(
    st: BitfieldStruct,
    config: Config,
    widths: spec_fn(int) -> nat,
    i: nat,
)
    requires
        valid_widths(widths, st.fields.len() as nat),
        st.spec_filled_check(config).holds(widths),
        st.spec_byte_len(config).evaluates(widths),
        i < st.fields.len(),
    ensures
        0 <= sum_of_field_bits(i).eval(widths),
        sum_of_field_bits(i).eval(widths) + widths(i as int) <= 8 * st.spec_byte_len(config).eval(
            widths,
        ),
{
    let n = st.fields.len() as nat;
    lemma_sum_of_field_bits_eval(widths, i);
    lemma_sum_of_field_bits_eval(widths, i + 1);
    lemma_sum_of_field_bits_eval(widths, n);
    lemma_width_sum_nonneg(widths, i);
    lemma_width_sum_monotone(widths, i + 1, n);
    law_filled_check(st, config, widths);
    lemma_byte_len_evaluates(st, config, widths);
    law_storage_is_minimal(st, config, widths);
}

/// `bytes = N` compiles exactly when the storage compiles and has `N` bytes,
/// that is, when `N` bytes are the fewest that hold the struct's bits.
pub proof fn law_bytes_check(
    st: BitfieldStruct,
    config: Config,
    widths: spec_fn(int) -> nat,
    bytes: usize,
    span: SpanId,
)
    requires
        st.spec_target_size(config).evaluates(widths),
    ensures
        (BytesCheck { bytes, span }).holds(st.spec_byte_len(config), widths) <==> {
            let size = st.spec_target_size(config).eval(widths);
            size >= 1 && 8 * bytes <= usize::MAX && 8 * bytes >= size && 8 * bytes < size + 8
        },
{
    law_storage_is_minimal(st, config, widths);
}

/// Whenever the `#[repr(uN)]` compatibility check compiles, the storage
/// compiles and has exactly the bytes of the primitive, so that the `From`
/// impls convert between equal lengths.
pub proof fn law_repr_matches_storage(st: BitfieldStruct, config: Config, widths: spec_fn(int) -> nat)
    requires
        config.repr is Some,
        (ReprImpl {
            kind: config.repr->Some_0.value,
            span: config.repr->Some_0.span,
            actual_bits: st.spec_target_size(config),
        }).holds(widths),
    ensures
        st.spec_byte_len(config).evaluates(widths),
        8 * st.spec_byte_len(config).eval(widths) == (config.repr->Some_0.value).spec_bits(),
{
    law_storage_is_minimal(st, config, widths);
}

/// With `#[derive(Specifier)]`, whenever the check of at most 128 bits and
/// the rounding of the size compile, the storage of `next_divisible_by_8`
/// bits that the array conversions use holds all `BITS` bits and has at most
/// 128 bits, so that it converts from and into a `Bytes` of up to 128 bits.
pub proof fn law_specifier_storage_fits(st: BitfieldStruct, config: Config, widths: spec_fn(int) -> nat)
    requires
        (SpecifierImpl {
            bits: st.spec_target_size(config),
            next_divisible_by_8: round_up_to_8(st.spec_target_size(config)),
        }).holds(widths),
        round_up_to_8(st.spec_target_size(config)).evaluates(widths),
    ensures
        ({
            let bits = st.spec_target_size(config).eval(widths);
            let next = round_up_to_8(st.spec_target_size(config)).eval(widths);
            &&& 1 <= bits <= next <= 128
            &&& next % 8 == 0
        }),
{
    law_next_divisible_by_8(st.spec_target_size(config), widths);
}

/// For a field of fewer bits than its `Bytes` type, `!0 >> (base_bits - BITS)`
/// is `2^BITS - 1`: the checked setter writes exactly the raw values that fit
/// in the field's bits. A field as wide as its `Bytes` takes every raw value.
pub proof fn law_setter_accepts_values_in_range(
    plan: SetterPlan,
    raw: int,
    base_bits: nat,
    widths: spec_fn(int) -> nat,
)
    requires
        widths(plan.field as int) <= base_bits,
        0 <= raw < pow2(base_bits),
    ensures
        plan.accepts(raw, base_bits, widths) <==> raw < pow2(widths(plan.field as int)),
{
    let b = widths(plan.field as int);
    if b < base_bits {
        let k = (base_bits - b) as nat;
        lemma_pow2_adds(b, k);
        assert(b + k == base_bits);
        lemma_pow2_pos(k);
        lemma_pow2_pos(b);
        let pb = pow2(b) as int;
        let pk = pow2(k) as int;
        let all = pow2(base_bits) as int - 1;
        assert(all == (pb - 1) * pk + (pk - 1)) by (nonlinear_arith)
            requires
                all == pb * pk - 1,
        ;
        lemma_fundamental_div_mod_converse(all, pk, pb - 1, pk - 1);
        assert(all / pk == pb - 1);
    }
}

/// The value of a byte array read little-endian, byte `i` weighing `2^(8 * i)`.
pub open spec fn le_value(bytes: Seq<u8>) -> nat
    decreases bytes.len(),
{
    if bytes.len() == 0 {
        0
    } else {
        le_value(bytes.drop_last()) + bytes.last() as nat * pow2((8 * (bytes.len() - 1)) as nat)
    }
}

/// A byte array of `n` bytes has a value below `2^(8 * n)`.
pub proof fn lemma_le_value_bound(bytes: Seq<u8>)
    ensures
        le_value(bytes) < pow2((8 * bytes.len()) as nat),
    decreases bytes.len(),
{
    let n = bytes.len();
    if n == 0 {
        lemma2_to64();
    } else {
        let m = (8 * (n - 1)) as nat;
        lemma_le_value_bound(bytes.drop_last());
        lemma_pow2_adds(m, 8);
        lemma2_to64();
        assert((8 * n) as nat == m + 8);
        let pre = le_value(bytes.drop_last());
        let last = bytes.last() as nat;
        let p = pow2(m);
        assert(pre + last * p < 256 * p) by (nonlinear_arith)
            requires
                pre < p,
                last <= 255,
        ;
    }
}

/// Without `filled`, `from_bytes` accepts exactly the byte arrays whose
/// value, read little-endian, fits in the struct's bits: those with no bit
/// set at a position that is undefined for the struct.
pub proof fn law_from_bytes_accepts_values_in_range(
    size: SizeExpr,
    widths: spec_fn(int) -> nat,
    bytes: Seq<u8>,
)
    requires
        size.evaluates(widths),
        size.eval(widths) >= 1,
        8 * bytes.len() == round_up_to_8(size).eval(widths),
    ensures
        (FromBytes::Checked { next_divisible_by_8: round_up_to_8(size), size }).accepts(
            bytes.last(),
            widths,
        ) <==> le_value(bytes) < pow2(size.eval(widths) as nat),
{
    let s = size.eval(widths);
    law_next_divisible_by_8(size, widths);
    let n = bytes.len();
    assert(n >= 1);
    let m = (8 * (n - 1)) as nat;
    let r = (s - m) as nat;
    assert(1 <= r <= 8);
    let unused = round_up_to_8(size).eval(widths) - s;
    assert((8 - unused) as nat == r);
    let pre = le_value(bytes.drop_last());
    let last = bytes.last() as nat;
    assert(le_value(bytes) == pre + last * pow2(m));
    lemma_le_value_bound(bytes.drop_last());
    assert((8 * bytes.drop_last().len()) as nat == m);
    lemma_pow2_adds(r, m);
    assert(r + m == s as nat);
    let pr = pow2(r);
    let pm = pow2(m);
    lemma_pow2_pos(r);
    lemma_pow2_pos(m);
    if last < pr {
        assert(pre + last * pm < pr * pm) by (nonlinear_arith)
            requires
                pre < pm,
                last + 1 <= pr,
        ;
    } else {
        assert(pre + last * pm >= pr * pm) by (nonlinear_arith)
            requires
                last >= pr,
                pm > 0,
                pre >= 0,
        ;
    }
}

/// Every entry of the `Debug` impl's first `n` fields comes from a field
/// before `n` whose getters are not skipped.
proof fn lemma_debug_entry_source(st: BitfieldStruct, config: Config, n: nat, k: int)
    requires
        0 <= k < debug_entries(st, config, n).len(),
    ensures
        exists|i: nat|
            i < n && !config.spec_field_config(i as int).spec_skip_getters()
                && debug_entries(st, config, n)[k] == #[trigger] debug_entry(st, i),
    decreases n,
{
    let before = debug_entries(st, config, (n - 1) as nat);
    if k < before.len() {
        lemma_debug_entry_source(st, config, (n - 1) as nat, k);
        let i = choose|i: nat|
            i < n - 1 && !config.spec_field_config(i as int).spec_skip_getters()
                && before[k] == #[trigger] debug_entry(st, i);
        assert(debug_entries(st, config, n)[k] == debug_entry(st, i));
    } else {
        assert(debug_entries(st, config, n)[k] == debug_entry(st, (n - 1) as nat));
    }
}

/// The `Debug` impl calls only getters that the expansion generates: each of
/// its entries shows a field whose checked getter it names.
pub proof fn law_debug_uses_generated_getters(
    st: BitfieldStruct,
    config: Config,
    accessors: Accessors,
    debug: DebugImpl,
    k: int,
)
    requires
        is_accessors_of(accessors, st, config),
        is_debug_impl_of(debug, st, config),
        0 <= k < debug.fields.len(),
    ensures
        debug.fields[k].index < st.fields.len(),
        accessors.fields[debug.fields[k].index as int].getters matches Some(g)
            && g.checked_getter@ == debug.fields[k].getter@,
{
    let n = st.fields.len() as nat;
    lemma_debug_entry_source(st, config, n, k);
    let i = choose|i: nat|
        i < n && !config.spec_field_config(i as int).spec_skip_getters()
            && debug_entries(st, config, n)[k] == #[trigger] debug_entry(st, i);
    assert(debug.fields[k].entry() == debug_entries(st, config, n)[k]);
    assert(debug.fields[k].index == i);
    let a = accessors.fields[i as int];
    assert(a.getters is Some);
}

/// The six accessors that a field can have carry six different names.
pub proof fn law_accessor_names_differ(ident: Option<Seq<char>>, index: nat)
    ensures
        ({
            let frag = field_frag(ident, index);
            let names = seq![
                getter_name(ident, index),
                checked_getter_name(ident, index),
                set_name(frag),
                set_checked_name(frag),
                with_name(frag),
                with_checked_name(frag),
            ];
            forall|a: int, b: int| 0 <= a < b < 6 ==> names[a] != names[b]
        }),
{
    reveal_strlit("get_");
    reveal_strlit("_or_err");
    reveal_strlit("set_");
    reveal_strlit("_checked");
    reveal_strlit("with_");
    let frag = field_frag(ident, index);
    let names = seq![
        getter_name(ident, index),
        checked_getter_name(ident, index),
        set_name(frag),
        set_checked_name(frag),
        with_name(frag),
        with_checked_name(frag),
    ];
    let len = frag.len();
    assert(names[2].len() == len + 4 && names[2][0] == 's');
    assert(names[3].len() == len + 12 && names[3][0] == 's');
    assert(names[4].len() == len + 5 && names[4][0] == 'w');
    assert(names[5].len() == len + 13 && names[5][0] == 'w');
    match ident {
        Some(id) => {
            assert(names[0] == id);
            assert(id.len() == len || id.len() == len + 2);
            assert(names[1].len() == len + 7);
        },
        None => {
            assert(names[0].len() == len + 4 && names[0][0] == 'g');
            assert(names[1].len() == len + 11);
        },
    }
    assert forall|a: int, b: int| 0 <= a < b < 6 implies names[a] != names[b] by {
        if names[a] == names[b] {
            assert(names[a].len() == names[b].len());
            assert(names[a][0] == names[b][0]);
        }
    }
}

/// `filled` is on unless the attribute says `filled = false`.
pub proof fn law_filled_is_on_unless_false(config: Config)
    ensures
        config.spec_filled_enabled() <==> config.filled != Some(false),
{
}

/// The check of `filled`, stated over the attribute itself: unless
/// `filled = false` is given, it compiles exactly when the fields take `N`
/// bits (with `bits = N`) or a multiple of 8 bits (without); with
/// `filled = false`, exactly when they take fewer than `N` bits or not a
/// multiple of 8.
pub proof fn law_filled_check_by_attribute(st: BitfieldStruct, config: Config, widths: spec_fn(int) -> nat)
    requires
        valid_widths(widths, st.fields.len() as nat),
    ensures
        st.spec_filled_check(config).holds(widths) <==> {
            let actual = width_sum(widths, st.fields.len() as nat);
            &&& actual <= usize::MAX
            &&& match config.bits {
                Some(b) => if config.filled != Some(false) {
                    actual == b.value as int
                } else {
                    actual < b.value as int
                },
                None => if config.filled != Some(false) {
                    actual % 8 == 0
                } else {
                    actual % 8 != 0
                },
            }
        },
        config.bits is None && config.filled != Some(false) ==> st.spec_filled_check(config)
            matches FilledCheck::Aligned { check: CheckTrait::CheckTotalSizeMultipleOf8, .. },
        config.bits is None && config.filled == Some(false) ==> st.spec_filled_check(config)
            matches FilledCheck::Aligned { check: CheckTrait::CheckTotalSizeIsNotMultipleOf8, .. },
{
    law_filled_check(st, config, widths);
}

/// The number of bits that the struct stores is `N` exactly where `bits = N`
/// is given (whatever `filled` is), and the sum of the fields' widths otherwise.
pub proof fn law_target_size_is_configured_bits(st: BitfieldStruct, config: Config, widths: spec_fn(int) -> nat)
    ensures
        config.bits matches Some(b) ==> st.spec_target_size(config).evaluates(widths)
            && st.spec_target_size(config).eval(widths) == b.value as int,
        config.bits is None ==> st.spec_target_size(config).eval(widths) == width_sum(
            widths,
            st.fields.len() as nat,
        ),
{
    lemma_sum_of_field_bits_eval(widths, st.fields.len() as nat);
}

/// With `bits = N` (N at least 1), the storage has the fewest bytes that hold
/// `N` bits, whatever `filled` is and whatever the fields take.
pub proof fn law_storage_of_configured_bits(st: BitfieldStruct, config: Config, widths: spec_fn(int) -> nat)
    requires
        config.bits matches Some(b) && b.value >= 1,
    ensures
        ({
            let n = (config.bits->Some_0).value as int;
            let len = st.spec_byte_len(config).eval(widths);
            &&& st.spec_byte_len(config).evaluates(widths) <==> 8 * len <= usize::MAX
            &&& 8 * len >= n && 8 * len < n + 8
        }),
{
    law_target_size_is_configured_bits(st, config, widths);
    law_storage_is_minimal(st, config, widths);
}

/// The configuration of the field at index `i` is the entry at `i` of
/// `field_configs` where there is one, and no `#[bits]` and no `#[skip]`
/// otherwise; `#[skip]` leaves out getters for `All` and `Getters`, and
/// setters for `All` and `Setters`.
pub proof fn law_field_config_lookup(config: Config, i: int)
    ensures
        0 <= i < config.field_configs.len() && config.field_configs[i] is Some ==> config.spec_field_config(i)
            == config.field_configs[i]->Some_0,
        !(0 <= i < config.field_configs.len() && config.field_configs[i] is Some) ==> config.spec_field_config(i)
            == (FieldConfig { bits: None, skip: None }),
        config.spec_field_config(i).spec_skip_getters() <==> (config.spec_field_config(i).skip == Some(SkipWhich::All)
            || config.spec_field_config(i).skip == Some(SkipWhich::Getters)),
        config.spec_field_config(i).spec_skip_setters() <==> (config.spec_field_config(i).skip == Some(SkipWhich::All)
            || config.spec_field_config(i).skip == Some(SkipWhich::Setters)),
{
}

/// Over `field_configs` itself: a field whose entry skips getters (`All`,
/// `Getters`) gets no getters, one whose entry skips setters (`All`,
/// `Setters`) gets no setters, and a field without an entry gets both; its
/// `#[bits]` check carries the entry's `bits`.
pub proof fn law_skip_by_field_configs(st: BitfieldStruct, config: Config, a: Accessors, i: int)
    requires
        is_accessors_of(a, st, config),
        0 <= i < st.fields.len(),
    ensures
        0 <= i < config.field_configs.len() && config.field_configs[i] is Some ==> {
            let c = config.field_configs[i]->Some_0;
            &&& (c.skip == Some(SkipWhich::All) || c.skip == Some(SkipWhich::Getters)) <==> a.fields[i].getters is None
            &&& (c.skip == Some(SkipWhich::All) || c.skip == Some(SkipWhich::Setters)) <==> a.fields[i].setters is None
            &&& a.bits_checks[i].expected_bits == c.bits
        },
        !(0 <= i < config.field_configs.len() && config.field_configs[i] is Some) ==> {
            &&& a.fields[i].getters is Some
            &&& a.fields[i].setters is Some
            &&& a.bits_checks[i].expected_bits is None
        },
{
    law_field_config_lookup(config, i);
    assert(is_field_accessors(
        a.fields[i],
        st.ident@,
        st.fields[i],
        config.spec_field_config(i),
        i as nat,
        sum_of_field_bits(i as nat),
    ));
    assert(a.bits_checks[i].expected_bits == config.spec_field_config(i).bits);
}

/// The entries of the `Debug` impl's first `n` fields: each is the entry of a
/// field before `n` whose getters are not skipped, their indices increase,
/// and every such field has one.
proof fn lemma_debug_entries_exact(st: BitfieldStruct, config: Config, n: nat)
    ensures
        forall|k: int|
            0 <= k < debug_entries(st, config, n).len() ==> {
                let e = #[trigger] debug_entries(st, config, n)[k];
                &&& e.0 < n
                &&& !config.spec_field_config(e.0 as int).spec_skip_getters()
                &&& e == debug_entry(st, e.0)
            },
        forall|k1: int, k2: int|
            0 <= k1 < k2 < debug_entries(st, config, n).len() ==> (#[trigger] debug_entries(
                st,
                config,
                n,
            )[k1]).0 < (#[trigger] debug_entries(st, config, n)[k2]).0,
        forall|i: nat|
            i < n && !(#[trigger] config.spec_field_config(i as int)).spec_skip_getters() ==> exists|k: int|
                0 <= k < debug_entries(st, config, n).len() && (#[trigger] debug_entries(
                    st,
                    config,
                    n,
                )[k]).0 == i,
    decreases n,
{
    if n > 0 {
        let m = (n - 1) as nat;
        lemma_debug_entries_exact(st, config, m);
        let before = debug_entries(st, config, m);
        let now = debug_entries(st, config, n);
        if !config.spec_field_config(m as int).spec_skip_getters() {
            assert(now == before.push(debug_entry(st, m)));
            assert(now[before.len() as int].0 == m);
            assert forall|i: nat|
                i < n && !(#[trigger] config.spec_field_config(i as int)).spec_skip_getters() implies exists|k: int|
                    0 <= k < now.len() && (#[trigger] now[k]).0 == i by {
                if i < m {
                    let k = choose|k: int| 0 <= k < before.len() && (#[trigger] before[k]).0 == i;
                    assert(now[k] == before[k]);
                } else {
                    assert(now[before.len() as int].0 == i);
                }
            }
            assert forall|k: int| 0 <= k < now.len() implies {
                let e = #[trigger] now[k];
                &&& e.0 < n
                &&& !config.spec_field_config(e.0 as int).spec_skip_getters()
                &&& e == debug_entry(st, e.0)
            } by {
                if k < before.len() {
                    assert(now[k] == before[k]);
                }
            }
            assert forall|k1: int, k2: int| 0 <= k1 < k2 < now.len() implies (#[trigger] now[k1]).0 < (
            #[trigger] now[k2]).0 by {
                assert(now[k1] == before[k1]);
                if k2 < before.len() {
                    assert(now[k2] == before[k2]);
                }
            }
        } else {
            assert(now == before);
            assert forall|i: nat|
                i < n && !(#[trigger] config.spec_field_config(i as int)).spec_skip_getters() implies exists|k: int|
                    0 <= k < now.len() && (#[trigger] now[k]).0 == i by {
                if i < m {
                    let k = choose|k: int| 0 <= k < before.len() && (#[trigger] before[k]).0 == i;
                    assert(now[k] == before[k]);
                }
            }
        }
    }
}

/// The `Debug` impl shows exactly the fields whose getters are not skipped by
/// `field_configs`, in order of their indices, each once: a field with its
/// name as label (for a named field) and its checked getter.
pub proof fn law_debug_shows_fields_with_getters(st: BitfieldStruct, config: Config, d: DebugImpl)
    requires
        is_debug_impl_of(d, st, config),
    ensures
        forall|k: int|
            0 <= k < d.fields.len() ==> {
                let i = (#[trigger] d.fields[k]).index as int;
                &&& 0 <= i < st.fields.len()
                &&& !(0 <= i < config.field_configs.len() && config.field_configs[i] is Some && (config.field_configs[i]->Some_0.skip == Some(SkipWhich::All) || config.field_configs[i]->Some_0.skip == Some(SkipWhich::Getters)))
                &&& d.fields[k].entry().1 == st.fields[i].ident_view()
                &&& d.fields[k].getter@ == checked_getter_name(st.fields[i].ident_view(), i as nat)
            },
        forall|k1: int, k2: int|
            0 <= k1 < k2 < d.fields.len() ==> (#[trigger] d.fields[k1]).index < (#[trigger] d.fields[k2]).index,
        forall|i: int|
            0 <= i < st.fields.len() && !(0 <= i < config.field_configs.len()
                && config.field_configs[i] is Some && (config.field_configs[i]->Some_0.skip == Some(SkipWhich::All) || config.field_configs[i]->Some_0.skip == Some(SkipWhich::Getters))) ==> exists|k: int|
                0 <= k < d.fields.len() && (#[trigger] d.fields[k]).index == i,
{
    let n = st.fields.len() as nat;
    let entries = debug_entries(st, config, n);
    lemma_debug_entries_exact(st, config, n);
    assert forall|k: int| 0 <= k < d.fields.len() implies {
        let i = (#[trigger] d.fields[k]).index as int;
        &&& 0 <= i < st.fields.len()
        &&& !(0 <= i < config.field_configs.len() && config.field_configs[i] is Some && (config.field_configs[i]->Some_0.skip == Some(SkipWhich::All) || config.field_configs[i]->Some_0.skip == Some(SkipWhich::Getters)))
        &&& d.fields[k].entry().1 == st.fields[i].ident_view()
        &&& d.fields[k].getter@ == checked_getter_name(st.fields[i].ident_view(), i as nat)
    } by {
        assert(d.fields[k].entry() == entries[k]);
        let i = d.fields[k].index as int;
        law_field_config_lookup(config, i);
    }
    assert forall|k1: int, k2: int| 0 <= k1 < k2 < d.fields.len() implies (#[trigger] d.fields[k1]).index < (
    #[trigger] d.fields[k2]).index by {
        assert(d.fields[k1].entry() == entries[k1]);
        assert(d.fields[k2].entry() == entries[k2]);
        assert(entries[k1].0 < entries[k2].0);
    }
    assert forall|i: int|
        0 <= i < st.fields.len() && !(0 <= i < config.field_configs.len()
            && config.field_configs[i] is Some && (config.field_configs[i]->Some_0.skip == Some(SkipWhich::All) || config.field_configs[i]->Some_0.skip == Some(SkipWhich::Getters))) implies exists|k: int|
            0 <= k < d.fields.len() && (#[trigger] d.fields[k]).index == i by {
        law_field_config_lookup(config, i);
        assert(!config.spec_field_config(i).spec_skip_getters());
        let ii = i as nat;
        assert(!config.spec_field_config(ii as int).spec_skip_getters());
        let k = choose|k: int| 0 <= k < entries.len() && (#[trigger] entries[k]).0 == ii;
        assert(d.fields[k].entry() == entries[k]);
    }
}

/// Every accessor of the field at index `i` reads or writes at the sum of
/// the widths of the fields before it, and belongs to field `i`.
pub proof fn law_accessor_offsets(
    st: BitfieldStruct,
    config: Config,
    a: Accessors,
    widths: spec_fn(int) -> nat,
    i: int,
)
    requires
        is_accessors_of(a, st, config),
        0 <= i < st.fields.len(),
    ensures
        a.fields[i].field == i,
        a.bits_checks[i].field == i,
        a.fields[i].getters matches Some(g) ==> g.field == i && g.offset.eval(widths) == width_sum(
            widths,
            i as nat,
        ),
        a.fields[i].setters matches Some(w) ==> w.field == i && w.offset.eval(widths) == width_sum(
            widths,
            i as nat,
        ),
{
    assert(is_field_accessors(
        a.fields[i],
        st.ident@,
        st.fields[i],
        config.spec_field_config(i),
        i as nat,
        sum_of_field_bits(i as nat),
    ));
    assert(a.bits_checks[i].field == i as usize);
    lemma_sum_of_field_bits_eval(widths, i as nat);
}

} // verus!
