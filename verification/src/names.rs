use vstd::prelude::*;

verus! {

/// The decimal digit `d`.
pub open spec fn digit_char(d: nat) -> char {
    if d == 0 { '0' }
    else if d == 1 { '1' }
    else if d == 2 { '2' }
    else if d == 3 { '3' }
    else if d == 4 { '4' }
    else if d == 5 { '5' }
    else if d == 6 { '6' }
    else if d == 7 { '7' }
    else if d == 8 { '8' }
    else { '9' }
}

/// The decimal notation of `n`, as `format!("{}", n)` writes it.
pub open spec fn decimal(n: nat) -> Seq<char>
    decreases n,
{
    if n < 10 {
        seq![digit_char(n)]
    } else {
        decimal(n / 10).push(digit_char(n % 10))
    }
}

fn digit_str(d: usize) -> (r: &'static str)
    requires
        d < 10,
    ensures
        r@ == seq![digit_char(d as nat)],
{
    if d == 0 {
        proof { reveal_strlit("0"); }
        "0"
    } else if d == 1 {
        proof { reveal_strlit("1"); }
        "1"
    } else if d == 2 {
        proof { reveal_strlit("2"); }
        "2"
    } else if d == 3 {
        proof { reveal_strlit("3"); }
        "3"
    } else if d == 4 {
        proof { reveal_strlit("4"); }
        "4"
    } else if d == 5 {
        proof { reveal_strlit("5"); }
        "5"
    } else if d == 6 {
        proof { reveal_strlit("6"); }
        "6"
    } else if d == 7 {
        proof { reveal_strlit("7"); }
        "7"
    } else if d == 8 {
        proof { reveal_strlit("8"); }
        "8"
    } else {
        proof { reveal_strlit("9"); }
        "9"
    }
}

/// Appends the decimal notation of `n` to `s`.
pub fn push_decimal(s: &mut String, n: usize)
    ensures
        final(s)@ == old(s)@ + decimal(n as nat),
    decreases n,
{
    if n >= 10 {
        push_decimal(s, n / 10);
    }
    s.append(digit_str(n % 10));
}

/// The text by which the field at `index` is named in messages, in
/// documentation and in the `Debug` output: its name as written (a raw
/// identifier keeps its `r#`), or its index for a field of a tuple struct.
pub open spec fn field_name(ident: Option<Seq<char>>, index: nat) -> Seq<char> {
    match ident {
        Some(id) => id,
        None => decimal(index),
    }
}

/// An identifier's text without the `r#` of a raw identifier, as
/// `format_ident!` writes an `Ident` into a new identifier.
pub open spec fn unraw(id: Seq<char>) -> Seq<char> {
    if id.len() >= 2 && id[0] == 'r' && id[1] == '#' {
        id.subrange(2, id.len() as int)
    } else {
        id
    }
}

/// Returns an identifier's text without the `r#` of a raw identifier.
pub fn unraw_text(id: &str) -> (r: String)
    ensures
        r@ == unraw(id@),
{
    let n = id.unicode_len();
    if n >= 2 && id.get_char(0) == 'r' && id.get_char(1) == '#' {
        String::from_str(id.substring_char(2, n))
    } else {
        String::from_str(id)
    }
}

/// The fragment from which the names of the other accessors are formed: the
/// field's name without `r#`, or its index for a field of a tuple struct.
pub open spec fn field_frag(ident: Option<Seq<char>>, index: nat) -> Seq<char> {
    match ident {
        Some(id) => unraw(id),
        None => decimal(index),
    }
}

/// Returns the fragment from which the names of the other accessors are formed.
pub fn field_frag_text(ident: &Option<String>, index: usize) -> (r: String)
    ensures
        r@ == field_frag(
            match ident {
                Some(s) => Some(s@),
                None => None,
            },
            index as nat,
        ),
{
    match ident {
        Some(id) => unraw_text(id.as_str()),
        None => {
            let mut s = String::new();
            push_decimal(&mut s, index);
            s
        },
    }
}

/// Returns the text by which a field is named in the generated accessors.
pub fn field_name_text(ident: &Option<String>, index: usize) -> (r: String)
    ensures
        r@ == field_name(
            match ident {
                Some(s) => Some(s@),
                None => None,
            },
            index as nat,
        ),
{
    match ident {
        Some(id) => id.clone(),
        None => {
            let mut s = String::new();
            push_decimal(&mut s, index);
            s
        },
    }
}

/// Returns `a + b`.
pub fn join2(a: &str, b: &str) -> (r: String)
    ensures
        r@ == a@ + b@,
{
    let mut s = String::from_str(a);
    s.append(b);
    s
}

/// Returns `a + b + c + d`.
pub fn join4(a: &str, b: &str, c: &str, d: &str) -> (r: String)
    ensures
        r@ == a@ + b@ + c@ + d@,
{
    let mut s = String::from_str(a);
    s.append(b);
    s.append(c);
    s.append(d);
    s
}

/// Returns `prefix + middle + suffix`.
pub fn join3(prefix: &str, middle: &str, suffix: &str) -> (r: String)
    ensures
        r@ == prefix@ + middle@ + suffix@,
{
    let mut s = String::from_str(prefix);
    s.append(middle);
    s.append(suffix);
    s
}

/// Returns `a + b + c + d + e`.
pub fn join5(a: &str, b: &str, c: &str, d: &str, e: &str) -> (r: String)
    ensures
        r@ == a@ + b@ + c@ + d@ + e@,
{
    let mut s = String::from_str(a);
    s.append(b);
    s.append(c);
    s.append(d);
    s.append(e);
    s
}

/// The getter that panics: the field's own identifier, or `get_{index}`.
pub open spec fn getter_name(ident: Option<Seq<char>>, index: nat) -> Seq<char> {
    match ident {
        Some(id) => id,
        None => "get_"@ + decimal(index),
    }
}

/// The getter that returns `Result`: `{name}_or_err` (the name without
/// `r#`), or `get_{index}_or_err`.
pub open spec fn checked_getter_name(ident: Option<Seq<char>>, index: nat) -> Seq<char> {
    match ident {
        Some(id) => unraw(id) + "_or_err"@,
        None => "get_"@ + decimal(index) + "_or_err"@,
    }
}

/// `set_{name}`
pub open spec fn set_name(name: Seq<char>) -> Seq<char> {
    "set_"@ + name
}

/// `set_{name}_checked`
pub open spec fn set_checked_name(name: Seq<char>) -> Seq<char> {
    "set_"@ + name + "_checked"@
}

/// `with_{name}`
pub open spec fn with_name(name: Seq<char>) -> Seq<char> {
    "with_"@ + name
}

/// `with_{name}_checked`
pub open spec fn with_checked_name(name: Seq<char>) -> Seq<char> {
    "with_"@ + name + "_checked"@
}

/// The message of a getter that meets an invalid bit pattern.
pub open spec fn getter_panic_message(struct_name: Seq<char>, name: Seq<char>) -> Seq<char> {
    "value contains invalid bit pattern for field "@ + struct_name + "."@ + name
}

/// The message of a setter given a value out of bounds.
pub open spec fn setter_panic_message(struct_name: Seq<char>, name: Seq<char>) -> Seq<char> {
    "value out of bounds for field "@ + struct_name + "."@ + name
}

/// The documentation of the panicking getter.
pub open spec fn getter_docs(name: Seq<char>) -> Seq<char> {
    "Returns the value of `"@ + name + "`."@
}

/// The documentation of the checked getter.
pub open spec fn checked_getter_docs(name: Seq<char>) -> Seq<char> {
    "Returns the value of `"@ + name
        + "`.\n\n# Errors\n\nIf the returned value contains an invalid bit pattern for `"@ + name
        + "`."@
}

/// The documentation of the panicking setter.
pub open spec fn setter_docs(name: Seq<char>) -> Seq<char> {
    "Sets the value of `"@ + name
        + "` to the given value.\n\n# Panics\n\nIf the given value is out of bounds for `"@ + name
        + "`."@
}

/// The documentation of the checked setter.
pub open spec fn checked_setter_docs(name: Seq<char>) -> Seq<char> {
    "Sets the value of `"@ + name
        + "` to the given value.\n\n# Errors\n\nIf the given value is out of bounds for `"@ + name
        + "`."@
}

/// The documentation of the panicking `with_` builder.
pub open spec fn with_docs(name: Seq<char>) -> Seq<char> {
    "Returns a copy of the bitfield with the value of `"@ + name
        + "` set to the given value.\n\n# Panics\n\nIf the given value is out of bounds for `"@
        + name + "`."@
}

/// The documentation of the checked `with_` builder.
pub open spec fn checked_with_docs(name: Seq<char>) -> Seq<char> {
    "Returns a copy of the bitfield with the value of `"@ + name
        + "` set to the given value.\n\n# Errors\n\nIf the given value is out of bounds for `"@
        + name + "`."@
}

} // verus!
