use vstd::prelude::*;

verus! {

/// A source location, by its index in the caller's table of spans. Tokens
/// that stem from a configured value are placed at that value's location, so
/// that the compiler points its errors there.
#[derive(Clone, Copy, Debug, PartialEq, Eq)]
pub struct SpanId(pub usize);

/// A configured value together with the location where it was written.
#[derive(Clone, Copy, Debug, PartialEq, Eq)]
pub struct ConfigValue<T> {
    pub value: T,
    pub span: SpanId,
}

/// The primitive named by a `#[repr(uN)]` attribute on a `#[bitfield]` struct.
#[derive(Clone, Copy, Debug, PartialEq, Eq)]
pub enum ReprKind {
    U8,
    U16,
    U32,
    U64,
    U128,
}

impl ReprKind {
    /// The width in bits of the primitive.
    pub open spec fn spec_bits(self) -> nat {
        match self {
            ReprKind::U8 => 8,
            ReprKind::U16 => 16,
            ReprKind::U32 => 32,
            ReprKind::U64 => 64,
            ReprKind::U128 => 128,
        }
    }

    /// Returns the width in bits of the primitive.
    pub fn bits(&self) -> (r: usize)
        ensures
            r == self.spec_bits(),
    {
        match self {
            ReprKind::U8 => 8,
            ReprKind::U16 => 16,
            ReprKind::U32 => 32,
            ReprKind::U64 => 64,
            ReprKind::U128 => 128,
        }
    }
}

/// Which accessors `#[skip(..)]` leaves out for a field.
#[derive(Clone, Copy, Debug, PartialEq, Eq)]
pub enum SkipWhich {
    All,
    Getters,
    Setters,
}

/// The configuration of one field, from its `#[bits = N]` and `#[skip(..)]` attributes.
#[derive(Clone, Copy, Debug, PartialEq, Eq)]
pub struct FieldConfig {
    /// The width that `#[bits = N]` asserts for the field's type.
    pub bits: Option<ConfigValue<usize>>,
    /// The accessors that `#[skip(..)]` leaves out.
    pub skip: Option<SkipWhich>,
}

impl FieldConfig {
    pub open spec fn spec_skip_getters(self) -> bool {
        self.skip matches Some(w) && (w == SkipWhich::All || w == SkipWhich::Getters)
    }

    pub open spec fn spec_skip_setters(self) -> bool {
        self.skip matches Some(w) && (w == SkipWhich::All || w == SkipWhich::Setters)
    }

    /// The configuration of a field without attributes.
    pub fn unconfigured() -> (r: FieldConfig)
        ensures
            r.bits is None,
            r.skip is None,
    {
        FieldConfig { bits: None, skip: None }
    }

    /// Returns `true` if no getters are generated for the field.
    pub fn skip_getters(&self) -> (r: bool)
        ensures
            r == self.spec_skip_getters(),
            r <==> (self.skip == Some(SkipWhich::All) || self.skip == Some(SkipWhich::Getters)),
    {
        match self.skip {
            Some(SkipWhich::All) | Some(SkipWhich::Getters) => true,
            _ => false,
        }
    }

    /// Returns `true` if no setters are generated for the field.
    pub fn skip_setters(&self) -> (r: bool)
        ensures
            r == self.spec_skip_setters(),
            r <==> (self.skip == Some(SkipWhich::All) || self.skip == Some(SkipWhich::Setters)),
    {
        match self.skip {
            Some(SkipWhich::All) | Some(SkipWhich::Setters) => true,
            _ => false,
        }
    }
}

/// The configuration of a `#[bitfield]` struct, from the attribute's
/// parameters and the attributes on the struct and its fields.
#[derive(Debug, PartialEq, Eq)]
pub struct Config {
    /// `bytes = N`: the size in bytes that the struct must have.
    pub bytes: Option<ConfigValue<usize>>,
    /// `bits = N`: the number of bits that the struct stores.
    pub bits: Option<ConfigValue<usize>>,
    /// `filled = b`: whether the bits must fill the storage (`true` when absent).
    pub filled: Option<bool>,
    /// `#[repr(uN)]`
    pub repr: Option<ConfigValue<ReprKind>>,
    /// `#[derive(Debug)]`
    pub derive_debug: bool,
    /// `#[derive(Specifier)]`
    pub derive_specifier: bool,
    /// The configuration of the field at index `i`, if it has one.
    pub field_configs: Vec<Option<FieldConfig>>,
}

impl Config {
    pub open spec fn spec_filled_enabled(self) -> bool {
        match self.filled {
            Some(b) => b,
            None => true,
        }
    }

    /// The configuration of the field at index `index`.
    pub open spec fn spec_field_config(self, index: int) -> FieldConfig {
        if 0 <= index < self.field_configs.len() && self.field_configs[index] is Some {
            self.field_configs[index]->Some_0
        } else {
            FieldConfig { bits: None, skip: None }
        }
    }

    /// Returns whether the bits must fill the storage.
    pub fn filled_enabled(&self) -> (r: bool)
        ensures
            r == self.spec_filled_enabled(),
            r <==> self.filled != Some(false),
    {
        match self.filled {
            Some(b) => b,
            None => true,
        }
    }

    /// Returns the configuration of the field at index `index`.
    pub fn field_config(&self, index: usize) -> (r: FieldConfig)
        ensures
            r == self.spec_field_config(index as int),
            index < self.field_configs.len() && self.field_configs[index as int] is Some ==> r
                == self.field_configs[index as int]->Some_0,
            !(index < self.field_configs.len() && self.field_configs[index as int] is Some) ==> (r
                .bits is None && r.skip is None),
    {
        if index < self.field_configs.len() {
            match self.field_configs[index] {
                Some(c) => c,
                None => FieldConfig::unconfigured(),
            }
        } else {
            FieldConfig::unconfigured()
        }
    }
}

/// A field of the struct: its name, if the struct has named fields.
///
/// Its type is referred to by the field's index (see `SizeExpr::FieldBits`).
#[derive(Debug, PartialEq, Eq)]
pub struct Field {
    /// The identifier's text as `to_string` gives it: a raw identifier keeps its `r#`.
    pub ident: Option<String>,
}

impl Field {
    /// The field's name as text.
    pub open spec fn ident_view(self) -> Option<Seq<char>> {
        match self.ident {
            Some(s) => Some(s@),
            None => None,
        }
    }
}

/// The struct that `#[bitfield]` is applied to.
#[derive(Debug, PartialEq, Eq)]
pub struct BitfieldStruct {
    /// The struct's name.
    pub ident: String,
    /// Whether the struct is a tuple struct.
    pub is_tuple: bool,
    /// The fields, in order.
    pub fields: Vec<Field>,
}

/// A field together with its index and its configuration.
pub struct FieldInfo<'a> {
    pub index: usize,
    pub field: &'a Field,
    pub config: FieldConfig,
}

impl BitfieldStruct {
    /// Returns every field with its index and its configuration.
    pub fn field_infos<'a>(&'a self, config: &Config) -> (r: Vec<FieldInfo<'a>>)
        ensures
            r.len() == self.fields.len(),
            forall|i: int|
                0 <= i < r.len() ==> {
                    &&& (#[trigger] r[i]).index == i
                    &&& *r[i].field == self.fields[i]
                    &&& r[i].config == config.spec_field_config(i)
                },
    {
        let mut r: Vec<FieldInfo<'a>> = Vec::new();
        let mut i: usize = 0;
        while i < self.fields.len()
            invariant
                i <= self.fields.len(),
                r.len() == i,
                forall|j: int|
                    0 <= j < i ==> {
                        &&& (#[trigger] r[j]).index == j
                        &&& *r[j].field == self.fields[j]
                        &&& r[j].config == config.spec_field_config(j)
                    },
            decreases self.fields.len() - i,
        {
            r.push(FieldInfo { index: i, field: &self.fields[i], config: config.field_config(i) });
            i = i + 1;
        }
        r
    }
}

} // verus!
