//! What the derive macros of the protocol's enums decide.
//!
//! An enum reaches these functions as a plain description: its name, its
//! generics as written, and for each variant its name, the shape of its
//! fields and the literal of its discriminant. From that they decide which
//! code each variant of a code enum gets and which integer type holds the
//! codes, which predicate methods a data kind enum gets, which conversions a
//! message enum gets, and which enum shapes each derive refuses.

use vstd::prelude::*;

use crate::text::{lowercase_of, push_str, string_of, to_lowercase};

verus! {

// ===========================================================================
// The description of an enum
// ===========================================================================

/// A literal as written in source.
#[derive(Debug, PartialEq, Eq, Clone, Copy, Structural)]
pub enum Lit {
    /// An integer literal, with its value.
    Int(u64),
    /// Any other literal.
    Other,
}

/// The expression given as a variant's discriminant.
#[derive(Debug, PartialEq, Eq, Clone, Copy, Structural)]
pub enum Discriminant {
    /// A literal.
    Lit(Lit),
    /// An expression that is not a literal.
    NotLiteral,
}

/// A literal read as a number.
#[derive(Debug, PartialEq, Eq, Clone, Copy, Structural)]
pub struct Literal {
    pub num: Lit,
}

impl Literal {
    /// Wraps a literal.
    pub fn from(num: Lit) -> (r: Literal)
        ensures
            r.num == num,
    {
        Literal { num: num }
    }

    /// The literal as a signed number: an integer literal's value taken as
    /// an `i64` (wrapping above `i64::MAX`), else nothing.
    pub fn to_i64(&self) -> (r: Option<i64>)
        ensures
            r == match self.num {
                Lit::Int(v) => Some(v as i64),
                Lit::Other => None::<i64>,
            },
    {
        match self.num {
            Lit::Int(v) => Some(v as i64),
            Lit::Other => None,
        }
    }

    /// The literal as an unsigned number: an integer literal's value, else
    /// nothing.
    pub fn to_u64(&self) -> (r: Option<u64>)
        ensures
            r == match self.num {
                Lit::Int(v) => Some(v),
                Lit::Other => None::<u64>,
            },
    {
        match self.num {
            Lit::Int(v) => Some(v),
            Lit::Other => None,
        }
    }
}

/// The fields of an enum variant.
#[derive(Debug, PartialEq, Eq, Clone)]
pub enum Fields {
    /// No fields.
    Unit,
    /// Tuple fields: the type of each field, as written.
    Unnamed(Vec<String>),
    /// Named fields: the name of each field.
    Named(Vec<String>),
}

/// One variant of an enum.
#[derive(Debug, PartialEq, Eq, Clone)]
pub struct Variant {
    pub ident: String,
    pub fields: Fields,
    pub discriminant: Option<Discriminant>,
}

/// What the item that a derive is placed on is.
#[derive(Debug, PartialEq, Eq, Clone)]
pub enum Data {
    Enum(Vec<Variant>),
    Struct,
    Union,
}

/// The item that a derive is placed on.
#[derive(Debug, PartialEq, Eq, Clone)]
pub struct DeriveInput {
    pub ident: String,
    /// The generic parameters as written, with their angle brackets; empty
    /// where there are none.
    pub generics: String,
    pub data: Data,
}

/// Why a derive refuses an item.
#[derive(Debug, PartialEq, Eq, Clone, Copy, Structural)]
pub enum DeriveError {
    /// The item is not an enum.
    NotAnEnum,
    /// A code enum has a tuple or struct variant.
    CodeVariantFields,
    /// A code enum variant's discriminant is a literal that is not an
    /// integer.
    CodeNotU64,
    /// A code enum variant's discriminant is not a literal.
    CodeNotLiteral,
    /// A data kind enum has a unit or struct variant.
    DataKindVariantFields,
    /// A message enum has a unit or struct variant.
    MessageVariantFields,
    /// A message enum has a tuple variant without exactly one field.
    MessageVariantArity,
}

/// The text of a [`DeriveError`].
pub open spec fn derive_error_message(e: DeriveError) -> Seq<char> {
    match e {
        DeriveError::NotAnEnum => "#[derive(IsDataKind)] is only defined for enums not structs"@,
        DeriveError::CodeVariantFields =>
            "#[derive(CodeConvert)] currently does not support tuple or struct variants"@,
        DeriveError::CodeNotU64 => "#[derive(CodeConvert)] only supports mapping to u64"@,
        DeriveError::CodeNotLiteral => "#[derive(CodeConvert)] only supports literals"@,
        DeriveError::DataKindVariantFields =>
            "#[derive(IsDataKind)] currently does not support unit or struct variants"@,
        DeriveError::MessageVariantFields =>
            "#[derive(FromMessage)] currently does not support unit or struct variants"@,
        DeriveError::MessageVariantArity =>
            "#[derive(FromMessage)] does not support empty tuple variants or tuple variants with more than 1 field"@,
    }
}

impl DeriveError {
    /// The error's text.
    pub fn to_string(&self) -> (r: String)
        ensures
            r@ == derive_error_message(*self),
    {
        match self {
            DeriveError::NotAnEnum => string_of(
                "#[derive(IsDataKind)] is only defined for enums not structs",
            ),
            DeriveError::CodeVariantFields => string_of(
                "#[derive(CodeConvert)] currently does not support tuple or struct variants",
            ),
            DeriveError::CodeNotU64 => string_of(
                "#[derive(CodeConvert)] only supports mapping to u64",
            ),
            DeriveError::CodeNotLiteral => string_of("#[derive(CodeConvert)] only supports literals"),
            DeriveError::DataKindVariantFields => string_of(
                "#[derive(IsDataKind)] currently does not support unit or struct variants",
            ),
            DeriveError::MessageVariantFields => string_of(
                "#[derive(FromMessage)] currently does not support unit or struct variants",
            ),
            DeriveError::MessageVariantArity => string_of(
                "#[derive(FromMessage)] does not support empty tuple variants or tuple variants with more than 1 field",
            ),
        }
    }
}

/// The derives whose decisions this module makes.
#[derive(Debug, PartialEq, Eq, Clone, Copy, Structural)]
pub enum Derive {
    CodeConvert,
    IsDataKind,
    FromMessage,
}

/// Why the derive `d` refuses a variant, if it does.
pub open spec fn variant_error(d: Derive, v: Variant) -> Option<DeriveError> {
    match d {
        Derive::CodeConvert => code_variant_error(v),
        Derive::IsDataKind => datakind_variant_error(v),
        Derive::FromMessage => message_variant_error(v),
    }
}

/// The first variant of `vs`, in order, that the derive `d` refuses is the
/// one at `n`, and `e` is why.
pub open spec fn first_error(vs: Seq<Variant>, d: Derive, n: int, e: DeriveError) -> bool {
    &&& 0 <= n < vs.len()
    &&& variant_error(d, vs[n]) == Some(e)
    &&& forall|j: int| 0 <= j < n ==> (#[trigger] variant_error(d, vs[j])) is None
}

// ===========================================================================
// Code enums
// ===========================================================================

/// The unsigned integer types that can hold the codes of a code enum.
#[derive(Debug, PartialEq, Eq, Clone, Copy, Structural)]
pub enum IntType {
    U8,
    U16,
    U32,
    U64,
}

/// The smallest unsigned integer type that holds `maxnum`.
pub open spec fn int_type_for(maxnum: u64) -> IntType {
    if maxnum > u32::MAX {
        IntType::U64
    } else if maxnum > u16::MAX {
        IntType::U32
    } else if maxnum > u8::MAX {
        IntType::U16
    } else {
        IntType::U8
    }
}

/// Picks the smallest unsigned integer type that holds `maxnum`.
pub fn int_type(maxnum: u64) -> (r: IntType)
    ensures
        r == int_type_for(maxnum),
{
    if maxnum > 0xffff_ffff {
        IntType::U64
    } else if maxnum > 0xffff {
        IntType::U32
    } else if maxnum > 0xff {
        IntType::U16
    } else {
        IntType::U8
    }
}

impl IntType {
    /// The type's name, as it is written in Rust.
    pub fn name(&self) -> (r: &'static str)
        ensures
            r@ == match *self {
                IntType::U8 => "u8"@,
                IntType::U16 => "u16"@,
                IntType::U32 => "u32"@,
                IntType::U64 => "u64"@,
            },
    {
        match self {
            IntType::U8 => "u8",
            IntType::U16 => "u16",
            IntType::U32 => "u32",
            IntType::U64 => "u64",
        }
    }
}

/// One variant of a code enum and its code.
#[derive(Debug, PartialEq, Eq, Clone)]
pub struct CodeCase {
    pub variant: String,
    pub code: u64,
}

/// What a code enum's conversions are made of: the code of each variant,
/// the largest code, and the integer type that holds the codes.
#[derive(Debug, PartialEq, Eq, Clone)]
pub struct CodeImpl {
    pub enum_name: String,
    pub cases: Vec<CodeCase>,
    pub int_type: IntType,
    pub max_number: u64,
}

/// Why a code enum refuses a variant, if it does.
pub open spec fn code_variant_error(v: Variant) -> Option<DeriveError> {
    if !(v.fields is Unit) {
        Some(DeriveError::CodeVariantFields)
    } else {
        match v.discriminant {
            Some(Discriminant::Lit(Lit::Other)) => Some(DeriveError::CodeNotU64),
            Some(Discriminant::NotLiteral) => Some(DeriveError::CodeNotLiteral),
            _ => None,
        }
    }
}

/// The code of the variant at `i`: its discriminant where it has one, else
/// one more than the code of the variant before it, and 0 for a first
/// variant without a discriminant.
pub open spec fn code_of(vs: Seq<Variant>, i: int) -> int
    decreases i,
{
    match vs[i].discriminant {
        Some(Discriminant::Lit(Lit::Int(v))) => v as int,
        _ => if i <= 0 {
            0
        } else {
            code_of(vs, i - 1) + 1
        },
    }
}

/// The largest code among the first `n` variants, and 0 where there are
/// none.
pub open spec fn max_code(vs: Seq<Variant>, n: int) -> int
    decreases n,
{
    if n <= 0 {
        0
    } else {
        let m = max_code(vs, n - 1);
        let c = code_of(vs, n - 1);
        if c > m {
            c
        } else {
            m
        }
    }
}

/// No code reaches the largest `u64`, so counting on from each code fits.
pub open spec fn codes_fit(vs: Seq<Variant>) -> bool {
    forall|i: int| 0 <= i < vs.len() ==> #[trigger] code_of(vs, i) < u64::MAX
}

/// Numbers the variants of a code enum.
///
/// Variants are numbered in order from 0; a variant with an integer
/// discriminant takes that value, and the count goes on from it.
///
/// # Errors
///
/// The error of the first variant that is not a unit variant
/// (`CodeVariantFields`) or whose discriminant is not an integer literal
/// (`CodeNotU64`, `CodeNotLiteral`).
pub fn process_code_variants(enum_name: &String, variants: &Vec<Variant>) -> (r: Result<
    CodeImpl,
    DeriveError,
>)
    requires
        codes_fit(variants@),
    ensures
        match r {
            Ok(ci) => {
                &&& forall|i: int|
                    0 <= i < variants@.len() ==> #[trigger] code_variant_error(variants@[i]) is None
                &&& ci.enum_name@ == enum_name@
                &&& ci.cases@.len() == variants@.len()
                &&& forall|i: int|
                    0 <= i < variants@.len() ==> {
                        &&& (#[trigger] ci.cases@[i]).variant@ == variants@[i].ident@
                        &&& ci.cases@[i].code == code_of(variants@, i)
                    }
                &&& ci.max_number == max_code(variants@, variants@.len() as int)
                &&& ci.int_type == int_type_for(ci.max_number)
            },
            Err(e) => exists|n: int| #[trigger] first_error(variants@, Derive::CodeConvert, n, e),
        },
{
    let mut num: u64 = 0;
    let mut maxnum: u64 = 0;
    let mut cases: Vec<CodeCase> = Vec::new();
    let mut i: usize = 0;
    while i < variants.len()
        invariant
            codes_fit(variants@),
            i <= variants@.len(),
            cases@.len() == i,
            forall|j: int| 0 <= j < i ==> #[trigger] code_variant_error(variants@[j]) is None,
            forall|j: int|
                0 <= j < i ==> {
                    &&& (#[trigger] cases@[j]).variant@ == variants@[j].ident@
                    &&& cases@[j].code == code_of(variants@, j)
                },
            maxnum == max_code(variants@, i as int),
            i == 0 ==> num == 0,
            i > 0 ==> num == code_of(variants@, i - 1) + 1,
        decreases variants@.len() - i,
    {
        let var = &variants[i];
        match &var.fields {
            Fields::Unit => {},
            _ => {
                let e = DeriveError::CodeVariantFields;
                assert(first_error(variants@, Derive::CodeConvert, i as int, e));
                return Err(e);
            },
        }
        match var.discriminant {
            Some(Discriminant::Lit(l)) => {
                let lit = Literal::from(l);
                num = match lit.to_u64() {
                    Some(v) => v,
                    None => {
                        let e = DeriveError::CodeNotU64;
                        assert(first_error(variants@, Derive::CodeConvert, i as int, e));
                        return Err(e);
                    },
                };
            },
            Some(Discriminant::NotLiteral) => {
                let e = DeriveError::CodeNotLiteral;
                assert(first_error(variants@, Derive::CodeConvert, i as int, e));
                return Err(e);
            },
            None => {},
        }
        assert(num == code_of(variants@, i as int));
        if num > maxnum {
            maxnum = num;
        }
        cases.push(CodeCase { variant: var.ident.clone(), code: num });
        assert(code_of(variants@, i as int) < u64::MAX);
        num = num + 1;
        i = i + 1;
    }
    let int_type = int_type(maxnum);
    Ok(CodeImpl { enum_name: enum_name.clone(), cases, int_type, max_number: maxnum })
}

/// What the code conversions of an item are made of.
///
/// # Errors
///
/// `NotAnEnum` when the item is not an enum; else as
/// [`process_code_variants`].
pub fn impl_code_convert(ast: &DeriveInput) -> (r: Result<CodeImpl, DeriveError>)
    requires
        ast.data matches Data::Enum(vs) ==> codes_fit(vs@),
    ensures
        match ast.data {
            Data::Enum(vs) => match r {
                Ok(ci) => {
                    &&& forall|i: int|
                        0 <= i < vs@.len() ==> #[trigger] code_variant_error(vs@[i]) is None
                    &&& ci.enum_name@ == ast.ident@
                    &&& ci.cases@.len() == vs@.len()
                    &&& forall|i: int|
                        0 <= i < vs@.len() ==> {
                            &&& (#[trigger] ci.cases@[i]).variant@ == vs@[i].ident@
                            &&& ci.cases@[i].code == code_of(vs@, i)
                        }
                    &&& ci.max_number == max_code(vs@, vs@.len() as int)
                    &&& ci.int_type == int_type_for(ci.max_number)
                },
                Err(e) => exists|n: int| #[trigger] first_error(vs@, Derive::CodeConvert, n, e),
            },
            _ => r == Err::<CodeImpl, DeriveError>(DeriveError::NotAnEnum),
        },
{
    match &ast.data {
        Data::Enum(vs) => process_code_variants(&ast.ident, vs),
        _ => Err(DeriveError::NotAnEnum),
    }
}

// ===========================================================================
// Data kind enums
// ===========================================================================

/// A predicate method of a data kind enum: its name, and the variant for
/// which it is true.
#[derive(Debug, PartialEq, Eq, Clone)]
pub struct KindPredicate {
    pub method: String,
    pub variant: String,
}

/// The predicate methods of a data kind enum, with the enum's name and
/// generics for the impl that holds them.
#[derive(Debug, PartialEq, Eq, Clone)]
pub struct DataKindImpl {
    pub enum_name: String,
    pub generics: String,
    pub methods: Vec<KindPredicate>,
}

/// Why a data kind enum refuses a variant, if it does: only tuple variants
/// are accepted.
pub open spec fn datakind_variant_error(v: Variant) -> Option<DeriveError> {
    if v.fields is Unnamed {
        None
    } else {
        Some(DeriveError::DataKindVariantFields)
    }
}

/// The name of the predicate method of a variant: `is_` and the variant's
/// name in lowercase.
pub open spec fn predicate_name(ident: Seq<char>) -> Seq<char> {
    "is_"@ + lowercase_of(ident)
}

/// Names the predicate method of each variant of a data kind enum.
///
/// # Errors
///
/// `DataKindVariantFields` for the first unit or struct variant.
pub fn process_datakind_variants(
    enum_name: &String,
    generics: &String,
    variants: &Vec<Variant>,
) -> (r: Result<DataKindImpl, DeriveError>)
    ensures
        match r {
            Ok(dk) => {
                &&& forall|i: int|
                    0 <= i < variants@.len() ==> #[trigger] datakind_variant_error(variants@[i]) is None
                &&& dk.enum_name@ == enum_name@
                &&& dk.generics@ == generics@
                &&& dk.methods@.len() == variants@.len()
                &&& forall|i: int|
                    0 <= i < variants@.len() ==> {
                        &&& (#[trigger] dk.methods@[i]).variant@ == variants@[i].ident@
                        &&& dk.methods@[i].method@ == predicate_name(variants@[i].ident@)
                    }
            },
            Err(e) => exists|n: int| #[trigger] first_error(variants@, Derive::IsDataKind, n, e),
        },
{
    let mut methods: Vec<KindPredicate> = Vec::new();
    let mut i: usize = 0;
    while i < variants.len()
        invariant
            i <= variants@.len(),
            methods@.len() == i,
            forall|j: int| 0 <= j < i ==> #[trigger] datakind_variant_error(variants@[j]) is None,
            forall|j: int|
                0 <= j < i ==> {
                    &&& (#[trigger] methods@[j]).variant@ == variants@[j].ident@
                    &&& methods@[j].method@ == predicate_name(variants@[j].ident@)
                },
        decreases variants@.len() - i,
    {
        let var = &variants[i];
        match &var.fields {
            Fields::Unnamed(_) => {},
            _ => {
                let e = DeriveError::DataKindVariantFields;
                assert(first_error(variants@, Derive::IsDataKind, i as int, e));
                return Err(e);
            },
        }
        let lower = to_lowercase(var.ident.as_str());
        let mut method = string_of("is_");
        push_str(&mut method, lower.as_str());
        methods.push(KindPredicate { method, variant: var.ident.clone() });
        i = i + 1;
    }
    Ok(DataKindImpl { enum_name: enum_name.clone(), generics: generics.clone(), methods })
}

/// The predicate methods of an item.
///
/// # Errors
///
/// `NotAnEnum` when the item is not an enum; else as
/// [`process_datakind_variants`].
pub fn impl_is_datakind(ast: &DeriveInput) -> (r: Result<DataKindImpl, DeriveError>)
    ensures
        match ast.data {
            Data::Enum(vs) => match r {
                Ok(dk) => {
                    &&& forall|i: int|
                        0 <= i < vs@.len() ==> #[trigger] datakind_variant_error(vs@[i]) is None
                    &&& dk.enum_name@ == ast.ident@
                    &&& dk.generics@ == ast.generics@
                    &&& dk.methods@.len() == vs@.len()
                    &&& forall|i: int|
                        0 <= i < vs@.len() ==> {
                            &&& (#[trigger] dk.methods@[i]).variant@ == vs@[i].ident@
                            &&& dk.methods@[i].method@ == predicate_name(vs@[i].ident@)
                        }
                },
                Err(e) => exists|n: int| #[trigger] first_error(vs@, Derive::IsDataKind, n, e),
            },
            _ => r == Err::<DataKindImpl, DeriveError>(DeriveError::NotAnEnum),
        },
{
    match &ast.data {
        Data::Enum(vs) => process_datakind_variants(&ast.ident, &ast.generics, vs),
        _ => Err(DeriveError::NotAnEnum),
    }
}

// ===========================================================================
// Message enums
// ===========================================================================

/// A conversion into a message enum: values of `field_type` become the
/// variant `variant`.
#[derive(Debug, PartialEq, Eq, Clone)]
pub struct FromConversion {
    pub field_type: String,
    pub variant: String,
}

/// Why a message enum refuses a variant, if it does: only tuple variants of
/// exactly one field are accepted.
pub open spec fn message_variant_error(v: Variant) -> Option<DeriveError> {
    match v.fields {
        Fields::Unnamed(f) => if f@.len() == 1 {
            None
        } else {
            Some(DeriveError::MessageVariantArity)
        },
        _ => Some(DeriveError::MessageVariantFields),
    }
}

/// The type of the one field of a tuple variant.
pub open spec fn single_field_type(v: Variant) -> Seq<char> {
    match v.fields {
        Fields::Unnamed(f) => f@[0]@,
        _ => Seq::empty(),
    }
}

/// The conversions of a message enum: one from the type of each variant's
/// single field.
///
/// # Errors
///
/// `MessageVariantFields` or `MessageVariantArity` for the first variant
/// that is not a tuple variant of one field.
pub fn process_message_variants(variants: &Vec<Variant>) -> (r: Result<
    Vec<FromConversion>,
    DeriveError,
>)
    ensures
        match r {
            Ok(cs) => {
                &&& forall|i: int|
                    0 <= i < variants@.len() ==> #[trigger] message_variant_error(variants@[i]) is None
                &&& cs@.len() == variants@.len()
                &&& forall|i: int|
                    0 <= i < variants@.len() ==> {
                        &&& (#[trigger] cs@[i]).variant@ == variants@[i].ident@
                        &&& cs@[i].field_type@ == single_field_type(variants@[i])
                    }
            },
            Err(e) => exists|n: int| #[trigger] first_error(variants@, Derive::FromMessage, n, e),
        },
{
    let mut cs: Vec<FromConversion> = Vec::new();
    let mut i: usize = 0;
    while i < variants.len()
        invariant
            i <= variants@.len(),
            cs@.len() == i,
            forall|j: int| 0 <= j < i ==> #[trigger] message_variant_error(variants@[j]) is None,
            forall|j: int|
                0 <= j < i ==> {
                    &&& (#[trigger] cs@[j]).variant@ == variants@[j].ident@
                    &&& cs@[j].field_type@ == single_field_type(variants@[j])
                },
        decreases variants@.len() - i,
    {
        let var = &variants[i];
        let field_type = match &var.fields {
            Fields::Unnamed(f) => {
                if f.len() != 1 {
                    let e = DeriveError::MessageVariantArity;
                    assert(first_error(variants@, Derive::FromMessage, i as int, e));
                    return Err(e);
                }
                f[0].clone()
            },
            _ => {
                let e = DeriveError::MessageVariantFields;
                assert(first_error(variants@, Derive::FromMessage, i as int, e));
                return Err(e);
            },
        };
        cs.push(FromConversion { field_type, variant: var.ident.clone() });
        i = i + 1;
    }
    Ok(cs)
}

/// The conversions of an item into it.
///
/// # Errors
///
/// `NotAnEnum` when the item is not an enum; else as
/// [`process_message_variants`].
pub fn impl_from_message(ast: &DeriveInput) -> (r: Result<Vec<FromConversion>, DeriveError>)
    ensures
        match ast.data {
            Data::Enum(vs) => match r {
                Ok(cs) => {
                    &&& forall|i: int|
                        0 <= i < vs@.len() ==> #[trigger] message_variant_error(vs@[i]) is None
                    &&& cs@.len() == vs@.len()
                    &&& forall|i: int|
                        0 <= i < vs@.len() ==> {
                            &&& (#[trigger] cs@[i]).variant@ == vs@[i].ident@
                            &&& cs@[i].field_type@ == single_field_type(vs@[i])
                        }
                },
                Err(e) => exists|n: int| #[trigger] first_error(vs@, Derive::FromMessage, n, e),
            },
            _ => r == Err::<Vec<FromConversion>, DeriveError>(DeriveError::NotAnEnum),
        },
{
    match &ast.data {
        Data::Enum(vs) => process_message_variants(vs),
        _ => Err(DeriveError::NotAnEnum),
    }
}

// ===========================================================================
// Laws
// ===========================================================================

/// Where no variant has a discriminant, the codes count up from 0 without
/// gaps: the variant at `i` has the code `i`, and the largest code among the
/// first `n` variants is `n - 1`.
pub proof fn lemma_codes_count_up(vs: Seq<Variant>, n: int)
    requires
        0 < n <= vs.len(),
        forall|j: int| 0 <= j < vs.len() ==> (#[trigger] vs[j]).discriminant is None,
    ensures
        forall|i: int| 0 <= i < n ==> #[trigger] code_of(vs, i) == i,
        max_code(vs, n) == n - 1,
    decreases n,
{
    if n > 1 {
        lemma_codes_count_up(vs, n - 1);
    } else {
        assert(max_code(vs, 0) == 0);
    }
    assert(vs[n - 1].discriminant is None);
    assert(code_of(vs, n - 1) == n - 1);
}

} // verus!
