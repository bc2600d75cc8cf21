//! From a consumer's declaration of a frame type to its adapter: which
//! strategy each field follows, as told by its attributes and its type.

use vstd::prelude::*;

use super::schema::VariableType;

verus! {

/// Whether a text equals another.
pub fn same_text(a: &str, b: &str) -> (r: bool)
    ensures
        r == (a@ == b@),
{
    a.to_owned() == b.to_owned()
}

/// The right side of `name = value` in an attribute.
#[derive(Debug)]
pub enum MetaValue {
    /// A string literal, with its contents.
    Str(String),
    /// Any other expression.
    Other,
}

/// One `name = value` pair.
#[derive(Debug)]
pub struct NameValue {
    pub name: String,
    pub value: MetaValue,
}

/// An attribute on a field.
#[derive(Debug)]
pub enum FieldAttr {
    /// `#[name]`
    Path { name: String },
    /// `#[name = value]`
    NameValue { name: String, value: MetaValue },
    /// `#[name(..)]`; `pairs` is none where the contents are no list of
    /// `name = value` pairs.
    List { name: String, pairs: Option<Vec<NameValue>> },
}

/// An argument between the angle brackets of a path's last segment.
#[derive(Debug)]
pub enum GenericArg {
    /// A type, as text.
    Type(String),
    /// A lifetime, a constant or the like.
    Other,
}

/// The path of a type, as far as a strategy depends on it.
#[derive(Debug)]
pub struct TypePath {
    /// The identifiers of the segments.
    pub segments: Vec<String>,
    /// The arguments of the last segment, if it has angle brackets.
    pub angle_args: Option<Vec<GenericArg>>,
}

/// The type of a field as it was written.
#[derive(Debug)]
pub struct FieldType {
    /// The type as text.
    pub text: String,
    /// Its path, if it is a path type.
    pub path: Option<TypePath>,
}

/// One field of the consumer's struct.
#[derive(Debug)]
pub struct FieldDecl {
    pub ident: Option<String>,
    pub ty: FieldType,
    pub attrs: Vec<FieldAttr>,
}

/// What an attribute says.
#[derive(Debug)]
pub enum AttributeValue {
    FieldName(String),
    Missing(String),
    FailIfMissing,
    Calculated(String),
    Skip,
}

/// `AttributeValue` as a mathematical value.
pub enum AttributeSpec {
    FieldName(Seq<char>),
    Missing(Seq<char>),
    FailIfMissing,
    Calculated(Seq<char>),
    Skip,
}

impl View for AttributeValue {
    type V = AttributeSpec;

    open spec fn view(&self) -> AttributeSpec {
        match self {
            AttributeValue::FieldName(s) => AttributeSpec::FieldName(s@),
            AttributeValue::Missing(s) => AttributeSpec::Missing(s@),
            AttributeValue::FailIfMissing => AttributeSpec::FailIfMissing,
            AttributeValue::Calculated(s) => AttributeSpec::Calculated(s@),
            AttributeValue::Skip => AttributeSpec::Skip,
        }
    }
}

/// Why a declaration is refused.
#[derive(Debug, Clone, Copy, PartialEq, Eq, Structural)]
pub enum DeriveError {
    OnlyNamedFields,
    OnlyStructs,
    FieldMustHaveName,
    MissingFieldName,
    FieldNameNotString,
    MissingNotString,
    DefaultReserved,
    CalculatedNotString,
    UnknownAttribute,
    MalformedList,
    BitfieldNameNotString,
    BitfieldHasNotString,
    BitfieldRequiresName,
    BitfieldRequiresHas,
    BitfieldMapNameNotString,
    BitfieldMapDecoderNotString,
    BitfieldMapRequiresName,
    BitfieldMapRequiresDecoder,
    BitfieldHasNeedsBool,
    InvalidExpression,
}

impl DeriveError {
    /// The text of the error.
    pub open spec fn spec_message(self) -> Seq<char> {
        match self {
            DeriveError::OnlyNamedFields => "Only named fields are supported"@,
            DeriveError::OnlyStructs => "Only structs are supported"@,
            DeriveError::FieldMustHaveName => "Field must have a name"@,
            DeriveError::MissingFieldName =>
                "Missing #[field_name = \"...\"] attribute. Use #[skip] for non-telemetry fields."@,
            DeriveError::FieldNameNotString => "field_name must be a string literal"@,
            DeriveError::MissingNotString => "missing must be a string literal"@,
            DeriveError::DefaultReserved =>
                "`#[default = ...]` is reserved by Rust when deriving Default. Use `#[missing = ...]` instead."@,
            DeriveError::CalculatedNotString => "calculated must be a string literal"@,
            DeriveError::UnknownAttribute => "Unknown attribute"@,
            DeriveError::MalformedList => "expected a list of `name = value` pairs"@,
            DeriveError::BitfieldNameNotString => "bitfield name must be a string literal"@,
            DeriveError::BitfieldHasNotString =>
                "bitfield has must be a string literal expression path"@,
            DeriveError::BitfieldRequiresName => "bitfield requires name = \"...\""@,
            DeriveError::BitfieldRequiresHas => "bitfield requires has = \"...\""@,
            DeriveError::BitfieldMapNameNotString => "bitfield_map name must be a string literal"@,
            DeriveError::BitfieldMapDecoderNotString =>
                "bitfield_map decoder must be a string literal path"@,
            DeriveError::BitfieldMapRequiresName => "bitfield_map requires name = \"...\""@,
            DeriveError::BitfieldMapRequiresDecoder => "bitfield_map requires decoder = \"path\""@,
            DeriveError::BitfieldHasNeedsBool =>
                "#[bitfield(..., has = ...)] requires field type bool or Option<bool>"@,
            DeriveError::InvalidExpression => "expected an expression"@,
        }
    }

    /// The text of the error.
    pub fn message(&self) -> (r: String)
        ensures
            r@ == self.spec_message(),
    {
        let text: &str = match self {
            DeriveError::OnlyNamedFields => "Only named fields are supported",
            DeriveError::OnlyStructs => "Only structs are supported",
            DeriveError::FieldMustHaveName => "Field must have a name",
            DeriveError::MissingFieldName =>
                "Missing #[field_name = \"...\"] attribute. Use #[skip] for non-telemetry fields.",
            DeriveError::FieldNameNotString => "field_name must be a string literal",
            DeriveError::MissingNotString => "missing must be a string literal",
            DeriveError::DefaultReserved =>
                "`#[default = ...]` is reserved by Rust when deriving Default. Use `#[missing = ...]` instead.",
            DeriveError::CalculatedNotString => "calculated must be a string literal",
            DeriveError::UnknownAttribute => "Unknown attribute",
            DeriveError::MalformedList => "expected a list of `name = value` pairs",
            DeriveError::BitfieldNameNotString => "bitfield name must be a string literal",
            DeriveError::BitfieldHasNotString =>
                "bitfield has must be a string literal expression path",
            DeriveError::BitfieldRequiresName => "bitfield requires name = \"...\"",
            DeriveError::BitfieldRequiresHas => "bitfield requires has = \"...\"",
            DeriveError::BitfieldMapNameNotString => "bitfield_map name must be a string literal",
            DeriveError::BitfieldMapDecoderNotString =>
                "bitfield_map decoder must be a string literal path",
            DeriveError::BitfieldMapRequiresName => "bitfield_map requires name = \"...\"",
            DeriveError::BitfieldMapRequiresDecoder => "bitfield_map requires decoder = \"path\"",
            DeriveError::BitfieldHasNeedsBool =>
                "#[bitfield(..., has = ...)] requires field type bool or Option<bool>",
            DeriveError::InvalidExpression => "expected an expression",
        };
        text.to_owned()
    }
}

/// A string literal on the right side, or the given error.
pub open spec fn spec_literal(value: MetaValue, err: DeriveError) -> Result<Seq<char>, DeriveError> {
    match value {
        MetaValue::Str(s) => Ok(s@),
        MetaValue::Other => Err(err),
    }
}

/// What one attribute says, or why it says nothing.
pub open spec fn spec_parse_attribute(attr: FieldAttr) -> Result<AttributeSpec, DeriveError> {
    match attr {
        FieldAttr::NameValue { name, value } => {
            if name@ == "field_name"@ {
                match spec_literal(value, DeriveError::FieldNameNotString) {
                    Ok(s) => Ok(AttributeSpec::FieldName(s)),
                    Err(e) => Err(e),
                }
            } else if name@ == "missing"@ {
                match spec_literal(value, DeriveError::MissingNotString) {
                    Ok(s) => Ok(AttributeSpec::Missing(s)),
                    Err(e) => Err(e),
                }
            } else if name@ == "default"@ {
                Err(DeriveError::DefaultReserved)
            } else if name@ == "calculated"@ {
                match spec_literal(value, DeriveError::CalculatedNotString) {
                    Ok(s) => Ok(AttributeSpec::Calculated(s)),
                    Err(e) => Err(e),
                }
            } else {
                Err(DeriveError::UnknownAttribute)
            }
        },
        FieldAttr::Path { name } => {
            if name@ == "fail_if_missing"@ {
                Ok(AttributeSpec::FailIfMissing)
            } else if name@ == "skip"@ {
                Ok(AttributeSpec::Skip)
            } else {
                Err(DeriveError::UnknownAttribute)
            }
        },
        FieldAttr::List { .. } => Err(DeriveError::UnknownAttribute),
    }
}

/// The view of a parsed attribute or its error.
pub open spec fn attribute_view(r: Result<AttributeValue, DeriveError>) -> Result<
    AttributeSpec,
    DeriveError,
> {
    match r {
        Ok(v) => Ok(v@),
        Err(e) => Err(e),
    }
}

/// Parses a single attribute.
pub fn parse_attribute(attr: &FieldAttr) -> (r: Result<AttributeValue, DeriveError>)
    ensures
        attribute_view(r) == spec_parse_attribute(*attr),
{
    match attr {
        FieldAttr::NameValue { name, value } => {
            if same_text(name.as_str(), "field_name") {
                match value {
                    MetaValue::Str(s) => Ok(AttributeValue::FieldName(s.clone())),
                    MetaValue::Other => Err(DeriveError::FieldNameNotString),
                }
            } else if same_text(name.as_str(), "missing") {
                match value {
                    MetaValue::Str(s) => Ok(AttributeValue::Missing(s.clone())),
                    MetaValue::Other => Err(DeriveError::MissingNotString),
                }
            } else if same_text(name.as_str(), "default") {
                Err(DeriveError::DefaultReserved)
            } else if same_text(name.as_str(), "calculated") {
                match value {
                    MetaValue::Str(s) => Ok(AttributeValue::Calculated(s.clone())),
                    MetaValue::Other => Err(DeriveError::CalculatedNotString),
                }
            } else {
                Err(DeriveError::UnknownAttribute)
            }
        },
        FieldAttr::Path { name } => {
            if same_text(name.as_str(), "fail_if_missing") {
                Ok(AttributeValue::FailIfMissing)
            } else if same_text(name.as_str(), "skip") {
                Ok(AttributeValue::Skip)
            } else {
                Err(DeriveError::UnknownAttribute)
            }
        },
        FieldAttr::List { .. } => Err(DeriveError::UnknownAttribute),
    }
}

/// What the attributes of a field say together. Of several attributes of
/// one kind the last counts; attributes that do not parse are passed over.
#[derive(Debug)]
pub struct AttrSummary {
    pub field_name: Option<String>,
    pub default_value: Option<String>,
    pub fail_if_missing: bool,
    pub calculated: Option<String>,
    pub skip: bool,
}

/// `AttrSummary` as a mathematical value.
pub struct SummarySpec {
    pub field_name: Option<Seq<char>>,
    pub default_value: Option<Seq<char>>,
    pub fail_if_missing: bool,
    pub calculated: Option<Seq<char>>,
    pub skip: bool,
}

/// The text of a string that may be missing.
pub open spec fn text_of(s: Option<String>) -> Option<Seq<char>> {
    match s {
        Some(t) => Some(t@),
        None => None,
    }
}

impl View for AttrSummary {
    type V = SummarySpec;

    open spec fn view(&self) -> SummarySpec {
        SummarySpec {
            field_name: text_of(self.field_name),
            default_value: text_of(self.default_value),
            fail_if_missing: self.fail_if_missing,
            calculated: text_of(self.calculated),
            skip: self.skip,
        }
    }
}

/// The summary after one more attribute.
pub open spec fn summary_step(acc: SummarySpec, attr: FieldAttr) -> SummarySpec {
    match spec_parse_attribute(attr) {
        Ok(AttributeSpec::FieldName(s)) => SummarySpec { field_name: Some(s), ..acc },
        Ok(AttributeSpec::Missing(s)) => SummarySpec { default_value: Some(s), ..acc },
        Ok(AttributeSpec::FailIfMissing) => SummarySpec { fail_if_missing: true, ..acc },
        Ok(AttributeSpec::Calculated(s)) => SummarySpec { calculated: Some(s), ..acc },
        Ok(AttributeSpec::Skip) => SummarySpec { skip: true, ..acc },
        Err(_) => acc,
    }
}

/// The summary of a sequence of attributes.
pub open spec fn spec_summary(attrs: Seq<FieldAttr>) -> SummarySpec
    decreases attrs.len(),
{
    if attrs.len() == 0 {
        SummarySpec {
            field_name: None,
            default_value: None,
            fail_if_missing: false,
            calculated: None,
            skip: false,
        }
    } else {
        summary_step(spec_summary(attrs.drop_last()), attrs.last())
    }
}

/// Gathers what the attributes of a field say.
pub fn summarize_attrs(attrs: &Vec<FieldAttr>) -> (r: AttrSummary)
    ensures
        r@ == spec_summary(attrs@),
{
    let mut acc = AttrSummary {
        field_name: None,
        default_value: None,
        fail_if_missing: false,
        calculated: None,
        skip: false,
    };
    let mut i: usize = 0;
    while i < attrs.len()
        invariant
            i <= attrs@.len(),
            acc@ == spec_summary(attrs@.take(i as int)),
        decreases attrs@.len() - i,
    {
        proof {
            assert(attrs@.take(i + 1).drop_last() =~= attrs@.take(i as int));
            assert(attrs@.take(i + 1).last() == attrs@[i as int]);
        }
        match parse_attribute(&attrs[i]) {
            Ok(AttributeValue::FieldName(s)) => {
                acc.field_name = Some(s);
            },
            Ok(AttributeValue::Missing(s)) => {
                acc.default_value = Some(s);
            },
            Ok(AttributeValue::FailIfMissing) => {
                acc.fail_if_missing = true;
            },
            Ok(AttributeValue::Calculated(s)) => {
                acc.calculated = Some(s);
            },
            Ok(AttributeValue::Skip) => {
                acc.skip = true;
            },
            Err(_) => {},
        }
        i += 1;
    }
    assert(attrs@.take(attrs@.len() as int) =~= attrs@);
    acc
}

/// A bit field attribute.
#[derive(Debug)]
pub enum BitfieldAttr {
    /// `#[bitfield(name = "..", has = "..")]`: one bit, tested with a mask.
    Has { name: String, mask: String },
    /// `#[bitfield_map(name = "..", decoder = "..")]`: the bits, decoded by a function.
    MapWith { name: String, decoder: String },
}

/// `BitfieldAttr` as a mathematical value.
pub enum BitfieldSpec {
    Has { name: Seq<char>, mask: Seq<char> },
    MapWith { name: Seq<char>, decoder: Seq<char> },
}

impl View for BitfieldAttr {
    type V = BitfieldSpec;

    open spec fn view(&self) -> BitfieldSpec {
        match self {
            BitfieldAttr::Has { name, mask } => BitfieldSpec::Has { name: name@, mask: mask@ },
            BitfieldAttr::MapWith { name, decoder } => BitfieldSpec::MapWith {
                name: name@,
                decoder: decoder@,
            },
        }
    }
}

/// The two values that the pairs of a list give: that of `name` and that of
/// `key`. The last pair of each counts; a value that is no string literal is
/// an error at once.
pub open spec fn spec_scan_pairs(
    pairs: Seq<NameValue>,
    key: Seq<char>,
    name_err: DeriveError,
    key_err: DeriveError,
) -> Result<(Option<Seq<char>>, Option<Seq<char>>), DeriveError>
    decreases pairs.len(),
{
    if pairs.len() == 0 {
        Ok((None, None))
    } else {
        match spec_scan_pairs(pairs.drop_last(), key, name_err, key_err) {
            Err(e) => Err(e),
            Ok((n, k)) => {
                let p = pairs.last();
                if p.name@ == "name"@ {
                    match spec_literal(p.value, name_err) {
                        Ok(s) => Ok((Some(s), k)),
                        Err(e) => Err(e),
                    }
                } else if p.name@ == key {
                    match spec_literal(p.value, key_err) {
                        Ok(s) => Ok((n, Some(s))),
                        Err(e) => Err(e),
                    }
                } else {
                    Ok((n, k))
                }
            },
        }
    }
}

/// The view of a pair of optional strings or an error.
pub open spec fn scan_view(r: Result<(Option<String>, Option<String>), DeriveError>) -> Result<
    (Option<Seq<char>>, Option<Seq<char>>),
    DeriveError,
> {
    match r {
        Ok((n, k)) => Ok((text_of(n), text_of(k))),
        Err(e) => Err(e),
    }
}

/// Reads `name` and `key` out of the pairs of a list attribute.
pub fn scan_pairs(pairs: &Vec<NameValue>, key: &str, name_err: DeriveError, key_err: DeriveError) -> (r:
    Result<(Option<String>, Option<String>), DeriveError>)
    ensures
        scan_view(r) == spec_scan_pairs(pairs@, key@, name_err, key_err),
{
    let mut name: Option<String> = None;
    let mut value: Option<String> = None;
    let mut i: usize = 0;
    while i < pairs.len()
        invariant
            i <= pairs@.len(),
            spec_scan_pairs(pairs@.take(i as int), key@, name_err, key_err) == Ok::<
                (Option<Seq<char>>, Option<Seq<char>>),
                DeriveError,
            >((text_of(name), text_of(value))),
        decreases pairs@.len() - i,
    {
        proof {
            assert(pairs@.take(i + 1).drop_last() =~= pairs@.take(i as int));
            assert(pairs@.take(i + 1).last() == pairs@[i as int]);
        }
        let p = &pairs[i];
        if same_text(p.name.as_str(), "name") {
            match &p.value {
                MetaValue::Str(s) => {
                    name = Some(s.clone());
                },
                MetaValue::Other => {
                    proof {
                        lemma_scan_error_stays(pairs@, i + 1, key@, name_err, key_err);
                    }
                    return Err(name_err);
                },
            }
        } else if same_text(p.name.as_str(), key) {
            match &p.value {
                MetaValue::Str(s) => {
                    value = Some(s.clone());
                },
                MetaValue::Other => {
                    proof {
                        lemma_scan_error_stays(pairs@, i + 1, key@, name_err, key_err);
                    }
                    return Err(key_err);
                },
            }
        }
        i += 1;
    }
    assert(pairs@.take(pairs@.len() as int) =~= pairs@);
    Ok((name, value))
}

/// An error within a prefix of the pairs is the error of all of them.
proof fn lemma_scan_error_stays(
    pairs: Seq<NameValue>,
    n: int,
    key: Seq<char>,
    name_err: DeriveError,
    key_err: DeriveError,
)
    requires
        0 <= n <= pairs.len(),
        spec_scan_pairs(pairs.take(n), key, name_err, key_err) is Err,
    ensures
        spec_scan_pairs(pairs, key, name_err, key_err) == spec_scan_pairs(
            pairs.take(n),
            key,
            name_err,
            key_err,
        ),
    decreases pairs.len() - n,
{
    if n == pairs.len() {
        assert(pairs.take(n) =~= pairs);
    } else {
        assert(pairs.take(n + 1).drop_last() =~= pairs.take(n));
        lemma_scan_error_stays(pairs, n + 1, key, name_err, key_err);
    }
}

/// What a `bitfield` list says.
pub open spec fn spec_bitfield_has(pairs: Option<Vec<NameValue>>) -> Result<
    Option<BitfieldSpec>,
    DeriveError,
> {
    match pairs {
        None => Err(DeriveError::MalformedList),
        Some(ps) => match spec_scan_pairs(
            ps@,
            "has"@,
            DeriveError::BitfieldNameNotString,
            DeriveError::BitfieldHasNotString,
        ) {
            Err(e) => Err(e),
            Ok((None, _)) => Err(DeriveError::BitfieldRequiresName),
            Ok((Some(_), None)) => Err(DeriveError::BitfieldRequiresHas),
            Ok((Some(n), Some(m))) => Ok(Some(BitfieldSpec::Has { name: n, mask: m })),
        },
    }
}

/// What a `bitfield_map` list says.
pub open spec fn spec_bitfield_map(pairs: Option<Vec<NameValue>>) -> Result<
    Option<BitfieldSpec>,
    DeriveError,
> {
    match pairs {
        None => Err(DeriveError::MalformedList),
        Some(ps) => match spec_scan_pairs(
            ps@,
            "decoder"@,
            DeriveError::BitfieldMapNameNotString,
            DeriveError::BitfieldMapDecoderNotString,
        ) {
            Err(e) => Err(e),
            Ok((None, _)) => Err(DeriveError::BitfieldMapRequiresName),
            Ok((Some(_), None)) => Err(DeriveError::BitfieldMapRequiresDecoder),
            Ok((Some(n), Some(d))) => Ok(Some(BitfieldSpec::MapWith { name: n, decoder: d })),
        },
    }
}

/// The bit field attribute among the attributes from position `i` on: the
/// first `bitfield` or `bitfield_map` list decides.
pub open spec fn spec_bitfield_from(attrs: Seq<FieldAttr>, i: int) -> Result<
    Option<BitfieldSpec>,
    DeriveError,
>
    decreases attrs.len() - i,
{
    if i < 0 || i >= attrs.len() {
        Ok(None)
    } else {
        match attrs[i] {
            FieldAttr::List { name, pairs } => {
                if name@ == "bitfield"@ {
                    spec_bitfield_has(pairs)
                } else if name@ == "bitfield_map"@ {
                    spec_bitfield_map(pairs)
                } else {
                    spec_bitfield_from(attrs, i + 1)
                }
            },
            _ => spec_bitfield_from(attrs, i + 1),
        }
    }
}

/// The view of a bit field attribute that may be missing, or an error.
pub open spec fn bitfield_view(r: Result<Option<BitfieldAttr>, DeriveError>) -> Result<
    Option<BitfieldSpec>,
    DeriveError,
> {
    match r {
        Ok(Some(b)) => Ok(Some(b@)),
        Ok(None) => Ok(None),
        Err(e) => Err(e),
    }
}

/// Finds the bit field attribute of a field, if it has one.
pub fn parse_bitfield_attr(field: &FieldDecl) -> (r: Result<Option<BitfieldAttr>, DeriveError>)
    ensures
        bitfield_view(r) == spec_bitfield_from(field.attrs@, 0),
{
    let attrs = &field.attrs;
    let mut i: usize = 0;
    while i < attrs.len()
        invariant
            i <= attrs@.len(),
            attrs@ == field.attrs@,
            spec_bitfield_from(attrs@, 0) == spec_bitfield_from(attrs@, i as int),
        decreases attrs@.len() - i,
    {
        match &attrs[i] {
            FieldAttr::List { name, pairs } => {
                if same_text(name.as_str(), "bitfield") {
                    let ps = match pairs {
                        Some(ps) => ps,
                        None => {
                            return Err(DeriveError::MalformedList);
                        },
                    };
                    let scanned = scan_pairs(
                        ps,
                        "has",
                        DeriveError::BitfieldNameNotString,
                        DeriveError::BitfieldHasNotString,
                    );
                    return match scanned {
                        Err(e) => Err(e),
                        Ok((None, _)) => Err(DeriveError::BitfieldRequiresName),
                        Ok((Some(_), None)) => Err(DeriveError::BitfieldRequiresHas),
                        Ok((Some(n), Some(m))) => Ok(Some(BitfieldAttr::Has { name: n, mask: m })),
                    };
                } else if same_text(name.as_str(), "bitfield_map") {
                    let ps = match pairs {
                        Some(ps) => ps,
                        None => {
                            return Err(DeriveError::MalformedList);
                        },
                    };
                    let scanned = scan_pairs(
                        ps,
                        "decoder",
                        DeriveError::BitfieldMapNameNotString,
                        DeriveError::BitfieldMapDecoderNotString,
                    );
                    return match scanned {
                        Err(e) => Err(e),
                        Ok((None, _)) => Err(DeriveError::BitfieldMapRequiresName),
                        Ok((Some(_), None)) => Err(DeriveError::BitfieldMapRequiresDecoder),
                        Ok((Some(n), Some(d))) => Ok(
                            Some(BitfieldAttr::MapWith { name: n, decoder: d }),
                        ),
                    };
                }
            },
            _ => {},
        }
        i += 1;
    }
    Ok(None)
}

/// The type inside `Option<..>`, where the type is written as a path whose
/// last segment is `Option` with a type as its first argument.
pub open spec fn spec_option_inner(ty: FieldType) -> Option<Seq<char>> {
    match ty.path {
        Some(p) => {
            if p.segments@.len() > 0 && p.segments@.last()@ == "Option"@ {
                match p.angle_args {
                    Some(args) => {
                        if args@.len() > 0 {
                            match args@[0] {
                                GenericArg::Type(t) => Some(t@),
                                GenericArg::Other => None,
                            }
                        } else {
                            None
                        }
                    },
                    None => None,
                }
            } else {
                None
            }
        },
        None => None,
    }
}

/// Extracts the inner type from `Option<T>`.
pub fn extract_option_type(ty: &FieldType) -> (r: Option<String>)
    ensures
        text_of(r) == spec_option_inner(*ty),
{
    match &ty.path {
        Some(p) => {
            let n = p.segments.len();
            if n > 0 && same_text(p.segments[n - 1].as_str(), "Option") {
                match &p.angle_args {
                    Some(args) => {
                        if args.len() > 0 {
                            match &args[0] {
                                GenericArg::Type(t) => Some(t.clone()),
                                GenericArg::Other => None,
                            }
                        } else {
                            None
                        }
                    },
                    None => None,
                }
            } else {
                None
            }
        },
        None => None,
    }
}

/// The wire type that a Rust type reads, by its name.
pub open spec fn spec_wire_type(text: Seq<char>) -> Option<VariableType> {
    if text == "f32"@ {
        Some(VariableType::Float)
    } else if text == "f64"@ {
        Some(VariableType::Double)
    } else if text == "i32"@ {
        Some(VariableType::Int)
    } else if text == "bool"@ {
        Some(VariableType::Bool)
    } else if text == "u8"@ {
        Some(VariableType::Char)
    } else if text == "u32"@ || text == "BitField"@ {
        Some(VariableType::BitField)
    } else {
        None
    }
}

/// The wire type that a Rust type reads, by its name.
pub fn wire_type(text: &str) -> (r: Option<VariableType>)
    ensures
        r == spec_wire_type(text@),
{
    if same_text(text, "f32") {
        Some(VariableType::Float)
    } else if same_text(text, "f64") {
        Some(VariableType::Double)
    } else if same_text(text, "i32") {
        Some(VariableType::Int)
    } else if same_text(text, "bool") {
        Some(VariableType::Bool)
    } else if same_text(text, "u8") {
        Some(VariableType::Char)
    } else if same_text(text, "u32") || same_text(text, "BitField") {
        Some(VariableType::BitField)
    } else {
        None
    }
}

/// The type that a field's value is read as.
#[derive(Debug)]
pub struct DeclaredType {
    /// The type as the consumer wrote it.
    pub text: String,
    /// The wire type that it reads, if it reads one.
    pub wire: Option<VariableType>,
}

/// `DeclaredType` as a mathematical value.
pub struct TypeSpec {
    pub text: Seq<char>,
    pub wire: Option<VariableType>,
}

impl View for DeclaredType {
    type V = TypeSpec;

    open spec fn view(&self) -> TypeSpec {
        TypeSpec { text: self.text@, wire: self.wire }
    }
}

/// The declared type that a type's text stands for.
pub open spec fn spec_declared(text: Seq<char>) -> TypeSpec {
    TypeSpec { text, wire: spec_wire_type(text) }
}

impl DeclaredType {
    /// The declared type that a type's text stands for.
    pub fn new(text: String) -> (r: Self)
        ensures
            r@ == spec_declared(text@),
    {
        let wire = wire_type(text.as_str());
        DeclaredType { text, wire }
    }
}

/// The strategy of one field, determined from its attributes and its type.
#[derive(Debug)]
#[allow(inconsistent_fields)]
pub enum FieldStrategy {
    /// A telemetry field that must exist in the schema.
    Critical { field_name: String, field_ident: String, field_type: DeclaredType },
    /// An optional telemetry field, declared as `Option<T>`.
    Optional { field_name: String, field_ident: String, inner_type: DeclaredType },
    /// A telemetry field with an explicit default expression.
    WithDefault {
        field_name: String,
        field_ident: String,
        field_type: DeclaredType,
        default_expr: String,
    },
    /// A telemetry field that falls back to the default of its type.
    TypeDefault { field_name: String, field_ident: String, field_type: DeclaredType },
    /// A field computed from an expression at decode time.
    Calculated {
        field_ident: String,
        field_type: DeclaredType,
        expression: String,
        expression_str: String,
    },
    /// One bit of a bit field, tested with a mask.
    BitfieldHas {
        field_name: String,
        field_ident: String,
        target_is_option: bool,
        default_expr: Option<String>,
        fail_if_missing: bool,
        mask_expr: String,
    },
    /// A bit field decoded by a function of the consumer.
    BitfieldMap {
        field_name: String,
        field_ident: String,
        target_is_option: bool,
        default_expr: Option<String>,
        fail_if_missing: bool,
        decoder_expr: String,
    },
    /// A field that the application manages by itself.
    Skipped { field_ident: String, field_type: DeclaredType },
}

/// `FieldStrategy` as a mathematical value.
#[allow(inconsistent_fields)]
pub enum StrategySpec {
    Critical { field_name: Seq<char>, field_ident: Seq<char>, field_type: TypeSpec },
    Optional { field_name: Seq<char>, field_ident: Seq<char>, inner_type: TypeSpec },
    WithDefault {
        field_name: Seq<char>,
        field_ident: Seq<char>,
        field_type: TypeSpec,
        default_expr: Seq<char>,
    },
    TypeDefault { field_name: Seq<char>, field_ident: Seq<char>, field_type: TypeSpec },
    Calculated {
        field_ident: Seq<char>,
        field_type: TypeSpec,
        expression: Seq<char>,
        expression_str: Seq<char>,
    },
    BitfieldHas {
        field_name: Seq<char>,
        field_ident: Seq<char>,
        target_is_option: bool,
        default_expr: Option<Seq<char>>,
        fail_if_missing: bool,
        mask_expr: Seq<char>,
    },
    BitfieldMap {
        field_name: Seq<char>,
        field_ident: Seq<char>,
        target_is_option: bool,
        default_expr: Option<Seq<char>>,
        fail_if_missing: bool,
        decoder_expr: Seq<char>,
    },
    Skipped { field_ident: Seq<char>, field_type: TypeSpec },
}

impl View for FieldStrategy {
    type V = StrategySpec;

    open spec fn view(&self) -> StrategySpec {
        match self {
            FieldStrategy::Critical { field_name, field_ident, field_type } => StrategySpec::Critical {
                field_name: field_name@,
                field_ident: field_ident@,
                field_type: field_type@,
            },
            FieldStrategy::Optional { field_name, field_ident, inner_type } => StrategySpec::Optional {
                field_name: field_name@,
                field_ident: field_ident@,
                inner_type: inner_type@,
            },
            FieldStrategy::WithDefault {
                field_name,
                field_ident,
                field_type,
                default_expr,
            } => StrategySpec::WithDefault {
                field_name: field_name@,
                field_ident: field_ident@,
                field_type: field_type@,
                default_expr: default_expr@,
            },
            FieldStrategy::TypeDefault {
                field_name,
                field_ident,
                field_type,
            } => StrategySpec::TypeDefault {
                field_name: field_name@,
                field_ident: field_ident@,
                field_type: field_type@,
            },
            FieldStrategy::Calculated {
                field_ident,
                field_type,
                expression,
                expression_str,
            } => StrategySpec::Calculated {
                field_ident: field_ident@,
                field_type: field_type@,
                expression: expression@,
                expression_str: expression_str@,
            },
            FieldStrategy::BitfieldHas {
                field_name,
                field_ident,
                target_is_option,
                default_expr,
                fail_if_missing,
                mask_expr,
            } => StrategySpec::BitfieldHas {
                field_name: field_name@,
                field_ident: field_ident@,
                target_is_option: *target_is_option,
                default_expr: text_of(*default_expr),
                fail_if_missing: *fail_if_missing,
                mask_expr: mask_expr@,
            },
            FieldStrategy::BitfieldMap {
                field_name,
                field_ident,
                target_is_option,
                default_expr,
                fail_if_missing,
                decoder_expr,
            } => StrategySpec::BitfieldMap {
                field_name: field_name@,
                field_ident: field_ident@,
                target_is_option: *target_is_option,
                default_expr: text_of(*default_expr),
                fail_if_missing: *fail_if_missing,
                decoder_expr: decoder_expr@,
            },
            FieldStrategy::Skipped { field_ident, field_type } => StrategySpec::Skipped {
                field_ident: field_ident@,
                field_type: field_type@,
            },
        }
    }
}

/// The tokens of a text read as a Rust expression, printed again; none
/// where the text is no expression. It names what `syn::parse_str` makes of
/// the text and the token stream of the result prints.
pub uninterp spec fn expr_tokens(text: Seq<char>) -> Option<Seq<char>>;

/// Parses a text as a Rust expression with `syn::parse_str::<syn::Expr>`
/// and prints the expression's token stream (`quote::ToTokens`). Of the
/// result only this is claimed: it is a function of the text, `expr_tokens`.
#[verifier::external_body]
fn parse_expr(text: &str) -> (r: Option<String>)
    ensures
        text_of(r) == expr_tokens(text@),
{
    match syn::parse_str::<syn::Expr>(text) {
        Ok(expr) => Some(quote::ToTokens::to_token_stream(&expr).to_string()),
        Err(_) => None,
    }
}

/// The expressions of a field, each as `expr_tokens` reads it: that of the
/// bit field attribute (mask or decoder), that of `missing`, that of
/// `calculated`. A text that is no expression and a text that is not there
/// both give none.
#[derive(Debug)]
pub struct ParsedExprs {
    pub bit_expr: Option<String>,
    pub default_expr: Option<String>,
    pub calculated: Option<String>,
}

/// `ParsedExprs` as a mathematical value.
pub struct ExprsSpec {
    pub bit_expr: Option<Seq<char>>,
    pub default_expr: Option<Seq<char>>,
    pub calculated: Option<Seq<char>>,
}

impl View for ParsedExprs {
    type V = ExprsSpec;

    open spec fn view(&self) -> ExprsSpec {
        ExprsSpec {
            bit_expr: text_of(self.bit_expr),
            default_expr: text_of(self.default_expr),
            calculated: text_of(self.calculated),
        }
    }
}

/// The tokens of a text that may be missing.
pub open spec fn tokens_of(text: Option<Seq<char>>) -> Option<Seq<char>> {
    match text {
        Some(t) => expr_tokens(t),
        None => None,
    }
}

/// The text of the expression in a bit field attribute.
pub open spec fn bit_text(bit: Option<BitfieldSpec>) -> Option<Seq<char>> {
    match bit {
        Some(BitfieldSpec::Has { mask, .. }) => Some(mask),
        Some(BitfieldSpec::MapWith { decoder, .. }) => Some(decoder),
        None => None,
    }
}

/// The parsed expressions of a field.
pub open spec fn spec_parsed_exprs(bit: Option<BitfieldSpec>, summary: SummarySpec) -> ExprsSpec {
    ExprsSpec {
        bit_expr: tokens_of(bit_text(bit)),
        default_expr: tokens_of(summary.default_value),
        calculated: tokens_of(summary.calculated),
    }
}

/// The strategy of a field with a bit field attribute.
pub open spec fn spec_decide_bitfield(
    ident: Seq<char>,
    ty: FieldType,
    bit: BitfieldSpec,
    summary: SummarySpec,
    exprs: ExprsSpec,
) -> Result<StrategySpec, DeriveError> {
    let inner = spec_option_inner(ty);
    let target_is_option = inner is Some;
    let default_ok = summary.default_value is None || exprs.default_expr is Some;
    let default_expr = if summary.default_value is Some {
        exprs.default_expr
    } else {
        None
    };
    match bit {
        BitfieldSpec::Has { name, mask } => {
            let is_bool = match inner {
                Some(t) => t == "bool"@,
                None => ty.text@ == "bool"@,
            };
            if !is_bool {
                Err(DeriveError::BitfieldHasNeedsBool)
            } else if exprs.bit_expr is None || !default_ok {
                Err(DeriveError::InvalidExpression)
            } else {
                Ok(
                    StrategySpec::BitfieldHas {
                        field_name: name,
                        field_ident: ident,
                        target_is_option,
                        default_expr,
                        fail_if_missing: summary.fail_if_missing,
                        mask_expr: exprs.bit_expr->Some_0,
                    },
                )
            }
        },
        BitfieldSpec::MapWith { name, decoder } => {
            if exprs.bit_expr is None || !default_ok {
                Err(DeriveError::InvalidExpression)
            } else {
                Ok(
                    StrategySpec::BitfieldMap {
                        field_name: name,
                        field_ident: ident,
                        target_is_option,
                        default_expr,
                        fail_if_missing: summary.fail_if_missing,
                        decoder_expr: exprs.bit_expr->Some_0,
                    },
                )
            }
        },
    }
}

/// The strategy of a field without a bit field attribute. `skip` comes
/// first, then `calculated`; a telemetry field needs its `field_name`, and
/// is critical with `fail_if_missing`, else optional under `Option`, else
/// has the default of `missing`, else that of its type.
pub open spec fn spec_decide_plain(
    ident: Seq<char>,
    ty: FieldType,
    summary: SummarySpec,
    exprs: ExprsSpec,
) -> Result<StrategySpec, DeriveError> {
    if summary.skip {
        Ok(StrategySpec::Skipped { field_ident: ident, field_type: spec_declared(ty.text@) })
    } else if summary.calculated is Some {
        match exprs.calculated {
            Some(e) => Ok(
                StrategySpec::Calculated {
                    field_ident: ident,
                    field_type: spec_declared(ty.text@),
                    expression: e,
                    expression_str: summary.calculated->Some_0,
                },
            ),
            None => Err(DeriveError::InvalidExpression),
        }
    } else if summary.field_name is None {
        Err(DeriveError::MissingFieldName)
    } else if summary.fail_if_missing {
        Ok(
            StrategySpec::Critical {
                field_name: summary.field_name->Some_0,
                field_ident: ident,
                field_type: spec_declared(ty.text@),
            },
        )
    } else if spec_option_inner(ty) is Some {
        Ok(
            StrategySpec::Optional {
                field_name: summary.field_name->Some_0,
                field_ident: ident,
                inner_type: spec_declared(spec_option_inner(ty)->Some_0),
            },
        )
    } else if summary.default_value is Some {
        match exprs.default_expr {
            Some(e) => Ok(
                StrategySpec::WithDefault {
                    field_name: summary.field_name->Some_0,
                    field_ident: ident,
                    field_type: spec_declared(ty.text@),
                    default_expr: e,
                },
            ),
            None => Err(DeriveError::InvalidExpression),
        }
    } else {
        Ok(
            StrategySpec::TypeDefault {
                field_name: summary.field_name->Some_0,
                field_ident: ident,
                field_type: spec_declared(ty.text@),
            },
        )
    }
}

/// The strategy of a field, given what its attributes say and how its
/// expressions parse.
pub open spec fn spec_decide_strategy(
    field: FieldDecl,
    bit: Option<BitfieldSpec>,
    summary: SummarySpec,
    exprs: ExprsSpec,
) -> Result<StrategySpec, DeriveError> {
    match field.ident {
        None => Err(DeriveError::FieldMustHaveName),
        Some(ident) => match bit {
            Some(b) => spec_decide_bitfield(ident@, field.ty, b, summary, exprs),
            None => spec_decide_plain(ident@, field.ty, summary, exprs),
        },
    }
}

/// The view of a strategy or its error.
pub open spec fn strategy_view(r: Result<FieldStrategy, DeriveError>) -> Result<
    StrategySpec,
    DeriveError,
> {
    match r {
        Ok(s) => Ok(s@),
        Err(e) => Err(e),
    }
}

/// The view of a bit field attribute that may be missing.
pub open spec fn bit_view(bit: Option<BitfieldAttr>) -> Option<BitfieldSpec> {
    match bit {
        Some(b) => Some(b@),
        None => None,
    }
}

/// A copy of a string that may be missing.
fn clone_text(s: &Option<String>) -> (r: Option<String>)
    ensures
        text_of(r) == text_of(*s),
{
    match s {
        Some(t) => Some(t.clone()),
        None => None,
    }
}

/// Decides the strategy of a field from what its attributes say and from
/// its expressions as they were parsed.
pub fn decide_strategy(
    field: &FieldDecl,
    bit: Option<BitfieldAttr>,
    summary: &AttrSummary,
    exprs: &ParsedExprs,
) -> (r: Result<FieldStrategy, DeriveError>)
    ensures
        strategy_view(r) == spec_decide_strategy(*field, bit_view(bit), summary@, exprs@),
{
    let field_ident = match &field.ident {
        Some(i) => i.clone(),
        None => {
            return Err(DeriveError::FieldMustHaveName);
        },
    };
    let inner = extract_option_type(&field.ty);
    match bit {
        Some(bit_attr) => {
            let target_is_option = inner.is_some();
            let default_ok = summary.default_value.is_none() || exprs.default_expr.is_some();
            let default_expr = if summary.default_value.is_some() {
                clone_text(&exprs.default_expr)
            } else {
                None
            };
            match bit_attr {
                BitfieldAttr::Has { name, mask } => {
                    let is_bool = match &inner {
                        Some(t) => same_text(t.as_str(), "bool"),
                        None => same_text(field.ty.text.as_str(), "bool"),
                    };
                    if !is_bool {
                        return Err(DeriveError::BitfieldHasNeedsBool);
                    }
                    match &exprs.bit_expr {
                        Some(mask_expr) if default_ok => Ok(
                            FieldStrategy::BitfieldHas {
                                field_name: name,
                                field_ident,
                                target_is_option,
                                default_expr,
                                fail_if_missing: summary.fail_if_missing,
                                mask_expr: mask_expr.clone(),
                            },
                        ),
                        _ => Err(DeriveError::InvalidExpression),
                    }
                },
                BitfieldAttr::MapWith { name, decoder } => {
                    match &exprs.bit_expr {
                        Some(decoder_expr) if default_ok => Ok(
                            FieldStrategy::BitfieldMap {
                                field_name: name,
                                field_ident,
                                target_is_option,
                                default_expr,
                                fail_if_missing: summary.fail_if_missing,
                                decoder_expr: decoder_expr.clone(),
                            },
                        ),
                        _ => Err(DeriveError::InvalidExpression),
                    }
                },
            }
        },
        None => {
            if summary.skip {
                return Ok(
                    FieldStrategy::Skipped {
                        field_ident,
                        field_type: DeclaredType::new(field.ty.text.clone()),
                    },
                );
            }
            if let Some(expr_str) = &summary.calculated {
                return match &exprs.calculated {
                    Some(e) => Ok(
                        FieldStrategy::Calculated {
                            field_ident,
                            field_type: DeclaredType::new(field.ty.text.clone()),
                            expression: e.clone(),
                            expression_str: expr_str.clone(),
                        },
                    ),
                    None => Err(DeriveError::InvalidExpression),
                };
            }
            let field_name = match &summary.field_name {
                Some(n) => n.clone(),
                None => {
                    return Err(DeriveError::MissingFieldName);
                },
            };
            if summary.fail_if_missing {
                return Ok(
                    FieldStrategy::Critical {
                        field_name,
                        field_ident,
                        field_type: DeclaredType::new(field.ty.text.clone()),
                    },
                );
            }
            if let Some(inner_type) = inner {
                return Ok(
                    FieldStrategy::Optional {
                        field_name,
                        field_ident,
                        inner_type: DeclaredType::new(inner_type),
                    },
                );
            }
            if summary.default_value.is_some() {
                return match &exprs.default_expr {
                    Some(e) => Ok(
                        FieldStrategy::WithDefault {
                            field_name,
                            field_ident,
                            field_type: DeclaredType::new(field.ty.text.clone()),
                            default_expr: e.clone(),
                        },
                    ),
                    None => Err(DeriveError::InvalidExpression),
                };
            }
            Ok(
                FieldStrategy::TypeDefault {
                    field_name,
                    field_ident,
                    field_type: DeclaredType::new(field.ty.text.clone()),
                },
            )
        },
    }
}

/// Parses a text that may be missing as an expression.
fn parse_optional_expr(text: &Option<String>) -> (r: Option<String>)
    ensures
        text_of(r) == tokens_of(text_of(*text)),
{
    match text {
        Some(t) => parse_expr(t.as_str()),
        None => None,
    }
}

/// The strategy of a field as its declaration gives it.
pub open spec fn spec_field_strategy(field: FieldDecl) -> Result<StrategySpec, DeriveError> {
    match field.ident {
        None => Err(DeriveError::FieldMustHaveName),
        Some(_) => match spec_bitfield_from(field.attrs@, 0) {
            Err(e) => Err(e),
            Ok(bit) => spec_decide_strategy(
                field,
                bit,
                spec_summary(field.attrs@),
                spec_parsed_exprs(bit, spec_summary(field.attrs@)),
            ),
        },
    }
}

/// Parses a single field into its strategy.
pub fn parse_field_strategy(field: &FieldDecl) -> (r: Result<FieldStrategy, DeriveError>)
    ensures
        strategy_view(r) == spec_field_strategy(*field),
{
    if field.ident.is_none() {
        return Err(DeriveError::FieldMustHaveName);
    }
    let bit = match parse_bitfield_attr(field) {
        Ok(b) => b,
        Err(e) => {
            return Err(e);
        },
    };
    let summary = summarize_attrs(&field.attrs);
    let bit_expr = match &bit {
        Some(BitfieldAttr::Has { mask, .. }) => parse_expr(mask.as_str()),
        Some(BitfieldAttr::MapWith { decoder, .. }) => parse_expr(decoder.as_str()),
        None => None,
    };
    let exprs = ParsedExprs {
        bit_expr,
        default_expr: parse_optional_expr(&summary.default_value),
        calculated: parse_optional_expr(&summary.calculated),
    };
    decide_strategy(field, bit, &summary, &exprs)
}

} // verus!
