//! The two phases of a frame adapter. Validation resolves each field that a
//! consumer declares against the schema, once, into an extraction plan;
//! extraction then reads every frame by offset and type alone.

use vstd::prelude::*;

use super::schema::{RawVariableInfo, VariableLayout, VariableType};
use super::types::{
    read_var, spec_read_var, spec_type_default, type_default, DecodeError, VarValue,
};

verus! {

/// What a field falls back to when telemetry does not provide it.
#[derive(Debug)]
pub enum DefaultValue {
    /// The default of the field's type.
    TypeDefault,
    /// The expression that the consumer declared, as text.
    ExplicitExpression(String),
}

/// `DefaultValue` as a mathematical value.
pub enum DefaultRule {
    TypeDefault,
    ExplicitExpression(Seq<char>),
}

impl View for DefaultValue {
    type V = DefaultRule;

    open spec fn view(&self) -> DefaultRule {
        match self {
            DefaultValue::TypeDefault => DefaultRule::TypeDefault,
            DefaultValue::ExplicitExpression(e) => DefaultRule::ExplicitExpression(e@),
        }
    }
}

/// One resolved field of an extraction plan.
#[derive(Debug)]
#[allow(inconsistent_fields)]
pub enum FieldExtraction {
    /// The variable exists; decoding may rely on it.
    Required { name: String, var_info: RawVariableInfo },
    /// The variable may be missing; the field is then none.
    Optional { name: String, var_info: Option<RawVariableInfo> },
    /// The variable may be missing; the field then takes its default.
    WithDefault { name: String, var_info: Option<RawVariableInfo>, default_value: DefaultValue },
    /// Computed at decode time from fields already resolved.
    Calculated { expression: String },
    /// Not sourced from telemetry.
    Skipped,
}

/// `FieldExtraction` as a mathematical value.
#[allow(inconsistent_fields)]
pub enum FieldSpec {
    Required { name: Seq<char>, var_info: VariableLayout },
    Optional { name: Seq<char>, var_info: Option<VariableLayout> },
    WithDefault { name: Seq<char>, var_info: Option<VariableLayout>, default_value: DefaultRule },
    Calculated { expression: Seq<char> },
    Skipped,
}

/// The layout of an entry that may be missing.
pub open spec fn layout_of(info: Option<RawVariableInfo>) -> Option<VariableLayout> {
    match info {
        Some(v) => Some(v@),
        None => None,
    }
}

impl View for FieldExtraction {
    type V = FieldSpec;

    open spec fn view(&self) -> FieldSpec {
        match self {
            FieldExtraction::Required { name, var_info } => FieldSpec::Required {
                name: name@,
                var_info: var_info@,
            },
            FieldExtraction::Optional { name, var_info } => FieldSpec::Optional {
                name: name@,
                var_info: layout_of(*var_info),
            },
            FieldExtraction::WithDefault { name, var_info, default_value } => FieldSpec::WithDefault {
                name: name@,
                var_info: layout_of(*var_info),
                default_value: default_value@,
            },
            FieldExtraction::Calculated { expression } => FieldSpec::Calculated {
                expression: expression@,
            },
            FieldExtraction::Skipped => FieldSpec::Skipped,
        }
    }
}

impl FieldSpec {
    /// The telemetry variable that the field is read from, if it names one.
    pub open spec fn name(self) -> Option<Seq<char>> {
        match self {
            FieldSpec::Required { name, .. } => Some(name),
            FieldSpec::Optional { name, .. } => Some(name),
            FieldSpec::WithDefault { name, .. } => Some(name),
            FieldSpec::Calculated { .. } => None,
            FieldSpec::Skipped => None,
        }
    }

    /// The layout that validation found for the field, if any.
    pub open spec fn var_info(self) -> Option<VariableLayout> {
        match self {
            FieldSpec::Required { var_info, .. } => Some(var_info),
            FieldSpec::Optional { var_info, .. } => var_info,
            FieldSpec::WithDefault { var_info, .. } => var_info,
            FieldSpec::Calculated { .. } => None,
            FieldSpec::Skipped => None,
        }
    }
}

/// What extraction yields for one field of a frame.
#[derive(Debug, Clone, Copy, PartialEq, Eq, Structural)]
pub enum FieldValue {
    /// The value read from the frame.
    Value(VarValue),
    /// An optional field without a value.
    Absent,
    /// The field takes the default of its type.
    TypeDefault,
    /// The field takes the default that the consumer declared.
    ExplicitDefault,
    /// The consumer computes the field from its expression.
    Calculated,
}

/// What a declared type reads from a frame: a type that is not one of the
/// wire types reads nothing.
pub open spec fn spec_read_field(data: Seq<u8>, info: VariableLayout, ty: Option<VariableType>) -> Option<
    VarValue,
> {
    match ty {
        Some(t) => match spec_read_var(data, info, t) {
            Ok(v) => Some(v),
            Err(_) => None,
        },
        None => None,
    }
}

/// Reads a variable as the declared type, if that can be done.
pub fn read_field(data: &[u8], info: &RawVariableInfo, ty: Option<VariableType>) -> (r: Option<
    VarValue,
>)
    ensures
        r == spec_read_field(data@, info@, ty),
{
    match ty {
        Some(t) => match read_var(data, info, t) {
            Ok(v) => Some(v),
            Err(_) => None,
        },
        None => None,
    }
}

/// The fallback of a field with a default.
pub open spec fn fallback(explicit: bool) -> FieldValue {
    if explicit {
        FieldValue::ExplicitDefault
    } else {
        FieldValue::TypeDefault
    }
}

/// A field with a default: the value where the plan has the variable and it
/// reads as the declared type, the default in every other case.
pub open spec fn spec_extract_with_default(
    entry: Option<FieldSpec>,
    data: Seq<u8>,
    ty: Option<VariableType>,
    explicit: bool,
) -> FieldValue {
    match entry {
        Some(FieldSpec::WithDefault { var_info: Some(info), .. }) => match spec_read_field(
            data,
            info,
            ty,
        ) {
            Some(v) => FieldValue::Value(v),
            None => fallback(explicit),
        },
        _ => fallback(explicit),
    }
}

/// An optional field: the value where the plan has the variable and it reads
/// as the declared type, none in every other case.
pub open spec fn spec_extract_optional(
    entry: Option<FieldSpec>,
    data: Seq<u8>,
    ty: Option<VariableType>,
) -> FieldValue {
    match entry {
        Some(FieldSpec::Optional { var_info: Some(info), .. }) => match spec_read_field(
            data,
            info,
            ty,
        ) {
            Some(v) => FieldValue::Value(v),
            None => FieldValue::Absent,
        },
        _ => FieldValue::Absent,
    }
}

/// Whether a required field can be read: the plan holds it as required and
/// the variable reads as the declared type.
pub open spec fn critical_ready(entry: Option<FieldSpec>, data: Seq<u8>, ty: Option<VariableType>) -> bool {
    match entry {
        Some(FieldSpec::Required { var_info, .. }) => spec_read_field(data, var_info, ty) is Some,
        _ => false,
    }
}

/// The value of a required field that can be read.
pub open spec fn spec_extract_critical(
    entry: Option<FieldSpec>,
    data: Seq<u8>,
    ty: Option<VariableType>,
) -> VarValue
    recommends
        critical_ready(entry, data, ty),
{
    match entry {
        Some(FieldSpec::Required { var_info, .. }) => spec_read_field(data, var_info, ty)->Some_0,
        _ => arbitrary(),
    }
}

/// Whether a bit field can be read: only a required entry under a field that
/// is no option has to succeed.
pub open spec fn bitfield_ready(entry: Option<FieldSpec>, data: Seq<u8>, target_is_option: bool) -> bool {
    match entry {
        Some(FieldSpec::Required { var_info, .. }) => target_is_option || spec_read_field(
            data,
            var_info,
            Some(VariableType::BitField),
        ) is Some,
        _ => true,
    }
}

/// A bit field. Under an option only an optional entry is read; else a
/// required entry is read, an entry with a default is read or falls back,
/// and anything else falls back.
pub open spec fn spec_extract_bitfield(
    entry: Option<FieldSpec>,
    data: Seq<u8>,
    target_is_option: bool,
    explicit: bool,
) -> FieldValue {
    if target_is_option {
        spec_extract_optional(entry, data, Some(VariableType::BitField))
    } else {
        match entry {
            Some(FieldSpec::Required { var_info, .. }) => FieldValue::Value(
                spec_read_field(data, var_info, Some(VariableType::BitField))->Some_0,
            ),
            _ => spec_extract_with_default(entry, data, Some(VariableType::BitField), explicit),
        }
    }
}

/// Extracts a field that has a default.
pub fn extract_with_default(
    entry: Option<&FieldExtraction>,
    data: &[u8],
    ty: Option<VariableType>,
    explicit: bool,
) -> (r: FieldValue)
    ensures
        r == spec_extract_with_default(entry_view(entry), data@, ty, explicit),
{
    let fall = if explicit {
        FieldValue::ExplicitDefault
    } else {
        FieldValue::TypeDefault
    };
    match entry {
        Some(FieldExtraction::WithDefault { var_info: Some(info), .. }) => {
            match read_field(data, info, ty) {
                Some(v) => FieldValue::Value(v),
                None => fall,
            }
        },
        _ => fall,
    }
}

/// Extracts an optional field.
pub fn extract_optional(entry: Option<&FieldExtraction>, data: &[u8], ty: Option<VariableType>) -> (r:
    FieldValue)
    ensures
        r == spec_extract_optional(entry_view(entry), data@, ty),
{
    match entry {
        Some(FieldExtraction::Optional { var_info: Some(info), .. }) => {
            match read_field(data, info, ty) {
                Some(v) => FieldValue::Value(v),
                None => FieldValue::Absent,
            }
        },
        _ => FieldValue::Absent,
    }
}

/// Extracts a required field. Validation has shown that the variable
/// exists; that it reads as the declared type is the caller's to know.
pub fn extract_critical(entry: Option<&FieldExtraction>, data: &[u8], ty: Option<VariableType>) -> (r:
    VarValue)
    requires
        critical_ready(entry_view(entry), data@, ty),
    ensures
        r == spec_extract_critical(entry_view(entry), data@, ty),
{
    match entry {
        Some(FieldExtraction::Required { var_info, .. }) => {
            match read_field(data, var_info, ty) {
                Some(v) => v,
                None => vstd::pervasive::unreached(),
            }
        },
        _ => vstd::pervasive::unreached(),
    }
}

/// Extracts the bits of a bit field.
pub fn extract_bitfield(
    entry: Option<&FieldExtraction>,
    data: &[u8],
    target_is_option: bool,
    explicit: bool,
) -> (r: FieldValue)
    requires
        bitfield_ready(entry_view(entry), data@, target_is_option),
    ensures
        r == spec_extract_bitfield(entry_view(entry), data@, target_is_option, explicit),
{
    if target_is_option {
        extract_optional(entry, data, Some(VariableType::BitField))
    } else {
        match entry {
            Some(FieldExtraction::Required { .. }) => FieldValue::Value(
                extract_critical(entry, data, Some(VariableType::BitField)),
            ),
            _ => extract_with_default(entry, data, Some(VariableType::BitField), explicit),
        }
    }
}

/// The mathematical value of an entry that may be missing.
pub open spec fn entry_view(entry: Option<&FieldExtraction>) -> Option<FieldSpec> {
    match entry {
        Some(e) => Some(e@),
        None => None,
    }
}

/// The specs of a plan, in order.
pub open spec fn plan_view(plan: Seq<FieldExtraction>) -> Seq<FieldSpec> {
    plan.map_values(|e: FieldExtraction| e@)
}

/// The entry of a plan at a position, if the plan is that long.
pub open spec fn plan_entry(plan: Seq<FieldSpec>, i: int) -> Option<FieldSpec> {
    if 0 <= i < plan.len() {
        Some(plan[i])
    } else {
        None
    }
}

/// Whether the entry at `i` is the first of the plan that is read from `name`.
pub open spec fn first_named(plan: Seq<FieldSpec>, name: Seq<char>, i: int) -> bool {
    &&& 0 <= i < plan.len()
    &&& plan[i].name() == Some(name)
    &&& forall|j: int| 0 <= j < i ==> (#[trigger] plan[j]).name() != Some(name)
}

/// Whether no entry of the plan is read from `name`.
pub open spec fn not_named(plan: Seq<FieldSpec>, name: Seq<char>) -> bool {
    forall|j: int| 0 <= j < plan.len() ==> (#[trigger] plan[j]).name() != Some(name)
}

/// What a lookup by name yields from a frame: the value of the first entry
/// read from that variable, where it reads as `ty`; else the default of `ty`.
pub open spec fn spec_fetch_or_default(
    plan: Seq<FieldSpec>,
    data: Seq<u8>,
    name: Seq<char>,
    ty: VariableType,
) -> VarValue {
    if exists|i: int| first_named(plan, name, i) {
        let i = choose|i: int| first_named(plan, name, i);
        match plan[i].var_info() {
            Some(info) => match spec_read_var(data, info, ty) {
                Ok(v) => v,
                Err(_) => spec_type_default(ty),
            },
            None => spec_type_default(ty),
        }
    } else {
        spec_type_default(ty)
    }
}

/// The extraction plan of one subscription: the resolved fields in the
/// order in which the consumer declared them. It is built once and not
/// changed afterwards.
#[derive(Debug)]
pub struct AdapterValidation {
    pub extraction_plan: Vec<FieldExtraction>,
}

impl View for AdapterValidation {
    type V = Seq<FieldSpec>;

    open spec fn view(&self) -> Seq<FieldSpec> {
        plan_view(self.extraction_plan@)
    }
}

impl AdapterValidation {
    /// The plan that holds the given entries, in their order.
    pub fn new(extraction_plan: Vec<FieldExtraction>) -> (r: Self)
        ensures
            r.extraction_plan == extraction_plan,
    {
        AdapterValidation { extraction_plan }
    }

    /// Number of fields.
    pub fn len(&self) -> (n: usize)
        ensures
            n == self@.len(),
    {
        self.extraction_plan.len()
    }

    /// The entry at a position.
    pub fn get(&self, i: usize) -> (r: Option<&FieldExtraction>)
        ensures
            entry_view(r) == plan_entry(self@, i as int),
    {
        if i < self.extraction_plan.len() {
            Some(&self.extraction_plan[i])
        } else {
            None
        }
    }

    /// Position of the first field that is read from the variable `name`.
    pub fn index_of(&self, name: &str) -> (r: Option<usize>)
        ensures
            match r {
                Some(i) => first_named(self@, name@, i as int),
                None => not_named(self@, name@),
            },
    {
        let wanted = name.to_owned();
        let mut i: usize = 0;
        while i < self.extraction_plan.len()
            invariant
                i <= self.extraction_plan@.len(),
                wanted@ == name@,
                forall|j: int| 0 <= j < i ==> (#[trigger] self@[j]).name() != Some(name@),
            decreases self.extraction_plan@.len() - i,
        {
            let found = match &self.extraction_plan[i] {
                FieldExtraction::Required { name, .. } => *name == wanted,
                FieldExtraction::Optional { name, .. } => *name == wanted,
                FieldExtraction::WithDefault { name, .. } => *name == wanted,
                FieldExtraction::Calculated { .. } => false,
                FieldExtraction::Skipped => false,
            };
            assert(found == (self@[i as int].name() == Some(name@)));
            if found {
                return Some(i);
            }
            i += 1;
        }
        None
    }

    /// The value of the variable `name` in a frame, for a calculated field:
    /// read through the first field of the plan that names it, or the
    /// default of `ty` where there is none or it does not read as `ty`.
    pub fn fetch_or_default(&self, data: &[u8], name: &str, ty: VariableType) -> (r: VarValue)
        ensures
            r == spec_fetch_or_default(self@, data@, name@, ty),
    {
        match self.index_of(name) {
            Some(i) => {
                proof {
                    let k = choose|k: int| first_named(self@, name@, k);
                    if k < i {
                        assert(self@[k].name() != Some(name@));
                    } else if i < k {
                        assert(self@[i as int].name() != Some(name@));
                    }
                }
                let info = match &self.extraction_plan[i] {
                    FieldExtraction::Required { var_info, .. } => Some(var_info),
                    FieldExtraction::Optional { var_info, .. } => var_info.as_ref(),
                    FieldExtraction::WithDefault { var_info, .. } => var_info.as_ref(),
                    FieldExtraction::Calculated { .. } => None,
                    FieldExtraction::Skipped => None,
                };
                match info {
                    Some(v) => match read_var(data, v, ty) {
                        Ok(x) => x,
                        Err(_) => type_default(ty),
                    },
                    None => type_default(ty),
                }
            },
            None => {
                proof {
                    if exists|k: int| first_named(self@, name@, k) {
                        let k = choose|k: int| first_named(self@, name@, k);
                        assert(self@[k].name() != Some(name@));
                    }
                }
                type_default(ty)
            },
        }
    }
}

} // verus!
