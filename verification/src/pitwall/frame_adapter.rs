//! A frame adapter driven by a declaration: the layout of a consumer type,
//! validated once against the schema of a connection and then used to decode
//! every frame.

use vstd::prelude::*;

use super::adapters::{
    bitfield_ready, critical_ready, entry_view, extract_bitfield, extract_critical,
    extract_optional, extract_with_default, plan_entry, read_field, spec_extract_bitfield,
    spec_extract_critical, spec_extract_optional, spec_extract_with_default,
    spec_fetch_or_default, AdapterValidation, DefaultRule, DefaultValue, FieldExtraction,
    FieldSpec, FieldValue,
};
use super::frame_derive::{
    parse_field_strategy, same_text, spec_field_strategy, DeclaredType, DeriveError, FieldDecl,
    FieldStrategy, StrategySpec, TypeSpec,
};
use super::schema::{has_name, lookup, RawVariableInfo, VariableLayout, VariableSchema, VariableType};
use super::types::{FramePacket, TelemetryError, VarValue};

verus! {

/// What the consumer's type is.
#[derive(Debug)]
pub enum DataShape {
    /// A struct with named fields.
    Named(Vec<FieldDecl>),
    /// A tuple struct.
    Unnamed,
    /// A unit struct.
    Unit,
    /// An enum.
    Enum,
    /// A union.
    Union,
}

/// The declaration of a consumer type.
#[derive(Debug)]
pub struct StructDecl {
    pub ident: String,
    pub data: DataShape,
}

/// The layout of a consumer type: the strategy of each of its fields, in
/// the order of the declaration.
#[derive(Debug)]
pub struct FrameLayout {
    pub struct_name: String,
    pub strategies: Vec<FieldStrategy>,
}

impl View for FrameLayout {
    type V = Seq<StrategySpec>;

    open spec fn view(&self) -> Seq<StrategySpec> {
        self.strategies@.map_values(|s: FieldStrategy| s@)
    }
}

/// The strategies of a sequence of fields, or the error of the first field
/// that has one.
pub open spec fn spec_strategies(fields: Seq<FieldDecl>) -> Result<Seq<StrategySpec>, DeriveError>
    decreases fields.len(),
{
    if fields.len() == 0 {
        Ok(Seq::empty())
    } else {
        match spec_strategies(fields.drop_last()) {
            Err(e) => Err(e),
            Ok(done) => match spec_field_strategy(fields.last()) {
                Ok(s) => Ok(done.push(s)),
                Err(e) => Err(e),
            },
        }
    }
}

/// The layout that a declaration gives: only a struct with named fields has one.
pub open spec fn spec_frame_layout(input: StructDecl) -> Result<Seq<StrategySpec>, DeriveError> {
    match input.data {
        DataShape::Named(fields) => spec_strategies(fields@),
        DataShape::Unnamed => Err(DeriveError::OnlyNamedFields),
        DataShape::Unit => Err(DeriveError::OnlyNamedFields),
        DataShape::Enum => Err(DeriveError::OnlyStructs),
        DataShape::Union => Err(DeriveError::OnlyStructs),
    }
}

proof fn lemma_strategies_error_stays(fields: Seq<FieldDecl>, n: int)
    requires
        0 <= n <= fields.len(),
        spec_strategies(fields.take(n)) is Err,
    ensures
        spec_strategies(fields) == spec_strategies(fields.take(n)),
    decreases fields.len() - n,
{
    if n == fields.len() {
        assert(fields.take(n) =~= fields);
    } else {
        assert(fields.take(n + 1).drop_last() =~= fields.take(n));
        lemma_strategies_error_stays(fields, n + 1);
    }
}

/// The view of a layout or its error.
pub open spec fn layout_view(r: Result<FrameLayout, DeriveError>) -> Result<
    Seq<StrategySpec>,
    DeriveError,
> {
    match r {
        Ok(l) => Ok(l@),
        Err(e) => Err(e),
    }
}

/// Builds the adapter layout of a consumer type from its declaration.
pub fn generate_frame_adapter(input: &StructDecl) -> (r: Result<FrameLayout, DeriveError>)
    ensures
        layout_view(r) == spec_frame_layout(*input),
        r matches Ok(l) ==> l.struct_name@ == input.ident@,
{
    let fields = match &input.data {
        DataShape::Named(fields) => fields,
        DataShape::Unnamed => {
            return Err(DeriveError::OnlyNamedFields);
        },
        DataShape::Unit => {
            return Err(DeriveError::OnlyNamedFields);
        },
        DataShape::Enum => {
            return Err(DeriveError::OnlyStructs);
        },
        DataShape::Union => {
            return Err(DeriveError::OnlyStructs);
        },
    };
    let mut strategies: Vec<FieldStrategy> = Vec::new();
    let mut i: usize = 0;
    assert(strategies@.map_values(|s: FieldStrategy| s@) =~= Seq::<StrategySpec>::empty());
    while i < fields.len()
        invariant
            i <= fields@.len(),
            input.data == DataShape::Named(*fields),
            spec_strategies(fields@.take(i as int)) == Ok::<Seq<StrategySpec>, DeriveError>(
                strategies@.map_values(|s: FieldStrategy| s@),
            ),
        decreases fields@.len() - i,
    {
        proof {
            assert(fields@.take(i + 1).drop_last() =~= fields@.take(i as int));
            assert(fields@.take(i + 1).last() == fields@[i as int]);
        }
        let ghost before = strategies@.map_values(|s: FieldStrategy| s@);
        match parse_field_strategy(&fields[i]) {
            Ok(s) => {
                strategies.push(s);
                assert(strategies@.map_values(|s: FieldStrategy| s@) =~= before.push(s@));
            },
            Err(e) => {
                proof {
                    lemma_strategies_error_stays(fields@, i + 1);
                }
                return Err(e);
            },
        }
        i += 1;
    }
    assert(fields@.take(fields@.len() as int) =~= fields@);
    Ok(FrameLayout { struct_name: input.ident.clone(), strategies })
}

/// The variable that a strategy cannot do without.
pub open spec fn required_name(s: StrategySpec) -> Option<Seq<char>> {
    match s {
        StrategySpec::Critical { field_name, .. } => Some(field_name),
        StrategySpec::BitfieldHas { field_name, fail_if_missing, .. } => if fail_if_missing {
            Some(field_name)
        } else {
            None
        },
        StrategySpec::BitfieldMap { field_name, fail_if_missing, .. } => if fail_if_missing {
            Some(field_name)
        } else {
            None
        },
        _ => None,
    }
}

/// Whether a strategy requires a variable that the schema lacks.
pub open spec fn is_missing(s: StrategySpec, schema: Seq<VariableLayout>) -> bool {
    match required_name(s) {
        Some(n) => !has_name(schema, n),
        None => false,
    }
}

/// Whether the field at `i` is the first that requires a variable which the schema lacks.
pub open spec fn first_missing(strategies: Seq<StrategySpec>, schema: Seq<VariableLayout>, i: int) -> bool {
    &&& 0 <= i < strategies.len()
    &&& is_missing(strategies[i], schema)
    &&& forall|j: int| 0 <= j < i ==> !is_missing(#[trigger] strategies[j], schema)
}

/// Whether the schema has every variable that the layout requires.
pub open spec fn none_missing(strategies: Seq<StrategySpec>, schema: Seq<VariableLayout>) -> bool {
    forall|j: int| 0 <= j < strategies.len() ==> !is_missing(#[trigger] strategies[j], schema)
}

/// The default rule of a bit field.
pub open spec fn bitfield_default(default_expr: Option<Seq<char>>) -> DefaultRule {
    match default_expr {
        Some(e) => DefaultRule::ExplicitExpression(e),
        None => DefaultRule::TypeDefault,
    }
}

/// The entry of the plan for a bit field.
pub open spec fn bitfield_item(
    name: Seq<char>,
    target_is_option: bool,
    default_expr: Option<Seq<char>>,
    fail_if_missing: bool,
    schema: Seq<VariableLayout>,
) -> FieldSpec {
    if fail_if_missing {
        FieldSpec::Required { name, var_info: lookup(schema, name)->Some_0 }
    } else if target_is_option {
        FieldSpec::Optional { name, var_info: lookup(schema, name) }
    } else {
        FieldSpec::WithDefault {
            name,
            var_info: lookup(schema, name),
            default_value: bitfield_default(default_expr),
        }
    }
}

/// The entry of the plan that a strategy resolves to on a schema.
pub open spec fn plan_item(s: StrategySpec, schema: Seq<VariableLayout>) -> FieldSpec {
    match s {
        StrategySpec::TypeDefault { field_name, .. } => FieldSpec::WithDefault {
            name: field_name,
            var_info: lookup(schema, field_name),
            default_value: DefaultRule::TypeDefault,
        },
        StrategySpec::WithDefault { field_name, default_expr, .. } => FieldSpec::WithDefault {
            name: field_name,
            var_info: lookup(schema, field_name),
            default_value: DefaultRule::ExplicitExpression(default_expr),
        },
        StrategySpec::Optional { field_name, .. } => FieldSpec::Optional {
            name: field_name,
            var_info: lookup(schema, field_name),
        },
        StrategySpec::Critical { field_name, .. } => FieldSpec::Required {
            name: field_name,
            var_info: lookup(schema, field_name)->Some_0,
        },
        StrategySpec::BitfieldHas {
            field_name,
            target_is_option,
            default_expr,
            fail_if_missing,
            ..
        } => bitfield_item(field_name, target_is_option, default_expr, fail_if_missing, schema),
        StrategySpec::BitfieldMap {
            field_name,
            target_is_option,
            default_expr,
            fail_if_missing,
            ..
        } => bitfield_item(field_name, target_is_option, default_expr, fail_if_missing, schema),
        StrategySpec::Calculated { expression_str, .. } => FieldSpec::Calculated {
            expression: expression_str,
        },
        StrategySpec::Skipped { .. } => FieldSpec::Skipped,
    }
}

/// The plan of a layout on a schema: one entry per field, in order.
pub open spec fn spec_plan(strategies: Seq<StrategySpec>, schema: Seq<VariableLayout>) -> Seq<FieldSpec> {
    Seq::new(strategies.len(), |i: int| plan_item(strategies[i], schema))
}

/// Whether a field can be decoded without a fault.
pub open spec fn field_ready(s: StrategySpec, entry: Option<FieldSpec>, data: Seq<u8>) -> bool {
    match s {
        StrategySpec::Critical { field_type, .. } => critical_ready(entry, data, field_type.wire),
        StrategySpec::BitfieldHas { target_is_option, .. } => bitfield_ready(
            entry,
            data,
            target_is_option,
        ),
        StrategySpec::BitfieldMap { target_is_option, .. } => bitfield_ready(
            entry,
            data,
            target_is_option,
        ),
        _ => true,
    }
}

/// What decoding yields for a field.
pub open spec fn field_value(s: StrategySpec, entry: Option<FieldSpec>, data: Seq<u8>) -> FieldValue {
    match s {
        StrategySpec::TypeDefault { field_type, .. } => spec_extract_with_default(
            entry,
            data,
            field_type.wire,
            false,
        ),
        StrategySpec::WithDefault { field_type, .. } => spec_extract_with_default(
            entry,
            data,
            field_type.wire,
            true,
        ),
        StrategySpec::Optional { inner_type, .. } => spec_extract_optional(
            entry,
            data,
            inner_type.wire,
        ),
        StrategySpec::Critical { field_type, .. } => FieldValue::Value(
            spec_extract_critical(entry, data, field_type.wire),
        ),
        StrategySpec::BitfieldHas { target_is_option, default_expr, .. } => spec_extract_bitfield(
            entry,
            data,
            target_is_option,
            default_expr is Some,
        ),
        StrategySpec::BitfieldMap { target_is_option, default_expr, .. } => spec_extract_bitfield(
            entry,
            data,
            target_is_option,
            default_expr is Some,
        ),
        StrategySpec::Calculated { .. } => FieldValue::Calculated,
        StrategySpec::Skipped { .. } => FieldValue::TypeDefault,
    }
}

/// Whether every field of a frame can be decoded without a fault.
pub open spec fn ready(strategies: Seq<StrategySpec>, plan: Seq<FieldSpec>, data: Seq<u8>) -> bool {
    forall|i: int|
        0 <= i < strategies.len() ==> field_ready(#[trigger] strategies[i], plan_entry(plan, i), data)
}

/// What decoding yields for a frame: one value per field, in order.
pub open spec fn spec_adapt(strategies: Seq<StrategySpec>, plan: Seq<FieldSpec>, data: Seq<u8>) -> Seq<
    FieldValue,
> {
    Seq::new(strategies.len(), |i: int| field_value(strategies[i], plan_entry(plan, i), data))
}

/// A copy of an entry that may be missing.
fn clone_info(info: Option<&RawVariableInfo>) -> (r: Option<RawVariableInfo>)
    ensures
        match (info, r) {
            (Some(a), Some(b)) => b == *a,
            (None, None) => true,
            _ => false,
        },
{
    match info {
        Some(v) => Some(v.clone()),
        None => None,
    }
}

/// Resolves one field against the schema; where the field requires a
/// variable that the schema lacks, the name of that variable comes back.
fn resolve_field(s: &FieldStrategy, schema: &VariableSchema) -> (r: Result<FieldExtraction, String>)
    requires
        schema.wf(),
    ensures
        match r {
            Ok(e) => !is_missing(s@, schema.layouts()) && e@ == plan_item(s@, schema.layouts()),
            Err(n) => is_missing(s@, schema.layouts()) && Some(n@) == required_name(s@),
        },
{
    match s {
        FieldStrategy::TypeDefault { field_name, .. } => {
            let info = clone_info(schema.get_variable(field_name.as_str()));
            Ok(
                FieldExtraction::WithDefault {
                    name: field_name.clone(),
                    var_info: info,
                    default_value: DefaultValue::TypeDefault,
                },
            )
        },
        FieldStrategy::WithDefault { field_name, default_expr, .. } => {
            let info = clone_info(schema.get_variable(field_name.as_str()));
            Ok(
                FieldExtraction::WithDefault {
                    name: field_name.clone(),
                    var_info: info,
                    default_value: DefaultValue::ExplicitExpression(default_expr.clone()),
                },
            )
        },
        FieldStrategy::Optional { field_name, .. } => {
            let info = clone_info(schema.get_variable(field_name.as_str()));
            Ok(FieldExtraction::Optional { name: field_name.clone(), var_info: info })
        },
        FieldStrategy::Critical { field_name, .. } => {
            match schema.get_variable(field_name.as_str()) {
                Some(v) => Ok(
                    FieldExtraction::Required { name: field_name.clone(), var_info: v.clone() },
                ),
                None => Err(field_name.clone()),
            }
        },
        FieldStrategy::BitfieldHas {
            field_name,
            target_is_option,
            default_expr,
            fail_if_missing,
            ..
        } => resolve_bitfield(field_name, *target_is_option, default_expr, *fail_if_missing, schema),
        FieldStrategy::BitfieldMap {
            field_name,
            target_is_option,
            default_expr,
            fail_if_missing,
            ..
        } => resolve_bitfield(field_name, *target_is_option, default_expr, *fail_if_missing, schema),
        FieldStrategy::Calculated { expression_str, .. } => Ok(
            FieldExtraction::Calculated { expression: expression_str.clone() },
        ),
        FieldStrategy::Skipped { .. } => Ok(FieldExtraction::Skipped),
    }
}

/// Resolves a bit field against the schema.
fn resolve_bitfield(
    field_name: &String,
    target_is_option: bool,
    default_expr: &Option<String>,
    fail_if_missing: bool,
    schema: &VariableSchema,
) -> (r: Result<FieldExtraction, String>)
    requires
        schema.wf(),
    ensures
        match r {
            Ok(e) => !(fail_if_missing && !has_name(schema.layouts(), field_name@)) && e@
                == bitfield_item(
                field_name@,
                target_is_option,
                super::frame_derive::text_of(*default_expr),
                fail_if_missing,
                schema.layouts(),
            ),
            Err(n) => fail_if_missing && !has_name(schema.layouts(), field_name@) && n@
                == field_name@,
        },
{
    let found = schema.get_variable(field_name.as_str());
    if fail_if_missing {
        match found {
            Some(v) => Ok(
                FieldExtraction::Required { name: field_name.clone(), var_info: v.clone() },
            ),
            None => Err(field_name.clone()),
        }
    } else if target_is_option {
        Ok(FieldExtraction::Optional { name: field_name.clone(), var_info: clone_info(found) })
    } else {
        let default_value = match default_expr {
            Some(e) => DefaultValue::ExplicitExpression(e.clone()),
            None => DefaultValue::TypeDefault,
        };
        Ok(
            FieldExtraction::WithDefault {
                name: field_name.clone(),
                var_info: clone_info(found),
                default_value,
            },
        )
    }
}

impl FrameLayout {
    /// Number of fields.
    pub fn len(&self) -> (n: usize)
        ensures
            n == self@.len(),
    {
        self.strategies.len()
    }

    /// Phase one: resolves every field against the schema. It fails on the
    /// first field that requires a variable which the schema lacks, and
    /// names that variable and every variable that the schema has.
    pub fn validate_schema(&self, schema: &VariableSchema) -> (r: Result<
        AdapterValidation,
        TelemetryError,
    >)
        requires
            schema.wf(),
        ensures
            match r {
                Ok(v) => none_missing(self@, schema.layouts()) && v@ == spec_plan(
                    self@,
                    schema.layouts(),
                ),
                Err(TelemetryError::SchemaValidation { field, available }) => exists|i: int|
                    first_missing(self@, schema.layouts(), i) && Some(field@) == required_name(
                        #[trigger] self@[i],
                    ) && available@.map_values(|s: String| s@) == schema.names(),
                Err(_) => false,
            },
    {
        let mut plan: Vec<FieldExtraction> = Vec::new();
        let mut i: usize = 0;
        while i < self.strategies.len()
            invariant
                i <= self.strategies@.len(),
                schema.wf(),
                plan@.len() == i,
                forall|j: int| 0 <= j < i ==> !is_missing(#[trigger] self@[j], schema.layouts()),
                forall|j: int|
                    0 <= j < i ==> (#[trigger] plan@[j])@ == plan_item(self@[j], schema.layouts()),
            decreases self.strategies@.len() - i,
        {
            assert(self@[i as int] == self.strategies@[i as int]@);
            match resolve_field(&self.strategies[i], schema) {
                Ok(e) => {
                    plan.push(e);
                },
                Err(field) => {
                    let available = schema.variable_names();
                    proof {
                        assert(first_missing(self@, schema.layouts(), i as int));
                    }
                    return Err(TelemetryError::SchemaValidation { field, available });
                },
            }
            i += 1;
        }
        let v = AdapterValidation::new(plan);
        assert(v@ =~= spec_plan(self@, schema.layouts()));
        Ok(v)
    }

    /// Whether a frame can be decoded by `adapt` without a fault: every
    /// required field is held as required by the plan and reads as its
    /// declared type.
    pub fn can_adapt(&self, packet: &FramePacket, validation: &AdapterValidation) -> (r: bool)
        ensures
            r == ready(self@, validation@, packet.data@),
    {
        let data = packet.data.as_slice();
        let mut i: usize = 0;
        while i < self.strategies.len()
            invariant
                i <= self.strategies@.len(),
                data@ == packet.data@,
                forall|j: int|
                    0 <= j < i ==> field_ready(
                        #[trigger] self@[j],
                        plan_entry(validation@, j),
                        packet.data@,
                    ),
            decreases self.strategies@.len() - i,
        {
            assert(self@[i as int] == self.strategies@[i as int]@);
            let entry = validation.get(i);
            let ok = match &self.strategies[i] {
                FieldStrategy::Critical { field_type, .. } => match entry {
                    Some(FieldExtraction::Required { var_info, .. }) => read_field(
                        data,
                        var_info,
                        field_type.wire,
                    ).is_some(),
                    _ => false,
                },
                FieldStrategy::BitfieldHas { target_is_option, .. } => bitfield_can_read(
                    entry,
                    data,
                    *target_is_option,
                ),
                FieldStrategy::BitfieldMap { target_is_option, .. } => bitfield_can_read(
                    entry,
                    data,
                    *target_is_option,
                ),
                _ => true,
            };
            assert(ok == field_ready(self@[i as int], plan_entry(validation@, i as int), data@));
            if !ok {
                return false;
            }
            i += 1;
        }
        true
    }

    /// Phase two: decodes a frame, reading each field by the offset and
    /// type that the plan holds, without looking anything up by name.
    pub fn adapt(&self, packet: &FramePacket, validation: &AdapterValidation) -> (r: Vec<FieldValue>)
        requires
            ready(self@, validation@, packet.data@),
        ensures
            r@ == spec_adapt(self@, validation@, packet.data@),
    {
        let data = packet.data.as_slice();
        let mut out: Vec<FieldValue> = Vec::new();
        let mut i: usize = 0;
        while i < self.strategies.len()
            invariant
                i <= self.strategies@.len(),
                data@ == packet.data@,
                ready(self@, validation@, packet.data@),
                out@.len() == i,
                forall|j: int|
                    0 <= j < i ==> #[trigger] out@[j] == field_value(
                        self@[j],
                        plan_entry(validation@, j),
                        packet.data@,
                    ),
            decreases self.strategies@.len() - i,
        {
            assert(self@[i as int] == self.strategies@[i as int]@);
            assert(field_ready(self@[i as int], plan_entry(validation@, i as int), data@));
            let entry = validation.get(i);
            let value = match &self.strategies[i] {
                FieldStrategy::TypeDefault { field_type, .. } => extract_with_default(
                    entry,
                    data,
                    field_type.wire,
                    false,
                ),
                FieldStrategy::WithDefault { field_type, .. } => extract_with_default(
                    entry,
                    data,
                    field_type.wire,
                    true,
                ),
                FieldStrategy::Optional { inner_type, .. } => extract_optional(
                    entry,
                    data,
                    inner_type.wire,
                ),
                FieldStrategy::Critical { field_type, .. } => FieldValue::Value(
                    extract_critical(entry, data, field_type.wire),
                ),
                FieldStrategy::BitfieldHas {
                    target_is_option,
                    default_expr,
                    ..
                } => extract_bitfield(entry, data, *target_is_option, default_expr.is_some()),
                FieldStrategy::BitfieldMap {
                    target_is_option,
                    default_expr,
                    ..
                } => extract_bitfield(entry, data, *target_is_option, default_expr.is_some()),
                FieldStrategy::Calculated { .. } => FieldValue::Calculated,
                FieldStrategy::Skipped { .. } => FieldValue::TypeDefault,
            };
            out.push(value);
            i += 1;
        }
        assert(out@ =~= spec_adapt(self@, validation@, packet.data@));
        out
    }
}

/// Whether the bits of a bit field can be read where they have to be.
fn bitfield_can_read(entry: Option<&FieldExtraction>, data: &[u8], target_is_option: bool) -> (r:
    bool)
    ensures
        r == bitfield_ready(entry_view(entry), data@, target_is_option),
{
    match entry {
        Some(FieldExtraction::Required { var_info, .. }) => target_is_option || read_field(
            data,
            var_info,
            Some(VariableType::BitField),
        ).is_some(),
        _ => true,
    }
}

/// A required field that the schema lacks makes validation fail: no plan
/// exists, so nothing is ever decoded.
pub proof fn lemma_required_absent_fails(
    strategies: Seq<StrategySpec>,
    schema: Seq<VariableLayout>,
    i: int,
)
    requires
        0 <= i < strategies.len(),
        is_missing(strategies[i], schema),
    ensures
        !none_missing(strategies, schema),
        exists|k: int| first_missing(strategies, schema, k) && k <= i,
    decreases i,
{
    if exists|j: int| 0 <= j < i && is_missing(strategies[j], schema) {
        let j = choose|j: int| 0 <= j < i && is_missing(strategies[j], schema);
        lemma_required_absent_fails(strategies, schema, j);
    } else {
        assert(first_missing(strategies, schema, i));
    }
}

/// An optional field whose variable the schema lacks is none in every
/// decoded frame, and never a fault.
pub proof fn lemma_optional_absent_is_none(
    strategies: Seq<StrategySpec>,
    schema: Seq<VariableLayout>,
    data: Seq<u8>,
    i: int,
)
    requires
        0 <= i < strategies.len(),
        strategies[i] matches StrategySpec::Optional { field_name, .. } && !has_name(
            schema,
            field_name,
        ),
    ensures
        field_ready(strategies[i], plan_entry(spec_plan(strategies, schema), i), data),
        spec_adapt(strategies, spec_plan(strategies, schema), data)[i] == FieldValue::Absent,
{
}

/// Whether a variable of the given layout reads as the type `ty` in every
/// frame of at least `frame_size` bytes: it is of that type and lies within
/// those bytes.
pub open spec fn reads_in_frame(info: VariableLayout, ty: Option<VariableType>, frame_size: nat) -> bool {
    match ty {
        Some(t) => info.data_type == t && info.offset + t.spec_size() <= frame_size,
        None => false,
    }
}

/// Whether a field that has to be read can be read in every frame of at
/// least `frame_size` bytes.
pub open spec fn field_fits(s: StrategySpec, entry: Option<FieldSpec>, frame_size: nat) -> bool {
    match s {
        StrategySpec::Critical { field_type, .. } => match entry {
            Some(FieldSpec::Required { var_info, .. }) => reads_in_frame(
                var_info,
                field_type.wire,
                frame_size,
            ),
            _ => false,
        },
        StrategySpec::BitfieldHas { target_is_option, .. } => match entry {
            Some(FieldSpec::Required { var_info, .. }) => target_is_option || reads_in_frame(
                var_info,
                Some(VariableType::BitField),
                frame_size,
            ),
            _ => true,
        },
        StrategySpec::BitfieldMap { target_is_option, .. } => match entry {
            Some(FieldSpec::Required { var_info, .. }) => target_is_option || reads_in_frame(
                var_info,
                Some(VariableType::BitField),
                frame_size,
            ),
            _ => true,
        },
        _ => true,
    }
}

/// Whether a plan fits the frames of a source: every field that has to be
/// read can be read in every frame of at least `frame_size` bytes.
pub open spec fn plan_fits(strategies: Seq<StrategySpec>, plan: Seq<FieldSpec>, frame_size: nat) -> bool {
    forall|i: int|
        0 <= i < strategies.len() ==> field_fits(
            #[trigger] strategies[i],
            plan_entry(plan, i),
            frame_size,
        )
}

/// Whether a variable reads as a type in every frame of a size.
fn info_reads_in_frame(info: &RawVariableInfo, ty: Option<VariableType>, frame_size: usize) -> (r:
    bool)
    ensures
        r == reads_in_frame(info@, ty, frame_size as nat),
{
    match ty {
        Some(t) => info.data_type == t && info.offset <= frame_size && frame_size - info.offset
            >= t.size(),
        None => false,
    }
}

impl FrameLayout {
    /// Whether the plan fits the frames of a source whose frames have
    /// `frame_size` bytes. The test is made once per subscription; where it
    /// holds, every frame of the source can be decoded without a fault.
    pub fn fits(&self, validation: &AdapterValidation, frame_size: usize) -> (r: bool)
        ensures
            r == plan_fits(self@, validation@, frame_size as nat),
    {
        let mut i: usize = 0;
        while i < self.strategies.len()
            invariant
                i <= self.strategies@.len(),
                forall|j: int|
                    0 <= j < i ==> field_fits(
                        #[trigger] self@[j],
                        plan_entry(validation@, j),
                        frame_size as nat,
                    ),
            decreases self.strategies@.len() - i,
        {
            assert(self@[i as int] == self.strategies@[i as int]@);
            let entry = validation.get(i);
            let ok = match &self.strategies[i] {
                FieldStrategy::Critical { field_type, .. } => match entry {
                    Some(FieldExtraction::Required { var_info, .. }) => info_reads_in_frame(
                        var_info,
                        field_type.wire,
                        frame_size,
                    ),
                    _ => false,
                },
                FieldStrategy::BitfieldHas { target_is_option, .. } => match entry {
                    Some(FieldExtraction::Required { var_info, .. }) => *target_is_option
                        || info_reads_in_frame(var_info, Some(VariableType::BitField), frame_size),
                    _ => true,
                },
                FieldStrategy::BitfieldMap { target_is_option, .. } => match entry {
                    Some(FieldExtraction::Required { var_info, .. }) => *target_is_option
                        || info_reads_in_frame(var_info, Some(VariableType::BitField), frame_size),
                    _ => true,
                },
                _ => true,
            };
            assert(ok == field_fits(
                self@[i as int],
                plan_entry(validation@, i as int),
                frame_size as nat,
            ));
            if !ok {
                return false;
            }
            i += 1;
        }
        true
    }
}

/// Validation proves the decode: a plan that fits the frames of a source
/// decodes every frame of that source without a fault. What a required
/// field needs is settled once, at subscription, and not again per frame.
pub proof fn lemma_fitting_plan_is_ready(
    strategies: Seq<StrategySpec>,
    plan: Seq<FieldSpec>,
    frame_size: nat,
    data: Seq<u8>,
)
    requires
        plan_fits(strategies, plan, frame_size),
        data.len() >= frame_size,
    ensures
        ready(strategies, plan, data),
{
    assert forall|i: int| 0 <= i < strategies.len() implies field_ready(
        #[trigger] strategies[i],
        plan_entry(plan, i),
        data,
    ) by {
        assert(field_fits(strategies[i], plan_entry(plan, i), frame_size));
    }
}

/// The telemetry variable and the type that a strategy reads it as, for
/// the strategies that calculated fields can refer to.
pub open spec fn mapped_type(s: StrategySpec) -> Option<(Seq<char>, TypeSpec)> {
    match s {
        StrategySpec::TypeDefault { field_name, field_type, .. } => Some((field_name, field_type)),
        StrategySpec::WithDefault { field_name, field_type, .. } => Some((field_name, field_type)),
        StrategySpec::Critical { field_name, field_type, .. } => Some((field_name, field_type)),
        StrategySpec::Optional { field_name, inner_type, .. } => Some((field_name, inner_type)),
        _ => None,
    }
}

/// The type that the layout reads the variable `name` as: that of the last
/// field that reads it.
pub open spec fn spec_telemetry_type(strategies: Seq<StrategySpec>, name: Seq<char>) -> Option<
    TypeSpec,
>
    decreases strategies.len(),
{
    if strategies.len() == 0 {
        None
    } else {
        match mapped_type(strategies.last()) {
            Some((n, t)) if n == name => Some(t),
            _ => spec_telemetry_type(strategies.drop_last(), name),
        }
    }
}

/// The type of an input of a calculated field: the type that the layout
/// reads the variable as, or else the type of the calculated field.
pub open spec fn spec_input_type(
    strategies: Seq<StrategySpec>,
    name: Seq<char>,
    fallback: TypeSpec,
) -> TypeSpec {
    match spec_telemetry_type(strategies, name) {
        Some(t) => t,
        None => fallback,
    }
}

/// The value of an input of a calculated field in a frame; none where the
/// type of the input is not one that is read from a frame.
pub open spec fn spec_calculated_input(
    strategies: Seq<StrategySpec>,
    plan: Seq<FieldSpec>,
    data: Seq<u8>,
    name: Seq<char>,
    fallback: TypeSpec,
) -> Option<VarValue> {
    match spec_input_type(strategies, name, fallback).wire {
        Some(w) => Some(spec_fetch_or_default(plan, data, name, w)),
        None => None,
    }
}

impl FrameLayout {
    /// The type that the layout reads the variable `name` as.
    pub fn telemetry_type(&self, name: &str) -> (r: Option<&DeclaredType>)
        ensures
            match r {
                Some(t) => spec_telemetry_type(self@, name@) == Some(t@),
                None => spec_telemetry_type(self@, name@) is None,
            },
    {
        let mut i: usize = self.strategies.len();
        assert(self@.take(i as int) =~= self@);
        while i > 0
            invariant
                i <= self.strategies@.len(),
                spec_telemetry_type(self@, name@) == spec_telemetry_type(
                    self@.take(i as int),
                    name@,
                ),
            decreases i,
        {
            proof {
                assert(self@.take(i as int).drop_last() =~= self@.take(i - 1));
                assert(self@.take(i as int).last() == self.strategies@[i - 1]@);
            }
            let found: Option<(&String, &DeclaredType)> = match &self.strategies[i - 1] {
                FieldStrategy::TypeDefault { field_name, field_type, .. } => Some(
                    (field_name, field_type),
                ),
                FieldStrategy::WithDefault { field_name, field_type, .. } => Some(
                    (field_name, field_type),
                ),
                FieldStrategy::Critical { field_name, field_type, .. } => Some(
                    (field_name, field_type),
                ),
                FieldStrategy::Optional { field_name, inner_type, .. } => Some(
                    (field_name, inner_type),
                ),
                _ => None,
            };
            if let Some((n, t)) = found {
                if same_text(n.as_str(), name) {
                    return Some(t);
                }
            }
            i -= 1;
        }
        None
    }

    /// The value of the input `name` of a calculated field whose own type
    /// is `fallback`: read from the frame through the plan as the type that
    /// the layout gives the variable, with the default of that type where
    /// the frame does not give it.
    pub fn calculated_input(
        &self,
        packet: &FramePacket,
        validation: &AdapterValidation,
        name: &str,
        fallback: &DeclaredType,
    ) -> (r: Option<VarValue>)
        ensures
            r == spec_calculated_input(self@, validation@, packet.data@, name@, fallback@),
    {
        let ty = match self.telemetry_type(name) {
            Some(t) => t,
            None => fallback,
        };
        match ty.wire {
            Some(w) => Some(validation.fetch_or_default(packet.data.as_slice(), name, w)),
            None => None,
        }
    }
}

/// The contract between the engine and a consumer type, in two phases:
/// `validate_schema` once per subscription, `adapt` once per frame. An
/// adapter stands for one consumer type; `Frame` is what it decodes to.
///
/// What an adapter promises of its two phases it says in `validates`,
/// `can_decode` and `describes`. An adapter that says nothing promises
/// nothing: whatever it returns is in order, and it decodes every frame.
pub trait FrameAdapter {
    /// What a frame is decoded to.
    type Frame;

    /// Whether `r` is a result that validation may give on a schema with
    /// these layouts and names.
    open spec fn validates(
        &self,
        schema: Seq<VariableLayout>,
        names: Seq<Seq<char>>,
        r: Result<AdapterValidation, TelemetryError>,
    ) -> bool {
        true
    }

    /// Whether a frame can be decoded by the plan without a fault.
    open spec fn can_decode(&self, plan: Seq<FieldSpec>, data: Seq<u8>) -> bool {
        true
    }

    /// Whether `frame` is what the plan decodes the bytes to.
    open spec fn describes(&self, plan: Seq<FieldSpec>, data: Seq<u8>, frame: Self::Frame) -> bool {
        true
    }

    /// Phase one: resolves the fields of the consumer type against the
    /// schema, or fails where the schema cannot serve the type.
    fn validate_schema(&self, schema: &VariableSchema) -> (r: Result<
        AdapterValidation,
        TelemetryError,
    >)
        requires
            schema.wf(),
        ensures
            self.validates(schema.layouts(), schema.names(), r),
    ;

    /// Whether `adapt` can decode the packet by the plan.
    fn can_adapt(&self, packet: &FramePacket, validation: &AdapterValidation) -> (r: bool)
        ensures
            r == self.can_decode(validation@, packet.data@),
    ;

    /// Phase two: decodes one frame by the plan.
    fn adapt(&self, packet: &FramePacket, validation: &AdapterValidation) -> (r: Self::Frame)
        requires
            self.can_decode(validation@, packet.data@),
        ensures
            self.describes(validation@, packet.data@, r),
    ;
}

impl FrameAdapter for FrameLayout {
    type Frame = Vec<FieldValue>;

    open spec fn validates(
        &self,
        schema: Seq<VariableLayout>,
        names: Seq<Seq<char>>,
        r: Result<AdapterValidation, TelemetryError>,
    ) -> bool {
        match r {
            Ok(v) => none_missing(self@, schema) && v@ == spec_plan(self@, schema),
            Err(TelemetryError::SchemaValidation { field, available }) => exists|i: int|
                first_missing(self@, schema, i) && Some(field@) == required_name(
                    #[trigger] self@[i],
                ) && available@.map_values(|s: String| s@) == names,
            Err(_) => false,
        }
    }

    open spec fn can_decode(&self, plan: Seq<FieldSpec>, data: Seq<u8>) -> bool {
        ready(self@, plan, data)
    }

    open spec fn describes(&self, plan: Seq<FieldSpec>, data: Seq<u8>, frame: Vec<FieldValue>) -> bool {
        frame@ == spec_adapt(self@, plan, data)
    }

    fn validate_schema(&self, schema: &VariableSchema) -> (r: Result<
        AdapterValidation,
        TelemetryError,
    >) {
        FrameLayout::validate_schema(self, schema)
    }

    fn can_adapt(&self, packet: &FramePacket, validation: &AdapterValidation) -> (r: bool) {
        FrameLayout::can_adapt(self, packet, validation)
    }

    fn adapt(&self, packet: &FramePacket, validation: &AdapterValidation) -> (r: Vec<FieldValue>) {
        FrameLayout::adapt(self, packet, validation)
    }
}

} // verus!
