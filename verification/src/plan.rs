//! What the derive generates for one struct or variant: its constructors,
//! the field its `location` reads and the link its `stack_source` follows.

use vstd::prelude::*;

use crate::fields::{ParsedFields, Roles};
use crate::model::{FieldDef, option_inner, type_option_inner};

verus! {

/// How a constructor fills the source field.
#[derive(Clone, Copy, Debug, PartialEq, Eq, Structural)]
pub enum SourceFill {
    /// There is no source field.
    Absent,
    /// The constructor returns a closure that takes the source (the field
    /// at the index).
    Taken(usize),
    /// The optional source field is set to `None`.
    Empty(usize),
    /// The constructor returns a closure that takes the inner value of the
    /// optional source field and wraps it in `Some`.
    Wrapped(usize),
}

/// One generated constructor: its name and how it fills the source. Every
/// constructor takes the caller-supplied fields as parameters, in order,
/// and stores the caller's location in the location field, if any.
#[derive(Clone, Debug, PartialEq, Eq)]
pub struct ConstructorPlan {
    pub name: String,
    pub source: SourceFill,
}

impl View for ConstructorPlan {
    type V = (Seq<char>, SourceFill);

    open spec fn view(&self) -> (Seq<char>, SourceFill) {
        (self.name@, self.source)
    }
}

/// What `stack_source` returns.
#[derive(Clone, Copy, Debug, PartialEq, Eq, Structural)]
pub enum StackLink {
    /// Always `None`.
    Unlinked,
    /// The source field, as an `ErrorStack`.
    Direct(usize),
    /// The optional source field's content, as an `ErrorStack`, if present.
    Optional(usize),
}

/// The generated items for one struct or variant.
#[derive(Clone, Debug, PartialEq, Eq)]
pub struct FieldsPlan {
    /// The constructors, in the order they are generated.
    pub constructors: Vec<ConstructorPlan>,
    /// The field whose value `location` returns; `None` where `location`
    /// returns `None`.
    pub location: Option<usize>,
    /// What `stack_source` returns.
    pub stack: StackLink,
}

/// The source field is of type `Option<T>`.
pub open spec fn source_is_optional(fs: Seq<FieldDef>, source: Option<usize>) -> bool {
    source matches Some(k) && option_inner(fs[k as int].ty) is Some
}

/// The constructors for fields whose source is `source`, the first named
/// `method`:
/// one that takes the source through a closure where there is a plain
/// source; for an optional source, one that leaves it `None` and one named
/// `method` followed by `_with` that takes it through a closure; otherwise
/// one without a source.
pub open spec fn planned_constructors(fs: Seq<FieldDef>, source: Option<usize>, method: Seq<char>) -> Seq<
    (Seq<char>, SourceFill),
> {
    match source {
        None => seq![(method, SourceFill::Absent)],
        Some(k) => if source_is_optional(fs, source) {
            seq![(method, SourceFill::Empty(k)), (method + "_with"@, SourceFill::Wrapped(k))]
        } else {
            seq![(method, SourceFill::Taken(k))]
        },
    }
}

/// What `stack_source` follows for fields whose source is `source`: the
/// source where it is marked `#[stack_source]`, nothing otherwise.
pub open spec fn planned_stack(fs: Seq<FieldDef>, source: Option<usize>, stack_source: bool) -> StackLink {
    match source {
        Some(k) => if stack_source {
            if source_is_optional(fs, source) {
                StackLink::Optional(k)
            } else {
                StackLink::Direct(k)
            }
        } else {
            StackLink::Unlinked
        },
        None => StackLink::Unlinked,
    }
}

/// The constructors of a plan, each as its name and source fill.
pub open spec fn constructor_views(plan: FieldsPlan) -> Seq<(Seq<char>, SourceFill)> {
    plan.constructors@.map_values(|c: ConstructorPlan| c@)
}

/// `plan` is what the derive generates for fields `fs` with roles `roles`,
/// with `method` naming the first constructor.
pub open spec fn plans(fs: Seq<FieldDef>, roles: Roles, method: Seq<char>, plan: FieldsPlan) -> bool {
    &&& constructor_views(plan) == planned_constructors(fs, roles.0, method)
    &&& plan.location == roles.1
    &&& plan.stack == planned_stack(fs, roles.0, roles.2)
}

/// Plans the items generated for fields `fields` classified as `parsed`,
/// the first constructor being named `method`.
pub fn plan_fields(fields: &Vec<FieldDef>, parsed: &ParsedFields, method: String) -> (plan: FieldsPlan)
    requires
        parsed.source matches Some(k) ==> k < fields@.len(),
    ensures
        plans(fields@, parsed@, method@, plan),
{
    let mut constructors: Vec<ConstructorPlan> = Vec::new();
    let stack;
    match parsed.source {
        None => {
            constructors.push(ConstructorPlan { name: method, source: SourceFill::Absent });
            stack = StackLink::Unlinked;
        },
        Some(k) => {
            let optional = type_option_inner(&fields[k].ty).is_some();
            if optional {
                let mut with_name = method.clone();
                with_name.append("_with");
                constructors.push(ConstructorPlan { name: method, source: SourceFill::Empty(k) });
                constructors.push(ConstructorPlan { name: with_name, source: SourceFill::Wrapped(k) });
            } else {
                constructors.push(ConstructorPlan { name: method, source: SourceFill::Taken(k) });
            }
            stack = if parsed.stack_source {
                if optional {
                    StackLink::Optional(k)
                } else {
                    StackLink::Direct(k)
                }
            } else {
                StackLink::Unlinked
            };
        },
    }
    let plan = FieldsPlan { constructors, location: parsed.location, stack };
    assert(constructor_views(plan) =~= planned_constructors(fields@, parsed.source, method@));
    plan
}

} // verus!
