//! Classification of a struct's or variant's fields into the error source,
//! the location field and the fields the caller supplies.

use vstd::prelude::*;

use crate::model::{FieldDef, has_attr, field_has_attr};
use crate::text::str_eq;

verus! {

/// A field is the error source when it is named `source`, or marked
/// `#[source]` or `#[stack_source]` (which implies `#[source]`).
pub open spec fn is_source_field(f: FieldDef) -> bool {
    f.name@ == "source"@ || has_attr(f, "source"@) || has_attr(f, "stack_source"@)
}

/// A field holds the caller location when it is marked `#[location]` and
/// is not the source.
pub open spec fn is_location_field(f: FieldDef) -> bool {
    !is_source_field(f) && has_attr(f, "location"@)
}

/// A field the caller supplies to a constructor: neither the source nor the
/// location.
pub open spec fn is_user_field(f: FieldDef) -> bool {
    !is_source_field(f) && !has_attr(f, "location"@)
}

/// Some field before index `i` is a source field.
pub open spec fn source_before(fs: Seq<FieldDef>, i: int) -> bool {
    exists|j: int| 0 <= j < i && #[trigger] is_source_field(fs[j])
}

/// Some field before index `i` is a location field.
pub open spec fn location_before(fs: Seq<FieldDef>, i: int) -> bool {
    exists|j: int| 0 <= j < i && #[trigger] is_location_field(fs[j])
}

/// The field at index `i` is a second source or a second location field.
pub open spec fn clashes_at(fs: Seq<FieldDef>, i: int) -> bool {
    ||| is_source_field(fs[i]) && source_before(fs, i)
    ||| is_location_field(fs[i]) && location_before(fs, i)
}

/// No field is a second source or a second location field.
pub open spec fn no_clash(fs: Seq<FieldDef>) -> bool {
    forall|i: int| 0 <= i < fs.len() ==> !#[trigger] clashes_at(fs, i)
}

/// The indices of the caller-supplied fields among the first `n` fields,
/// in order.
pub open spec fn user_indices(fs: Seq<FieldDef>, n: nat) -> Seq<usize>
    decreases n,
{
    if n == 0 {
        Seq::empty()
    } else if is_user_field(fs[n - 1]) {
        user_indices(fs, (n - 1) as nat).push((n - 1) as usize)
    } else {
        user_indices(fs, (n - 1) as nat)
    }
}

/// The index of the source field, if some field is one (without a clash,
/// at most one is).
pub open spec fn source_index(fs: Seq<FieldDef>) -> Option<usize> {
    if exists|i: int| 0 <= i < fs.len() && #[trigger] is_source_field(fs[i]) {
        Some((choose|i: int| 0 <= i < fs.len() && #[trigger] is_source_field(fs[i])) as usize)
    } else {
        None
    }
}

/// The index of the location field, if some field is one (without a clash,
/// at most one is).
pub open spec fn location_index(fs: Seq<FieldDef>) -> Option<usize> {
    if exists|i: int| 0 <= i < fs.len() && #[trigger] is_location_field(fs[i]) {
        Some((choose|i: int| 0 <= i < fs.len() && #[trigger] is_location_field(fs[i])) as usize)
    } else {
        None
    }
}

/// Whether the source field is marked `#[stack_source]`.
pub open spec fn stack_flag(fs: Seq<FieldDef>) -> bool {
    source_index(fs) matches Some(k) && has_attr(fs[k as int], "stack_source"@)
}

/// The first field that is a second source or a second location field.
pub open spec fn first_clash(fs: Seq<FieldDef>) -> int {
    choose|i: int| 0 <= i < fs.len() && clashes_at(fs, i) && forall|j: int| 0 <= j < i ==> !#[trigger] clashes_at(fs, j)
}

/// The roles of the fields: the source's index, the location field's
/// index, whether the source is a stack source, and the indices of the
/// caller-supplied fields.
pub type Roles = (Option<usize>, Option<usize>, bool, Seq<usize>);

/// The outcome of classifying the fields `fs`: the first clash, as the
/// error it raises, or the roles of the fields (source, location,
/// whether the source is a stack source, caller-supplied fields).
pub open spec fn classification(fs: Seq<FieldDef>) -> Result<Roles, FieldsError> {
    if no_clash(fs) {
        Ok((source_index(fs), location_index(fs), stack_flag(fs), user_indices(fs, fs.len())))
    } else if is_source_field(fs[first_clash(fs)]) {
        Err(FieldsError::MultipleSources(first_clash(fs) as usize))
    } else {
        Err(FieldsError::MultipleLocations(first_clash(fs) as usize))
    }
}

/// The roles of the fields of a struct or variant.
#[derive(Clone, Debug, PartialEq, Eq)]
pub struct ParsedFields {
    /// The index of the source field, if any.
    pub source: Option<usize>,
    /// The index of the location field, if any.
    pub location: Option<usize>,
    /// Whether the source is marked `#[stack_source]`.
    pub stack_source: bool,
    /// The indices of the caller-supplied fields, in order.
    pub user_fields: Vec<usize>,
}

impl View for ParsedFields {
    type V = Roles;

    open spec fn view(&self) -> Roles {
        (self.source, self.location, self.stack_source, self.user_fields@)
    }
}

/// Why the fields cannot be classified: the index of the second source or
/// the second location field.
#[derive(Clone, Copy, Debug, PartialEq, Eq, Structural)]
pub enum FieldsError {
    MultipleSources(usize),
    MultipleLocations(usize),
}

/// Whether a field is a source field.
pub fn field_is_source(f: &FieldDef) -> (res: bool)
    ensures
        res == is_source_field(*f),
{
    str_eq(f.name.as_str(), "source") || field_has_attr(f, "source") || field_has_attr(f, "stack_source")
}

/// Classifies the fields of a struct or variant, scanning them in order:
/// the first field that is a second source or a second location field is
/// an error; otherwise each field gets its role.
pub fn parse_fields(fields: &Vec<FieldDef>) -> (res: Result<ParsedFields, FieldsError>)
    ensures
        match res {
            Ok(p) => classification(fields@) == Ok::<Roles, FieldsError>(p@),
            Err(e) => classification(fields@) == Err::<Roles, FieldsError>(e),
        },
{
    let ghost fs = fields@;
    let mut source: Option<usize> = None;
    let mut location: Option<usize> = None;
    let mut stack_source = false;
    let mut user_fields: Vec<usize> = Vec::new();
    let mut i: usize = 0;
    while i < fields.len()
        invariant
            i <= fs.len(),
            fs == fields@,
            forall|j: int| 0 <= j < i ==> !#[trigger] clashes_at(fs, j),
            match source {
                Some(k) => k < i && is_source_field(fs[k as int]),
                None => true,
            },
            forall|j: int| 0 <= j < i && #[trigger] is_source_field(fs[j]) ==> source == Some(j as usize),
            match location {
                Some(k) => k < i && is_location_field(fs[k as int]),
                None => true,
            },
            forall|j: int| 0 <= j < i && #[trigger] is_location_field(fs[j]) ==> location == Some(j as usize),
            stack_source == (source matches Some(k) && has_attr(fs[k as int], "stack_source"@)),
            user_fields@ == user_indices(fs, i as nat),
        decreases fs.len() - i,
    {
        let field = &fields[i];
        let is_source = field_is_source(field);
        let is_stack = field_has_attr(field, "stack_source");
        let is_location = field_has_attr(field, "location");
        if is_source {
            if source.is_some() {
                assert(source_before(fs, i as int)) by {
                    let k = source.unwrap() as int;
                    assert(is_source_field(fs[k]));
                }
                assert(clashes_at(fs, i as int));
                proof { lemma_first_clash_is(fs, i as int); }
                return Err(FieldsError::MultipleSources(i));
            }
            assert(!source_before(fs, i as int));
            source = Some(i);
            if is_stack {
                stack_source = true;
            }
        } else if is_location {
            if location.is_some() {
                assert(location_before(fs, i as int)) by {
                    let k = location.unwrap() as int;
                    assert(is_location_field(fs[k]));
                }
                assert(clashes_at(fs, i as int));
                proof { lemma_first_clash_is(fs, i as int); }
                return Err(FieldsError::MultipleLocations(i));
            }
            assert(!location_before(fs, i as int));
            location = Some(i);
        } else {
            user_fields.push(i);
        }
        assert(!clashes_at(fs, i as int));
        assert(user_fields@ == user_indices(fs, (i + 1) as nat));
        i = i + 1;
    }
    assert(no_clash(fs));
    assert(source_index(fs) == source) by {
        if exists|j: int| 0 <= j < fs.len() && #[trigger] is_source_field(fs[j]) {
            let c = choose|j: int| 0 <= j < fs.len() && #[trigger] is_source_field(fs[j]);
            assert(source == Some(c as usize));
        }
    }
    assert(location_index(fs) == location) by {
        if exists|j: int| 0 <= j < fs.len() && #[trigger] is_location_field(fs[j]) {
            let c = choose|j: int| 0 <= j < fs.len() && #[trigger] is_location_field(fs[j]);
            assert(location == Some(c as usize));
        }
    }
    Ok(ParsedFields { source, location, stack_source, user_fields })
}

/// The first clash is the clash with no clash before it.
proof fn lemma_first_clash_is(fs: Seq<FieldDef>, i: int)
    requires
        0 <= i < fs.len(),
        clashes_at(fs, i),
        forall|j: int| 0 <= j < i ==> !#[trigger] clashes_at(fs, j),
    ensures
        first_clash(fs) == i,
        !no_clash(fs),
{
    let c = first_clash(fs);
    assert(0 <= c < fs.len() && clashes_at(fs, c) && forall|j: int| 0 <= j < c ==> !#[trigger] clashes_at(fs, j));
    if c < i {
        assert(!clashes_at(fs, c));
    } else if c > i {
        assert(!clashes_at(fs, i));
    }
}

} // verus!
