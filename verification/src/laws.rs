//! Properties of the derive and of reports that hold for every input.

use vstd::prelude::*;

use crate::derive::{Failure, enum_parts, expansion, variant_parts};
use crate::fields::{
    FieldsError, classification, first_clash, is_location_field, is_source_field, is_user_field,
    location_index, no_clash, source_index, stack_flag, user_indices, clashes_at, source_before,
    location_before,
};
use crate::model::{FieldDef, FieldsDef, ItemDef, VariantDef, has_attr};
use crate::naming::heck_snake_case;
use crate::plan::{SourceFill, StackLink, planned_constructors, planned_stack, source_is_optional};
use crate::report::{Entry, causes_header, causes_text, chain_entries_hold, head_at_text, report_text};

verus! {

/// `us` lists exactly the indices of the caller-supplied fields of `fs`,
/// in increasing order.
pub open spec fn lists_user_fields(fs: Seq<FieldDef>, us: Seq<usize>) -> bool {
    &&& forall|k: int| 0 <= k < us.len() ==> #[trigger] us[k] < fs.len() && is_user_field(fs[us[k] as int])
    &&& forall|k1: int, k2: int| 0 <= k1 < k2 < us.len() ==> #[trigger] us[k1] < #[trigger] us[k2]
    &&& forall|j: int|
        0 <= j < fs.len() && #[trigger] is_user_field(fs[j]) ==> exists|k: int|
            0 <= k < us.len() && #[trigger] us[k] == j
}

/// A field marked `#[stack_source]` is the error source: the attribute
/// implies `#[source]`.
pub proof fn law_stack_source_implies_source(f: FieldDef)
    ensures
        has_attr(f, "stack_source"@) ==> is_source_field(f),
{
}

/// A field named `source` is the error source without any attribute, and
/// is never a caller-supplied field nor the location field.
pub proof fn law_source_by_name(f: FieldDef)
    ensures
        f.name@ == "source"@ ==> is_source_field(f) && !is_user_field(f) && !is_location_field(f),
{
}

proof fn lemma_user_indices_list(fs: Seq<FieldDef>, n: nat)
    requires
        n <= fs.len(),
        n <= usize::MAX,
    ensures
        forall|k: int|
            0 <= k < user_indices(fs, n).len() ==> #[trigger] user_indices(fs, n)[k] < n
                && is_user_field(fs[user_indices(fs, n)[k] as int]),
        forall|k1: int, k2: int|
            0 <= k1 < k2 < user_indices(fs, n).len() ==> #[trigger] user_indices(fs, n)[k1]
                < #[trigger] user_indices(fs, n)[k2],
        forall|j: int|
            0 <= j < n && #[trigger] is_user_field(fs[j]) ==> exists|k: int|
                0 <= k < user_indices(fs, n).len() && #[trigger] user_indices(fs, n)[k] == j,
    decreases n,
{
    if n > 0 {
        let m = (n - 1) as nat;
        lemma_user_indices_list(fs, m);
        let prev = user_indices(fs, m);
        let cur = user_indices(fs, n);
        if is_user_field(fs[m as int]) {
            assert(cur == prev.push(m as usize));
            assert forall|k: int| 0 <= k < cur.len() implies #[trigger] cur[k] < n && is_user_field(
                fs[cur[k] as int],
            ) by {
                if k < prev.len() {
                    assert(cur[k] == prev[k]);
                }
            }
            assert forall|k1: int, k2: int| 0 <= k1 < k2 < cur.len() implies #[trigger] cur[k1]
                < #[trigger] cur[k2] by {
                assert(cur[k1] == prev[k1]);
                if k2 < prev.len() {
                    assert(cur[k2] == prev[k2]);
                }
            }
            assert forall|j: int| 0 <= j < n && #[trigger] is_user_field(fs[j]) implies exists|k: int|
                0 <= k < cur.len() && #[trigger] cur[k] == j by {
                if j == m {
                    assert(cur[prev.len() as int] == j);
                } else {
                    let k = choose|k: int| 0 <= k < prev.len() && #[trigger] prev[k] == j;
                    assert(cur[k] == j);
                }
            }
        } else {
            assert(cur == prev);
        }
    }
}

/// The constructors take exactly the fields that are neither the source
/// nor the location field, as parameters, in declaration order.
pub proof fn law_parameters_are_user_fields(fs: Seq<FieldDef>)
    requires
        fs.len() <= usize::MAX,
    ensures
        lists_user_fields(fs, user_indices(fs, fs.len())),
{
    lemma_user_indices_list(fs, fs.len());
}

/// Fields that the derive accepts have at most one source and at most one
/// location field, and the roles found are those fields.
pub proof fn law_single_source_and_location(fs: Seq<FieldDef>)
    requires
        no_clash(fs),
        fs.len() <= usize::MAX,
    ensures
        forall|i: int, j: int|
            0 <= i < fs.len() && 0 <= j < fs.len() && #[trigger] is_source_field(fs[i])
                && #[trigger] is_source_field(fs[j]) ==> i == j,
        forall|i: int, j: int|
            0 <= i < fs.len() && 0 <= j < fs.len() && #[trigger] is_location_field(fs[i])
                && #[trigger] is_location_field(fs[j]) ==> i == j,
        source_index(fs) matches Some(k) ==> is_source_field(fs[k as int]),
        source_index(fs) is None ==> forall|i: int| 0 <= i < fs.len() ==> !#[trigger] is_source_field(fs[i]),
        location_index(fs) matches Some(k) ==> is_location_field(fs[k as int]),
        location_index(fs) is None ==> forall|i: int|
            0 <= i < fs.len() ==> !#[trigger] is_location_field(fs[i]),
{
    assert forall|i: int, j: int|
        0 <= i < fs.len() && 0 <= j < fs.len() && #[trigger] is_source_field(fs[i])
            && #[trigger] is_source_field(fs[j]) implies i == j by {
        if i < j {
            assert(source_before(fs, j));
            assert(!clashes_at(fs, j));
        } else if j < i {
            assert(source_before(fs, i));
            assert(!clashes_at(fs, i));
        }
    }
    assert forall|i: int, j: int|
        0 <= i < fs.len() && 0 <= j < fs.len() && #[trigger] is_location_field(fs[i])
            && #[trigger] is_location_field(fs[j]) implies i == j by {
        if i < j {
            assert(location_before(fs, j));
            assert(!clashes_at(fs, j));
        } else if j < i {
            assert(location_before(fs, i));
            assert(!clashes_at(fs, i));
        }
    }
}

/// A plain source yields one constructor that takes the source through the
/// returned closure; an optional source yields two, the first leaving the
/// source `None` and the second, named with a `_with` suffix, taking it
/// through the returned closure; without a source there is one
/// constructor. Every constructor fills the same source field.
pub proof fn law_constructors(fs: Seq<FieldDef>, source: Option<usize>, method: Seq<char>)
    ensures
        planned_constructors(fs, source, method).len() == if source_is_optional(fs, source) {
            2int
        } else {
            1int
        },
        planned_constructors(fs, source, method)[0].0 == method,
        source is None ==> planned_constructors(fs, source, method)[0].1 == SourceFill::Absent,
        source matches Some(k) ==> (!source_is_optional(fs, source) ==> planned_constructors(
            fs,
            source,
            method,
        )[0].1 == SourceFill::Taken(k)),
        source matches Some(k) ==> source_is_optional(fs, source) ==> {
            &&& planned_constructors(fs, source, method)[0].1 == SourceFill::Empty(k)
            &&& planned_constructors(fs, source, method)[1].0 == method + "_with"@
            &&& planned_constructors(fs, source, method)[1].1 == SourceFill::Wrapped(k)
        },
{
}

/// `stack_source` follows a link exactly when the source is marked
/// `#[stack_source]`, and then it follows the source field.
pub proof fn law_stack_link(fs: Seq<FieldDef>)
    ensures
        (planned_stack(fs, source_index(fs), stack_flag(fs)) != StackLink::Unlinked) <==> stack_flag(fs),
        stack_flag(fs) ==> match planned_stack(fs, source_index(fs), stack_flag(fs)) {
            StackLink::Direct(k) => source_index(fs) == Some(k),
            StackLink::Optional(k) => source_index(fs) == Some(k) && option_is_some(fs, k),
            StackLink::Unlinked => false,
        },
{
}

/// The field at `k` has an `Option` type.
pub open spec fn option_is_some(fs: Seq<FieldDef>, k: usize) -> bool {
    crate::model::option_inner(fs[k as int].ty) is Some
}

/// A report renders as its outermost error first; with one cause the
/// header is singular, with more it is plural, and without causes there is
/// no header; the causes follow, numbered from 1.
pub proof fn law_report_layout(es: Seq<Entry>)
    ensures
        es.len() == 0 ==> report_text(es) == Seq::<char>::empty(),
        es.len() == 1 ==> report_text(es) == "Error: "@ + es[0].message_text() + head_at_text(es[0].location_of()),
        es.len() >= 2 ==> report_text(es) == "Error: "@ + es[0].message_text() + head_at_text(es[0].location_of())
            + causes_header((es.len() - 1) as nat) + causes_text(es, (es.len() - 1) as nat),
        causes_header(1) == "\n\nCaused by this error:"@,
        forall|n: nat| n >= 2 ==> #[trigger] causes_header(n) == "\n\nCaused by these errors (recent errors listed first):"@,
{
    if es.len() == 1 {
        assert(report_text(es) =~= "Error: "@ + es[0].message_text() + head_at_text(es[0].location_of()));
    }
}

/// How many of the first `n` fields are source fields.
pub open spec fn source_count(fs: Seq<FieldDef>, n: nat) -> nat
    decreases n,
{
    if n == 0 {
        0
    } else {
        source_count(fs, (n - 1) as nat) + if is_source_field(fs[n - 1]) {
            1nat
        } else {
            0nat
        }
    }
}

/// How many of the first `n` fields are location fields.
pub open spec fn location_count(fs: Seq<FieldDef>, n: nat) -> nat
    decreases n,
{
    if n == 0 {
        0
    } else {
        location_count(fs, (n - 1) as nat) + if is_location_field(fs[n - 1]) {
            1nat
        } else {
            0nat
        }
    }
}

proof fn lemma_counts(fs: Seq<FieldDef>, n: nat)
    requires
        n <= fs.len(),
    ensures
        forall|i: int| 0 <= i <= n ==> (#[trigger] source_count(fs, i as nat) > 0 <==> source_before(fs, i)),
        forall|i: int| 0 <= i <= n ==> (#[trigger] location_count(fs, i as nat) > 0 <==> location_before(fs, i)),
        (forall|i: int| 0 <= i < n ==> !#[trigger] clashes_at(fs, i)) <==> (source_count(fs, n) <= 1
            && location_count(fs, n) <= 1),
    decreases n,
{
    if n > 0 {
        let m = (n - 1) as nat;
        lemma_counts(fs, m);
        assert forall|i: int| 0 <= i <= n implies (#[trigger] source_count(fs, i as nat) > 0 <==> source_before(fs, i)) by {
            if i == n {
                if is_source_field(fs[m as int]) {
                    assert(source_before(fs, i)) by {
                        assert(is_source_field(fs[m as int]));
                    }
                } else if source_before(fs, i) {
                    let j = choose|j: int| 0 <= j < i && #[trigger] is_source_field(fs[j]);
                    assert(source_before(fs, m as int));
                } else {
                    assert(!source_before(fs, m as int));
                }
            }
        }
        assert forall|i: int| 0 <= i <= n implies (#[trigger] location_count(fs, i as nat) > 0 <==> location_before(fs, i)) by {
            if i == n {
                if is_location_field(fs[m as int]) {
                    assert(location_before(fs, i)) by {
                        assert(is_location_field(fs[m as int]));
                    }
                } else if location_before(fs, i) {
                    let j = choose|j: int| 0 <= j < i && #[trigger] is_location_field(fs[j]);
                    assert(location_before(fs, m as int));
                } else {
                    assert(!location_before(fs, m as int));
                }
            }
        }
        assert(source_count(fs, m as nat) > 0 <==> source_before(fs, m as int));
        assert(location_count(fs, m as nat) > 0 <==> location_before(fs, m as int));
        if forall|i: int| 0 <= i < n ==> !#[trigger] clashes_at(fs, i) {
            assert(forall|i: int| 0 <= i < m ==> !#[trigger] clashes_at(fs, i));
            assert(!clashes_at(fs, m as int));
        } else {
            let i = choose|i: int| 0 <= i < n && #[trigger] clashes_at(fs, i);
            if i < m {
                assert(!(forall|i: int| 0 <= i < m ==> !#[trigger] clashes_at(fs, i)));
            } else {
                assert(clashes_at(fs, m as int));
            }
        }
    }
}

proof fn lemma_first_clash_exists(fs: Seq<FieldDef>, i: int)
    requires
        0 <= i <= fs.len(),
        forall|j: int| 0 <= j < i ==> !#[trigger] clashes_at(fs, j),
        exists|j: int| i <= j < fs.len() && #[trigger] clashes_at(fs, j),
    ensures
        exists|c: int|
            0 <= c < fs.len() && clashes_at(fs, c) && forall|j: int| 0 <= j < c ==> !#[trigger] clashes_at(fs, j),
    decreases fs.len() - i,
{
    if clashes_at(fs, i) {
        assert(0 <= i < fs.len());
    } else {
        let j = choose|j: int| i <= j < fs.len() && #[trigger] clashes_at(fs, j);
        assert(j != i);
        lemma_first_clash_exists(fs, i + 1);
    }
}

/// Classifying fields fails exactly when some role is taken by two fields:
/// two source fields, or two location fields. The error names the first
/// field, in declaration order, that brings a role's count to two, and its
/// kind is that role's.
pub proof fn law_clash_counts(fs: Seq<FieldDef>)
    requires
        fs.len() <= usize::MAX,
    ensures
        classification(fs) is Err <==> (source_count(fs, fs.len()) >= 2 || location_count(fs, fs.len()) >= 2),
        classification(fs) matches Err(e) ==> {
            let i = match e {
                FieldsError::MultipleSources(i) => i as int,
                FieldsError::MultipleLocations(i) => i as int,
            };
            &&& 0 <= i < fs.len()
            &&& forall|j: int|
                0 <= j < i ==> #[trigger] source_count(fs, (j + 1) as nat) <= 1 && location_count(fs, (j + 1) as nat) <= 1
            &&& e is MultipleSources ==> source_count(fs, (i + 1) as nat) == 2
            &&& e is MultipleLocations ==> location_count(fs, (i + 1) as nat) == 2
        },
{
    lemma_counts(fs, fs.len());
    if !no_clash(fs) {
        lemma_first_clash_exists(fs, 0);
        let c = first_clash(fs);
        assert(0 <= c < fs.len() && clashes_at(fs, c) && forall|j: int| 0 <= j < c ==> !#[trigger] clashes_at(fs, j));
        lemma_counts(fs, c as nat);
        assert forall|j: int| 0 <= j < c implies #[trigger] source_count(fs, (j + 1) as nat) <= 1 && location_count(
            fs,
            (j + 1) as nat,
        ) <= 1 by {
            lemma_counts(fs, (j + 1) as nat);
        }
        assert(source_count(fs, c as nat) <= 1 && location_count(fs, c as nat) <= 1);
        if is_source_field(fs[c]) {
            assert(source_before(fs, c));
            assert(source_count(fs, c as nat) > 0);
            assert(source_count(fs, (c + 1) as nat) == source_count(fs, c as nat) + 1);
            assert(classification(fs) == Err::<crate::fields::Roles, FieldsError>(
                FieldsError::MultipleSources(c as usize),
            ));
        } else {
            assert(is_location_field(fs[c]));
            assert(location_before(fs, c));
            assert(location_count(fs, c as nat) > 0);
            assert(location_count(fs, (c + 1) as nat) == location_count(fs, c as nat) + 1);
            assert(classification(fs) == Err::<crate::fields::Roles, FieldsError>(
                FieldsError::MultipleLocations(c as usize),
            ));
        }
    }
}

/// The fields of a struct or variant are accepted: they are named, with no
/// role taken twice.
pub open spec fn fields_accepted(f: FieldsDef) -> bool {
    f matches FieldsDef::Named(fs) && no_clash(fs@)
}

proof fn lemma_variant_parts_ok(v: VariantDef, index: usize, method: Seq<char>)
    ensures
        variant_parts(v, index, method) is Ok <==> fields_accepted(v.fields),
{
    reveal(variant_parts);
}

proof fn lemma_enum_parts_ok(vs: Seq<VariantDef>, n: nat)
    requires
        n <= vs.len(),
        vs.len() <= usize::MAX,
    ensures
        enum_parts(vs, n) is Ok <==> forall|i: int| 0 <= i < n ==> fields_accepted(#[trigger] vs[i].fields),
    decreases n,
{
    if n > 0 {
        lemma_enum_parts_ok(vs, (n - 1) as nat);
        lemma_variant_parts_ok(vs[n - 1], (n - 1) as usize, heck_snake_case(vs[n - 1].name@));
        if !fields_accepted(vs[n - 1].fields) {
            assert(!(forall|i: int| 0 <= i < n ==> fields_accepted(#[trigger] vs[i].fields)));
        }
    }
}

/// The derive accepts an enum exactly when every variant has named fields
/// with no role taken twice, a struct exactly when its fields are named
/// with no role taken twice, and never a union.
pub proof fn law_acceptance(item: ItemDef)
    ensures
        expansion(item) is Ok <==> match item {
            ItemDef::Enum { variants, .. } => forall|i: int|
                0 <= i < variants@.len() ==> fields_accepted(#[trigger] variants@[i].fields),
            ItemDef::Struct { fields, .. } => fields_accepted(fields),
            ItemDef::Union { .. } => false,
        },
{
    match item {
        ItemDef::Enum { variants, .. } => {
            assert(variants.len() == variants@.len());
            lemma_enum_parts_ok(variants@, variants@.len());
        },
        _ => {},
    }
}

/// An enum whose variants before `i` are accepted and whose variant `i` is
/// refused is refused with variant `i`'s error: no later variant is
/// looked at.
pub proof fn law_first_refused_variant(vs: Seq<VariantDef>, i: usize)
    requires
        i < vs.len() <= usize::MAX,
        forall|j: int| 0 <= j < i ==> fields_accepted(#[trigger] vs[j].fields),
        !fields_accepted(vs[i as int].fields),
    ensures
        variant_parts(vs[i as int], i, heck_snake_case(vs[i as int].name@)) is Err,
        enum_parts(vs, vs.len()) == Err::<crate::derive::Parts, Failure>(
            variant_parts(vs[i as int], i, heck_snake_case(vs[i as int].name@))->Err_0,
        ),
{
    lemma_enum_parts_ok(vs, i as nat);
    lemma_variant_parts_ok(vs[i as int], i, heck_snake_case(vs[i as int].name@));
    assert(enum_parts(vs, (i + 1) as nat) == Err::<crate::derive::Parts, Failure>(
        variant_parts(vs[i as int], i, heck_snake_case(vs[i as int].name@))->Err_0,
    ));
    crate::derive::lemma_enum_parts_fail(vs, (i + 1) as nat, vs.len());
}

/// The entries collected from a chain whose outermost error has a typed
/// source are the outermost error's entry followed by entries with the
/// same messages and locations as those collected from that source's own
/// chain.
pub proof fn law_chain_entries_split(
    r1: Seq<Entry>,
    r2: Seq<Entry>,
    root: Entry,
    typed: Seq<Entry>,
    untyped: Seq<Seq<char>>,
)
    requires
        typed.len() >= 1,
        chain_entries_hold(r1, root, typed, untyped),
        chain_entries_hold(r2, typed[0], typed.drop_first(), untyped),
    ensures
        r1.len() == 1 + r2.len(),
        r1[0] == root,
        forall|k: int|
            0 <= k < r2.len() ==> (#[trigger] r1[k + 1]).message_text() == r2[k].message_text()
                && r1[k + 1].location_of() == r2[k].location_of(),
{
    let rest = typed.drop_first();
    assert forall|k: int| 0 <= k < r2.len() implies (#[trigger] r1[k + 1]).message_text() == r2[k].message_text()
        && r1[k + 1].location_of() == r2[k].location_of() by {
        if k == 0 {
            assert(r1[1int + 0int] == typed[0]);
        } else if k < typed.len() {
            assert(r1[1 + k] == typed[k]);
            assert(r2[1 + (k - 1)] == rest[k - 1]);
        } else {
            let j = k - typed.len();
            assert(r1[1 + typed.len() + j] == r1[k + 1]);
            assert(r2[1 + rest.len() + j] == r2[k]);
        }
    }
}
} // verus!
