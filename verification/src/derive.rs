//! The derive's expansion: the constructors and the `ErrorStack`
//! implementation generated for an enum or a struct, as Rust source text,
//! or the error that the derive reports.

use vstd::prelude::*;

use crate::fields::{
    FieldsError, Roles, classification, is_user_field, location_index,
    parse_fields, source_index, user_indices,
};
use crate::model::{FieldDef, FieldsDef, ItemDef, VariantDef};
use crate::naming::{heck_snake_case, to_snake_case};
use crate::plan::{FieldsPlan, planned_constructors, planned_stack, plan_fields, plans};
use crate::render::{
    constructors_text, location_arm_text, location_body_text, render_constructors, render_location_arm,
    render_location_body, render_stack_arm, render_stack_body, stack_arm_text, stack_body_text,
};

verus! {

/// Where a derive error points: the item's name, a variant, or a field (of
/// a variant, or of the struct where `variant` is `None`).
#[derive(Clone, Copy, Debug, PartialEq, Eq, Structural)]
pub enum ErrorSite {
    ItemName,
    Variant(usize),
    Field { variant: Option<usize>, field: usize },
}

/// An error of the derive: where it points and its message.
#[derive(Clone, Debug, PartialEq, Eq)]
pub struct DeriveFailure {
    pub site: ErrorSite,
    pub message: String,
}

impl View for DeriveFailure {
    type V = (ErrorSite, Seq<char>);

    open spec fn view(&self) -> (ErrorSite, Seq<char>) {
        (self.site, self.message@)
    }
}

/// A derive error as a site and a message.
pub type Failure = (ErrorSite, Seq<char>);

/// The generated text of an enum's variants: the constructors, the
/// `location` match arms and the `stack_source` match arms.
pub type Parts = (Seq<char>, Seq<char>, Seq<char>);

/// The message of a clash among the fields of `context` (a variant's or a
/// struct's name).
pub open spec fn clash_message(context: Seq<char>, e: FieldsError) -> Seq<char> {
    match e {
        FieldsError::MultipleSources(_) => "variant `"@ + context + "` has multiple source fields"@,
        FieldsError::MultipleLocations(_) => "variant `"@ + context + "` has multiple location fields"@,
    }
}

/// The field a clash points at.
pub open spec fn clash_field(e: FieldsError) -> usize {
    match e {
        FieldsError::MultipleSources(i) => i,
        FieldsError::MultipleLocations(i) => i,
    }
}

/// The documentation of a variant's constructors.
pub open spec fn variant_doc(v: Seq<char>) -> Seq<char> {
    "Constructs a [`"@ + v + "`](Self::"@ + v + ") error."@
}

/// The documentation of a struct's constructors.
pub open spec fn struct_doc(name: Seq<char>) -> Seq<char> {
    "Constructs a [`"@ + name + "`]."@
}

/// The expansion of variant `v` (at `index`), its first constructor named
/// `method`: tuple and unit variants are refused; fields with a clash are
/// refused at the clashing field; otherwise its constructors and match arms.
#[verifier::opaque]
pub open spec fn variant_parts(v: VariantDef, index: usize, method: Seq<char>) -> Result<Parts, Failure> {
    match v.fields {
        FieldsDef::Unnamed => Err(
            (
                ErrorSite::Variant(index),
                "ErrorStack derive requires named (struct) variants; found tuple variant `"@ + v.name@ + "`"@,
            ),
        ),
        FieldsDef::Unit => Err(
            (
                ErrorSite::Variant(index),
                "ErrorStack derive requires named (struct) variants; found unit variant `"@ + v.name@ + "`"@,
            ),
        ),
        FieldsDef::Named(fs) => match classification(fs@) {
            Err(e) => Err(
                (ErrorSite::Field { variant: Some(index), field: clash_field(e) }, clash_message(v.name@, e)),
            ),
            Ok(roles) => {
                let cs = planned_constructors(fs@, roles.0, method);
                Ok(
                    (
                        constructors_text(
                            fs@,
                            roles.3,
                            roles.1,
                            cs,
                            cs.len(),
                            "Self::"@ + v.name@,
                            variant_doc(v.name@),
                        ),
                        location_arm_text(fs@, roles.1, v.name@),
                        stack_arm_text(fs@, planned_stack(fs@, roles.0, roles.2), v.name@),
                    ),
                )
            },
        },
    }
}

/// The expansion of the first `n` variants, each variant's first
/// constructor named by `heck`'s snake case of its name: the first refused
/// variant's error, or the parts of all of them, in order.
pub open spec fn enum_parts(vs: Seq<VariantDef>, n: nat) -> Result<Parts, Failure>
    decreases n,
{
    if n == 0 || n > vs.len() {
        Ok((Seq::empty(), Seq::empty(), Seq::empty()))
    } else {
        match enum_parts(vs, (n - 1) as nat) {
            Err(e) => Err(e),
            Ok(prev) => match variant_parts(
                vs[n - 1],
                (n - 1) as usize,
                heck_snake_case(vs[n - 1].name@),
            ) {
                Err(e) => Err(e),
                Ok(part) => Ok((prev.0 + part.0, prev.1 + part.1, prev.2 + part.2)),
            },
        }
    }
}

/// The text generated for an enum named `name` from its variants' parts.
pub open spec fn enum_text(name: Seq<char>, parts: Parts) -> Seq<char> {
    "impl "@ + name + " {\n"@ + parts.0 + "}\nimpl ::errorstack::ErrorStack for "@ + name
        + " {\nfn location(&self) -> Option<&'static ::std::panic::Location<'static>> {\nmatch self {\n"@
        + parts.1
        + "}\n}\nfn stack_source(&self) -> Option<&dyn ::errorstack::ErrorStack> {\nmatch self {\n"@
        + parts.2 + "}\n}\n}\n"@
}

/// The text generated for a struct named `name` from its constructors and
/// the bodies of `location` and `stack_source`.
pub open spec fn struct_text(name: Seq<char>, ctors: Seq<char>, location: Seq<char>, stack: Seq<char>) -> Seq<
    char,
> {
    "impl "@ + name + " {\n"@ + ctors + "}\nimpl ::errorstack::ErrorStack for "@ + name
        + " {\nfn location(&self) -> Option<&'static ::std::panic::Location<'static>> {\n"@ + location
        + "\n}\nfn stack_source(&self) -> Option<&dyn ::errorstack::ErrorStack> {\n"@ + stack + "\n}\n}\n"@
}

/// The expansion of a struct: only named fields are accepted; fields with
/// a clash are refused at the clashing field; otherwise constructors named
/// `new` (and `new_with` for an optional source) and the implementation.
pub open spec fn struct_expansion(name: Seq<char>, fields: FieldsDef) -> Result<Seq<char>, Failure> {
    match fields {
        FieldsDef::Named(fs) => match classification(fs@) {
            Err(e) => Err((ErrorSite::Field { variant: None, field: clash_field(e) }, clash_message(name, e))),
            Ok(roles) => {
                let cs = planned_constructors(fs@, roles.0, "new"@);
                Ok(
                    struct_text(
                        name,
                        constructors_text(fs@, roles.3, roles.1, cs, cs.len(), "Self"@, struct_doc(name)),
                        location_body_text(fs@, roles.1),
                        stack_body_text(fs@, planned_stack(fs@, roles.0, roles.2)),
                    ),
                )
            },
        },
        _ => Err((ErrorSite::ItemName, "ErrorStack derive requires named fields"@)),
    }
}

/// The derive's expansion of an item, or the error it reports.
pub open spec fn expansion(item: ItemDef) -> Result<Seq<char>, Failure> {
    match item {
        ItemDef::Enum { name, variants } => match enum_parts(variants@, variants@.len()) {
            Err(e) => Err(e),
            Ok(parts) => Ok(enum_text(name@, parts)),
        },
        ItemDef::Struct { name, fields } => struct_expansion(name@, fields),
        ItemDef::Union { .. } => Err((ErrorSite::ItemName, "ErrorStack derive is not supported on unions"@)),
    }
}

proof fn lemma_user_indices_bounded(fs: Seq<FieldDef>, n: nat)
    requires
        n <= fs.len(),
        n <= usize::MAX,
    ensures
        forall|k: int|
            0 <= k < user_indices(fs, n).len() ==> #[trigger] user_indices(fs, n)[k] < n,
    decreases n,
{
    if n > 0 {
        lemma_user_indices_bounded(fs, (n - 1) as nat);
        let prev = user_indices(fs, (n - 1) as nat);
        if is_user_field(fs[n - 1]) {
            let cur = prev.push((n - 1) as usize);
            assert(user_indices(fs, n) == cur);
            assert forall|k: int| 0 <= k < cur.len() implies #[trigger] cur[k] < n by {
                if k < prev.len() {
                    assert(cur[k] == prev[k]);
                }
            }
        }
    }
}

/// The roles found for fields without a clash refer to existing fields.
proof fn lemma_roles_in_bounds(fs: Seq<FieldDef>)
    requires
        fs.len() <= usize::MAX,
    ensures
        source_index(fs) matches Some(k) ==> k < fs.len(),
        location_index(fs) matches Some(k) ==> k < fs.len(),
        forall|k: int|
            0 <= k < user_indices(fs, fs.len()).len() ==> #[trigger] user_indices(fs, fs.len())[k] < fs.len(),
{
    lemma_user_indices_bounded(fs, fs.len());
}

fn clash_message_text(context: &str, e: FieldsError) -> (res: String)
    ensures
        res@ == clash_message(context@, e),
{
    let mut s = String::from_str("variant `");
    s.append(context);
    match e {
        FieldsError::MultipleSources(_) => s.append("` has multiple source fields"),
        FieldsError::MultipleLocations(_) => s.append("` has multiple location fields"),
    }
    s
}

fn clash_field_of(e: FieldsError) -> (res: usize)
    ensures
        res == clash_field(e),
{
    match e {
        FieldsError::MultipleSources(i) => i,
        FieldsError::MultipleLocations(i) => i,
    }
}

/// Classifies and plans the named fields `fields`, rendering their
/// constructors (building `target`, documented with `doc`) and the plan.
fn expand_fields(
    fields: &Vec<FieldDef>,
    method: String,
    target: &str,
    doc: &str,
) -> (res: Result<(String, FieldsPlan), FieldsError>)
    ensures
        match res {
            Ok((ctors, plan)) => classification(fields@) matches Ok(roles) && {
                let cs = planned_constructors(fields@, roles.0, method@);
                &&& ctors@ == constructors_text(fields@, roles.3, roles.1, cs, cs.len(), target@, doc@)
                &&& plans(fields@, roles, method@, plan)
                &&& plan.location matches Some(l) ==> l < fields@.len()
                &&& match plan.stack {
                    crate::plan::StackLink::Direct(k) => k < fields@.len(),
                    crate::plan::StackLink::Optional(k) => k < fields@.len(),
                    crate::plan::StackLink::Unlinked => true,
                }
            },
            Err(e) => classification(fields@) == Err::<Roles, FieldsError>(e),
        },
{
    match parse_fields(fields) {
        Err(e) => Err(e),
        Ok(parsed) => {
            let n = fields.len();
            proof {
                lemma_roles_in_bounds(fields@);
            }
            let ghost m = method@;
            let plan = plan_fields(fields, &parsed, method);
            proof {
                let cs = planned_constructors(fields@, parsed.source, m);
                assert forall|i: int| 0 <= i < plan.constructors@.len() implies crate::render::fill_ok(
                    fields@,
                    (#[trigger] plan.constructors@[i]).source,
                ) by {
                    assert(crate::plan::constructor_views(plan)[i] == cs[i]);
                    assert(plan.constructors@[i]@ == cs[i]);
                    assert(parsed.source == source_index(fields@));
                    assert(parsed.source matches Some(k) ==> k < fields@.len());
                    crate::render::lemma_planned_fills_ok(fields@, parsed.source, m);
                    assert(crate::render::fill_ok(fields@, cs[i].1));
                }
            }
            let ctors = render_constructors(fields, &parsed, &plan, target, doc);
            Ok((ctors, plan))
        },
    }
}

/// Expands variant `v` (at `index`), its first constructor named `method`:
/// its constructors, `location` match arm and `stack_source` match arm, or
/// the error the derive reports for it.
pub fn expand_variant(v: &VariantDef, index: usize, method: String) -> (res: Result<
    (String, String, String),
    DeriveFailure,
>)
    ensures
        match res {
            Ok(t) => variant_parts(*v, index, method@) == Ok::<Parts, Failure>((t.0@, t.1@, t.2@)),
            Err(f) => variant_parts(*v, index, method@) == Err::<Parts, Failure>(f@),
        },
{
    reveal(variant_parts);
    match &v.fields {
        FieldsDef::Unnamed => {
            let mut m = String::from_str(
                "ErrorStack derive requires named (struct) variants; found tuple variant `",
            );
            m.append(v.name.as_str());
            m.append("`");
            Err(DeriveFailure { site: ErrorSite::Variant(index), message: m })
        },
        FieldsDef::Unit => {
            let mut m = String::from_str(
                "ErrorStack derive requires named (struct) variants; found unit variant `",
            );
            m.append(v.name.as_str());
            m.append("`");
            Err(DeriveFailure { site: ErrorSite::Variant(index), message: m })
        },
        FieldsDef::Named(fs) => {
            let mut target = String::from_str("Self::");
            target.append(v.name.as_str());
            let mut doc = String::from_str("Constructs a [`");
            doc.append(v.name.as_str());
            doc.append("`](Self::");
            doc.append(v.name.as_str());
            doc.append(") error.");
            match expand_fields(fs, method, target.as_str(), doc.as_str()) {
                Err(e) => {
                    let message = clash_message_text(v.name.as_str(), e);
                    let field = clash_field_of(e);
                    Err(DeriveFailure { site: ErrorSite::Field { variant: Some(index), field }, message })
                },
                Ok((ctors, plan)) => {
                    let loc = render_location_arm(fs, plan.location, v.name.as_str());
                    let stack = render_stack_arm(fs, plan.stack, v.name.as_str());
                    Ok((ctors, loc, stack))
                },
            }
        },
    }
}

/// Expands a struct named `name` with fields `fields`.
pub fn expand_struct(name: &str, fields: &FieldsDef) -> (res: Result<String, DeriveFailure>)
    ensures
        match res {
            Ok(s) => struct_expansion(name@, *fields) == Ok::<Seq<char>, Failure>(s@),
            Err(f) => struct_expansion(name@, *fields) == Err::<Seq<char>, Failure>(f@),
        },
{
    match fields {
        FieldsDef::Named(fs) => {
            let mut doc = String::from_str("Constructs a [`");
            doc.append(name);
            doc.append("`].");
            match expand_fields(fs, String::from_str("new"), "Self", doc.as_str()) {
                Err(e) => {
                    let message = clash_message_text(name, e);
                    let field = clash_field_of(e);
                    Err(DeriveFailure { site: ErrorSite::Field { variant: None, field }, message })
                },
                Ok((ctors, plan)) => {
                    let loc = render_location_body(fs, plan.location);
                    let stack = render_stack_body(fs, plan.stack);
                    let mut s = String::from_str("impl ");
                    s.append(name);
                    s.append(" {\n");
                    s.append(ctors.as_str());
                    s.append("}\nimpl ::errorstack::ErrorStack for ");
                    s.append(name);
                    s.append(
                        " {\nfn location(&self) -> Option<&'static ::std::panic::Location<'static>> {\n",
                    );
                    s.append(loc.as_str());
                    s.append("\n}\nfn stack_source(&self) -> Option<&dyn ::errorstack::ErrorStack> {\n");
                    s.append(stack.as_str());
                    s.append("\n}\n}\n");
                    Ok(s)
                },
            }
        },
        _ => Err(
            DeriveFailure {
                site: ErrorSite::ItemName,
                message: String::from_str("ErrorStack derive requires named fields"),
            },
        ),
    }
}

/// Expands the derive for an item: for an enum, one constructor per
/// variant (two for an optional source) and an `ErrorStack`
/// implementation matching on the variants; for a struct, constructors
/// named `new` and an implementation reading its fields. Returns the
/// generated Rust source text, or the first error found.
pub fn expand(item: &ItemDef) -> (res: Result<String, DeriveFailure>)
    ensures
        match res {
            Ok(s) => expansion(*item) == Ok::<Seq<char>, Failure>(s@),
            Err(f) => expansion(*item) == Err::<Seq<char>, Failure>(f@),
        },
{
    match item {
        ItemDef::Enum { name, variants } => {
            let mut ctors = String::new();
            let mut locs = String::new();
            let mut stacks = String::new();
            let mut i: usize = 0;
            while i < variants.len()
                invariant
                    i <= variants@.len(),
                    enum_parts(variants@, i as nat) == Ok::<Parts, Failure>((ctors@, locs@, stacks@)),
                    expansion(*item) == match enum_parts(variants@, variants@.len()) {
                        Err(e) => Err(e),
                        Ok(parts) => Ok(enum_text(name@, parts)),
                    },
                decreases variants@.len() - i,
            {
                let v = &variants[i];
                let method = to_snake_case(v.name.as_str());
                match expand_variant(v, i, method) {
                    Err(f) => {
                        assert(enum_parts(variants@, (i + 1) as nat) == Err::<Parts, Failure>(f@));
                        proof {
                            lemma_enum_parts_fail(variants@, (i + 1) as nat, variants@.len());
                        }
                        assert(enum_parts(variants@, variants@.len()) == Err::<Parts, Failure>(f@));
                        assert(expansion(*item) == Err::<Seq<char>, Failure>(f@));
                        return Err(f);
                    },
                    Ok((c, l, s)) => {
                        ctors.append(c.as_str());
                        locs.append(l.as_str());
                        stacks.append(s.as_str());
                    },
                }
                i = i + 1;
            }
            let mut s = String::from_str("impl ");
            s.append(name.as_str());
            s.append(" {\n");
            s.append(ctors.as_str());
            s.append("}\nimpl ::errorstack::ErrorStack for ");
            s.append(name.as_str());
            s.append(
                " {\nfn location(&self) -> Option<&'static ::std::panic::Location<'static>> {\nmatch self {\n",
            );
            s.append(locs.as_str());
            s.append("}\n}\nfn stack_source(&self) -> Option<&dyn ::errorstack::ErrorStack> {\nmatch self {\n");
            s.append(stacks.as_str());
            s.append("}\n}\n}\n");
            Ok(s)
        },
        ItemDef::Struct { name, fields } => expand_struct(name.as_str(), fields),
        ItemDef::Union { .. } => Err(
            DeriveFailure {
                site: ErrorSite::ItemName,
                message: String::from_str("ErrorStack derive is not supported on unions"),
            },
        ),
    }
}

/// Once a prefix of the variants is refused, every longer prefix is
/// refused with the same error.
pub(crate) proof fn lemma_enum_parts_fail(vs: Seq<VariantDef>, n: nat, m: nat)
    requires
        n <= m <= vs.len(),
        enum_parts(vs, n) is Err,
    ensures
        enum_parts(vs, m) == enum_parts(vs, n),
    decreases m - n,
{
    if m > n {
        lemma_enum_parts_fail(vs, n, (m - 1) as nat);
    }
}

} // verus!
