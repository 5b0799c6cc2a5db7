//! Rendering of the generated items as Rust source text.

use vstd::prelude::*;

use crate::fields::ParsedFields;
use crate::model::{FieldDef, option_inner, type_option_inner};
use crate::plan::{
    ConstructorPlan, FieldsPlan, SourceFill, StackLink, constructor_views, planned_constructors, source_is_optional,
};

verus! {

/// The plan refers only to existing fields, and a wrapped source is of an
/// `Option` type.
pub open spec fn renderable(fs: Seq<FieldDef>, users: Seq<usize>, location: Option<usize>, plan: FieldsPlan) -> bool {
    &&& forall|k: int| 0 <= k < users.len() ==> #[trigger] users[k] < fs.len()
    &&& location matches Some(l) ==> l < fs.len()
    &&& plan.location matches Some(l) ==> l < fs.len()
    &&& forall|i: int| 0 <= i < plan.constructors@.len() ==> fill_ok(fs, (#[trigger] plan.constructors@[i]).source)
    &&& match plan.stack {
        StackLink::Direct(k) => k < fs.len(),
        StackLink::Optional(k) => k < fs.len(),
        StackLink::Unlinked => true,
    }
}

/// The source fill refers to an existing field, and a wrapped source is of
/// an `Option` type.
pub open spec fn fill_ok(fs: Seq<FieldDef>, fill: SourceFill) -> bool {
    match fill {
        SourceFill::Absent => true,
        SourceFill::Taken(k) => k < fs.len(),
        SourceFill::Empty(k) => k < fs.len(),
        SourceFill::Wrapped(k) => k < fs.len() && option_inner(fs[k as int].ty) is Some,
    }
}

/// Every planned constructor's source fill refers to an existing field,
/// and a wrapped source is of an `Option` type.
pub proof fn lemma_planned_fills_ok(fs: Seq<FieldDef>, source: Option<usize>, method: Seq<char>)
    requires
        source matches Some(k) ==> k < fs.len(),
    ensures
        forall|i: int|
            0 <= i < planned_constructors(fs, source, method).len() ==> fill_ok(
                fs,
                (#[trigger] planned_constructors(fs, source, method)[i]).1,
            ),
{
    let cs = planned_constructors(fs, source, method);
    match source {
        None => {
            assert(cs[0].1 == SourceFill::Absent);
        },
        Some(k) => {
            if source_is_optional(fs, source) {
                assert(cs[0].1 == SourceFill::Empty(k));
                assert(cs[1].1 == SourceFill::Wrapped(k));
            } else {
                assert(cs[0].1 == SourceFill::Taken(k));
            }
        },
    }
}

/// A constructor parameter: `name: Type`.
pub open spec fn param_text(f: FieldDef) -> Seq<char> {
    f.name@ + ": "@ + f.ty.text@
}

/// The parameter list for the fields at indices `us`, separated by `, `.
pub open spec fn params_text(fs: Seq<FieldDef>, us: Seq<usize>) -> Seq<char>
    decreases us.len(),
{
    if us.len() == 0 {
        Seq::empty()
    } else if us.len() == 1 {
        param_text(fs[us[0] as int])
    } else {
        params_text(fs, us.drop_last()) + ", "@ + param_text(fs[us.last() as int])
    }
}

/// The field initialisers for the fields at indices `us`: each name
/// followed by `, `.
pub open spec fn inits_text(fs: Seq<FieldDef>, us: Seq<usize>) -> Seq<char>
    decreases us.len(),
{
    if us.len() == 0 {
        Seq::empty()
    } else {
        inits_text(fs, us.drop_last()) + fs[us.last() as int].name@ + ", "@
    }
}

/// A constructor's return type.
pub open spec fn return_text(fs: Seq<FieldDef>, fill: SourceFill) -> Seq<char> {
    match fill {
        SourceFill::Taken(k) => "impl ::std::ops::FnOnce("@ + fs[k as int].ty.text@ + ") -> Self"@,
        SourceFill::Wrapped(k) => "impl ::std::ops::FnOnce("@ + option_inner(fs[k as int].ty)->0
            + ") -> Self"@,
        _ => "Self"@,
    }
}

/// The capture of the caller's location, where there is a location field.
pub open spec fn capture_text(location: Option<usize>) -> Seq<char> {
    if location is Some {
        "let location = ::std::panic::Location::caller();\n"@
    } else {
        Seq::empty()
    }
}

/// The initialiser of the source field.
pub open spec fn source_init_text(fs: Seq<FieldDef>, fill: SourceFill) -> Seq<char> {
    match fill {
        SourceFill::Absent => Seq::empty(),
        SourceFill::Taken(k) => fs[k as int].name@ + ", "@,
        SourceFill::Empty(k) => fs[k as int].name@ + ": ::std::option::Option::None, "@,
        SourceFill::Wrapped(k) => fs[k as int].name@ + ": ::std::option::Option::Some("@ + fs[k as int].name@
            + "), "@,
    }
}

/// The initialiser of the location field.
pub open spec fn location_init_text(fs: Seq<FieldDef>, location: Option<usize>) -> Seq<char> {
    match location {
        Some(k) => fs[k as int].name@ + ": location, "@,
        None => Seq::empty(),
    }
}

/// The value a constructor builds: `target { source, fields.., location }`.
pub open spec fn value_text(
    fs: Seq<FieldDef>,
    users: Seq<usize>,
    location: Option<usize>,
    fill: SourceFill,
    target: Seq<char>,
) -> Seq<char> {
    target + " { "@ + source_init_text(fs, fill) + inits_text(fs, users) + location_init_text(fs, location)
        + "}"@
}

/// A constructor's body after the location capture: the value, or a
/// closure taking the source and returning the value.
pub open spec fn body_text(
    fs: Seq<FieldDef>,
    users: Seq<usize>,
    location: Option<usize>,
    fill: SourceFill,
    target: Seq<char>,
) -> Seq<char> {
    match fill {
        SourceFill::Taken(k) => "move |"@ + fs[k as int].name@ + "| "@ + value_text(fs, users, location, fill, target),
        SourceFill::Wrapped(k) => "move |"@ + fs[k as int].name@ + "| "@ + value_text(
            fs,
            users,
            location,
            fill,
            target,
        ),
        _ => value_text(fs, users, location, fill, target),
    }
}

/// The source text of one constructor: documented with `doc`, marked
/// `#[track_caller]`, taking the caller-supplied fields and building
/// `target`.
pub open spec fn constructor_text(
    fs: Seq<FieldDef>,
    users: Seq<usize>,
    location: Option<usize>,
    c: (Seq<char>, SourceFill),
    target: Seq<char>,
    doc: Seq<char>,
) -> Seq<char> {
    "#[doc = \""@ + doc + "\"]\n#[track_caller]\npub(crate) fn "@ + c.0 + "("@ + params_text(fs, users)
        + ") -> "@ + return_text(fs, c.1) + " {\n"@ + capture_text(location) + body_text(
        fs,
        users,
        location,
        c.1,
        target,
    ) + "\n}\n"@
}

/// The source text of the first `n` constructors.
pub open spec fn constructors_text(
    fs: Seq<FieldDef>,
    users: Seq<usize>,
    location: Option<usize>,
    cs: Seq<(Seq<char>, SourceFill)>,
    n: nat,
    target: Seq<char>,
    doc: Seq<char>,
) -> Seq<char>
    decreases n,
{
    if n == 0 || n > cs.len() {
        Seq::empty()
    } else {
        constructors_text(fs, users, location, cs, (n - 1) as nat, target, doc) + constructor_text(
            fs,
            users,
            location,
            cs[n - 1],
            target,
            doc,
        )
    }
}

/// The `location` match arm of variant `v`.
pub open spec fn location_arm_text(fs: Seq<FieldDef>, location: Option<usize>, v: Seq<char>) -> Seq<char> {
    match location {
        Some(k) => "Self::"@ + v + " { "@ + fs[k as int].name@ + ", .. } => Some("@ + fs[k as int].name@
            + "),\n"@,
        None => "Self::"@ + v + " { .. } => None,\n"@,
    }
}

/// The `stack_source` match arm of variant `v`.
pub open spec fn stack_arm_text(fs: Seq<FieldDef>, stack: StackLink, v: Seq<char>) -> Seq<char> {
    match stack {
        StackLink::Direct(k) => "Self::"@ + v + " { "@ + fs[k as int].name@ + ", .. } => Some("@
            + fs[k as int].name@ + " as &dyn ::errorstack::ErrorStack),\n"@,
        StackLink::Optional(k) => "Self::"@ + v + " { "@ + fs[k as int].name@ + ", .. } => "@
            + fs[k as int].name@ + ".as_ref().map(|s| s as &dyn ::errorstack::ErrorStack),\n"@,
        StackLink::Unlinked => "Self::"@ + v + " { .. } => None,\n"@,
    }
}

/// The body of a struct's `location`.
pub open spec fn location_body_text(fs: Seq<FieldDef>, location: Option<usize>) -> Seq<char> {
    match location {
        Some(k) => "Some(self."@ + fs[k as int].name@ + ")"@,
        None => "None"@,
    }
}

/// The body of a struct's `stack_source`.
pub open spec fn stack_body_text(fs: Seq<FieldDef>, stack: StackLink) -> Seq<char> {
    match stack {
        StackLink::Direct(k) => "Some(&self."@ + fs[k as int].name@ + " as &dyn ::errorstack::ErrorStack)"@,
        StackLink::Optional(k) => "self."@ + fs[k as int].name@
            + ".as_ref().map(|s| s as &dyn ::errorstack::ErrorStack)"@,
        StackLink::Unlinked => "None"@,
    }
}

fn render_param(f: &FieldDef) -> (res: String)
    ensures
        res@ == param_text(*f),
{
    let mut s = f.name.clone();
    s.append(": ");
    s.append(f.ty.text.as_str());
    s
}

/// Renders the parameter list for the fields at indices `us`.
pub fn render_params(fields: &Vec<FieldDef>, us: &Vec<usize>) -> (res: String)
    requires
        forall|k: int| 0 <= k < us@.len() ==> #[trigger] us@[k] < fields@.len(),
    ensures
        res@ == params_text(fields@, us@),
{
    let mut s = String::new();
    let mut i: usize = 0;
    while i < us.len()
        invariant
            i <= us@.len(),
            forall|k: int| 0 <= k < us@.len() ==> #[trigger] us@[k] < fields@.len(),
            s@ == params_text(fields@, us@.take(i as int)),
        decreases us@.len() - i,
    {
        let p = render_param(&fields[us[i]]);
        let ghost prev = us@.take(i as int);
        assert(us@.take(i + 1).drop_last() =~= prev);
        if i == 0 {
            s = p;
        } else {
            s.append(", ");
            s.append(p.as_str());
        }
        i = i + 1;
    }
    assert(us@.take(us@.len() as int) =~= us@);
    s
}

/// Renders the field initialisers for the fields at indices `us`.
pub fn render_inits(fields: &Vec<FieldDef>, us: &Vec<usize>) -> (res: String)
    requires
        forall|k: int| 0 <= k < us@.len() ==> #[trigger] us@[k] < fields@.len(),
    ensures
        res@ == inits_text(fields@, us@),
{
    let mut s = String::new();
    let mut i: usize = 0;
    while i < us.len()
        invariant
            i <= us@.len(),
            forall|k: int| 0 <= k < us@.len() ==> #[trigger] us@[k] < fields@.len(),
            s@ == inits_text(fields@, us@.take(i as int)),
        decreases us@.len() - i,
    {
        assert(us@.take(i + 1).drop_last() =~= us@.take(i as int));
        s.append(fields[us[i]].name.as_str());
        s.append(", ");
        i = i + 1;
    }
    assert(us@.take(us@.len() as int) =~= us@);
    s
}

fn render_return(fields: &Vec<FieldDef>, fill: SourceFill) -> (res: String)
    requires
        fill_ok(fields@, fill),
    ensures
        res@ == return_text(fields@, fill),
{
    match fill {
        SourceFill::Taken(k) => {
            let mut s = String::from_str("impl ::std::ops::FnOnce(");
            s.append(fields[k].ty.text.as_str());
            s.append(") -> Self");
            s
        },
        SourceFill::Wrapped(k) => {
            let inner = type_option_inner(&fields[k].ty);
            let inner = inner.unwrap();
            let mut s = String::from_str("impl ::std::ops::FnOnce(");
            s.append(inner.as_str());
            s.append(") -> Self");
            s
        },
        _ => String::from_str("Self"),
    }
}

fn render_source_init(fields: &Vec<FieldDef>, fill: SourceFill) -> (res: String)
    requires
        fill_ok(fields@, fill),
    ensures
        res@ == source_init_text(fields@, fill),
{
    match fill {
        SourceFill::Absent => String::new(),
        SourceFill::Taken(k) => {
            let mut s = fields[k].name.clone();
            s.append(", ");
            s
        },
        SourceFill::Empty(k) => {
            let mut s = fields[k].name.clone();
            s.append(": ::std::option::Option::None, ");
            s
        },
        SourceFill::Wrapped(k) => {
            let mut s = fields[k].name.clone();
            s.append(": ::std::option::Option::Some(");
            s.append(fields[k].name.as_str());
            s.append("), ");
            s
        },
    }
}

fn render_value(fields: &Vec<FieldDef>, parsed: &ParsedFields, fill: SourceFill, target: &str) -> (res: String)
    requires
        fill_ok(fields@, fill),
        forall|k: int| 0 <= k < parsed.user_fields@.len() ==> #[trigger] parsed.user_fields@[k] < fields@.len(),
        parsed.location matches Some(l) ==> l < fields@.len(),
    ensures
        res@ == value_text(fields@, parsed.user_fields@, parsed.location, fill, target@),
{
    let mut s = String::from_str(target);
    s.append(" { ");
    let src = render_source_init(fields, fill);
    s.append(src.as_str());
    let inits = render_inits(fields, &parsed.user_fields);
    s.append(inits.as_str());
    match parsed.location {
        Some(k) => {
            s.append(fields[k].name.as_str());
            s.append(": location, ");
        },
        None => {},
    }
    s.append("}");
    s
}

fn render_body(fields: &Vec<FieldDef>, parsed: &ParsedFields, fill: SourceFill, target: &str) -> (res: String)
    requires
        fill_ok(fields@, fill),
        forall|k: int| 0 <= k < parsed.user_fields@.len() ==> #[trigger] parsed.user_fields@[k] < fields@.len(),
        parsed.location matches Some(l) ==> l < fields@.len(),
    ensures
        res@ == body_text(fields@, parsed.user_fields@, parsed.location, fill, target@),
{
    let value = render_value(fields, parsed, fill, target);
    match fill {
        SourceFill::Taken(k) => {
            let mut s = String::from_str("move |");
            s.append(fields[k].name.as_str());
            s.append("| ");
            s.append(value.as_str());
            s
        },
        SourceFill::Wrapped(k) => {
            let mut s = String::from_str("move |");
            s.append(fields[k].name.as_str());
            s.append("| ");
            s.append(value.as_str());
            s
        },
        _ => value,
    }
}

/// Renders one constructor, documented with `doc` and building `target`
/// (`Self::Variant` for an enum, `Self` for a struct).
pub fn render_constructor(
    fields: &Vec<FieldDef>,
    parsed: &ParsedFields,
    ctor: &ConstructorPlan,
    target: &str,
    doc: &str,
) -> (res: String)
    requires
        fill_ok(fields@, ctor.source),
        forall|k: int| 0 <= k < parsed.user_fields@.len() ==> #[trigger] parsed.user_fields@[k] < fields@.len(),
        parsed.location matches Some(l) ==> l < fields@.len(),
    ensures
        res@ == constructor_text(fields@, parsed.user_fields@, parsed.location, ctor@, target@, doc@),
{
    let mut s = String::from_str("#[doc = \"");
    s.append(doc);
    s.append("\"]\n#[track_caller]\npub(crate) fn ");
    s.append(ctor.name.as_str());
    s.append("(");
    let params = render_params(fields, &parsed.user_fields);
    s.append(params.as_str());
    s.append(") -> ");
    let ret = render_return(fields, ctor.source);
    s.append(ret.as_str());
    s.append(" {\n");
    if parsed.location.is_some() {
        s.append("let location = ::std::panic::Location::caller();\n");
    }
    let body = render_body(fields, parsed, ctor.source, target);
    s.append(body.as_str());
    s.append("\n}\n");
    s
}

/// Renders all constructors of a plan, in order.
pub fn render_constructors(
    fields: &Vec<FieldDef>,
    parsed: &ParsedFields,
    plan: &FieldsPlan,
    target: &str,
    doc: &str,
) -> (res: String)
    requires
        renderable(fields@, parsed.user_fields@, parsed.location, *plan),
    ensures
        res@ == constructors_text(
            fields@,
            parsed.user_fields@,
            parsed.location,
            constructor_views(*plan),
            plan.constructors@.len(),
            target@,
            doc@,
        ),
{
    let mut s = String::new();
    let mut i: usize = 0;
    while i < plan.constructors.len()
        invariant
            i <= plan.constructors@.len(),
            renderable(fields@, parsed.user_fields@, parsed.location, *plan),
            s@ == constructors_text(
                fields@,
                parsed.user_fields@,
                parsed.location,
                constructor_views(*plan),
                i as nat,
                target@,
                doc@,
            ),
        decreases plan.constructors@.len() - i,
    {
        assert(fill_ok(fields@, plan.constructors@[i as int].source));
        let c = render_constructor(fields, parsed, &plan.constructors[i], target, doc);
        s.append(c.as_str());
        i = i + 1;
    }
    s
}

/// Renders the `location` match arm of variant `variant`.
pub fn render_location_arm(fields: &Vec<FieldDef>, location: Option<usize>, variant: &str) -> (res: String)
    requires
        location matches Some(l) ==> l < fields@.len(),
    ensures
        res@ == location_arm_text(fields@, location, variant@),
{
    let mut s = String::from_str("Self::");
    s.append(variant);
    match location {
        Some(k) => {
            s.append(" { ");
            s.append(fields[k].name.as_str());
            s.append(", .. } => Some(");
            s.append(fields[k].name.as_str());
            s.append("),\n");
        },
        None => {
            s.append(" { .. } => None,\n");
        },
    }
    s
}

/// Renders the `stack_source` match arm of variant `variant`.
pub fn render_stack_arm(fields: &Vec<FieldDef>, stack: StackLink, variant: &str) -> (res: String)
    requires
        match stack {
            StackLink::Direct(k) => k < fields@.len(),
            StackLink::Optional(k) => k < fields@.len(),
            StackLink::Unlinked => true,
        },
    ensures
        res@ == stack_arm_text(fields@, stack, variant@),
{
    let mut s = String::from_str("Self::");
    s.append(variant);
    match stack {
        StackLink::Direct(k) => {
            s.append(" { ");
            s.append(fields[k].name.as_str());
            s.append(", .. } => Some(");
            s.append(fields[k].name.as_str());
            s.append(" as &dyn ::errorstack::ErrorStack),\n");
        },
        StackLink::Optional(k) => {
            s.append(" { ");
            s.append(fields[k].name.as_str());
            s.append(", .. } => ");
            s.append(fields[k].name.as_str());
            s.append(".as_ref().map(|s| s as &dyn ::errorstack::ErrorStack),\n");
        },
        StackLink::Unlinked => {
            s.append(" { .. } => None,\n");
        },
    }
    s
}

/// Renders the body of a struct's `location`.
pub fn render_location_body(fields: &Vec<FieldDef>, location: Option<usize>) -> (res: String)
    requires
        location matches Some(l) ==> l < fields@.len(),
    ensures
        res@ == location_body_text(fields@, location),
{
    match location {
        Some(k) => {
            let mut s = String::from_str("Some(self.");
            s.append(fields[k].name.as_str());
            s.append(")");
            s
        },
        None => String::from_str("None"),
    }
}

/// Renders the body of a struct's `stack_source`.
pub fn render_stack_body(fields: &Vec<FieldDef>, stack: StackLink) -> (res: String)
    requires
        match stack {
            StackLink::Direct(k) => k < fields@.len(),
            StackLink::Optional(k) => k < fields@.len(),
            StackLink::Unlinked => true,
        },
    ensures
        res@ == stack_body_text(fields@, stack),
{
    match stack {
        StackLink::Direct(k) => {
            let mut s = String::from_str("Some(&self.");
            s.append(fields[k].name.as_str());
            s.append(" as &dyn ::errorstack::ErrorStack)");
            s
        },
        StackLink::Optional(k) => {
            let mut s = String::from_str("self.");
            s.append(fields[k].name.as_str());
            s.append(".as_ref().map(|s| s as &dyn ::errorstack::ErrorStack)");
            s
        },
        StackLink::Unlinked => String::from_str("None"),
    }
}

} // verus!
