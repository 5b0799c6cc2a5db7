//! Properties of the generated text and of report rendering that hold for
//! every input: parameter order, what `location` and `stack_source`
//! return, where causes and their locations appear, decimal numbers, and
//! attribute lookup.

use vstd::prelude::*;

use crate::derive::{struct_expansion};
use crate::fields::{
    is_location_field, is_source_field, is_user_field, location_index, no_clash, source_index, stack_flag,
};
use crate::model::{FieldDef, FieldsDef, has_attr, option_inner};
use crate::render::{
    body_text, capture_text, constructor_text, constructors_text, inits_text, location_arm_text, location_body_text,
    location_init_text, params_text, return_text, source_init_text, stack_arm_text, stack_body_text, value_text,
};
use crate::plan::{SourceFill, StackLink, planned_stack};
use crate::report::{Entry, cause_text, causes_text, report_text};
use crate::text::{decimal_text, digit_char};

verus! {

// ── Constructor parameters and field initialisers ──

/// No caller-supplied fields: no parameters.
pub proof fn law_params_empty(fs: Seq<FieldDef>)
    ensures
        params_text(fs, Seq::empty()) == Seq::<char>::empty(),
{
}

/// One caller-supplied field `u`: the parameter list is `name: Type`.
pub proof fn law_params_single(fs: Seq<FieldDef>, u: usize)
    ensures
        params_text(fs, seq![u]) == fs[u as int].name@ + ": "@ + fs[u as int].ty.text@,
{
}

/// The parameters for the fields `a` followed by the fields `b` are those
/// of `a`, then `, `, then those of `b`: parameters keep the order of the
/// fields.
pub proof fn law_params_concat(fs: Seq<FieldDef>, a: Seq<usize>, b: Seq<usize>)
    requires
        a.len() > 0,
        b.len() > 0,
    ensures
        params_text(fs, a + b) == params_text(fs, a) + ", "@ + params_text(fs, b),
    decreases b.len(),
{
    let ab = a + b;
    assert(ab.last() == b.last());
    if b.len() == 1 {
        assert(ab.drop_last() =~= a);
    } else {
        law_params_concat(fs, a, b.drop_last());
        assert(ab.drop_last() =~= a + b.drop_last());
        let pa = params_text(fs, a);
        let pb = params_text(fs, b.drop_last());
        let pl = crate::render::param_text(fs[b.last() as int]);
        assert(params_text(fs, ab) == pa + ", "@ + pb + ", "@ + pl);
        assert(params_text(fs, b) == pb + ", "@ + pl);
        assert(pa + ", "@ + pb + ", "@ + pl =~= pa + ", "@ + (pb + ", "@ + pl));
    }
}

/// The parameter list starts with the first caller-supplied field's
/// `name: Type`, followed by `, ` and the rest, in order.
pub proof fn law_params_front(fs: Seq<FieldDef>, us: Seq<usize>)
    requires
        us.len() >= 2,
    ensures
        params_text(fs, us) == fs[us[0] as int].name@ + ": "@ + fs[us[0] as int].ty.text@ + ", "@ + params_text(
            fs,
            us.drop_first(),
        ),
{
    law_params_concat(fs, seq![us[0]], us.drop_first());
    assert(seq![us[0]] + us.drop_first() =~= us);
}

/// The initialisers for the fields `a` followed by the fields `b` are those
/// of `a` followed by those of `b`.
pub proof fn law_inits_concat(fs: Seq<FieldDef>, a: Seq<usize>, b: Seq<usize>)
    ensures
        inits_text(fs, a + b) == inits_text(fs, a) + inits_text(fs, b),
    decreases b.len(),
{
    if b.len() == 0 {
        assert(a + b =~= a);
        assert(inits_text(fs, a) + Seq::<char>::empty() =~= inits_text(fs, a));
    } else {
        law_inits_concat(fs, a, b.drop_last());
        let ab = a + b;
        assert(ab.drop_last() =~= a + b.drop_last());
        assert(ab.last() == b.last());
        let ia = inits_text(fs, a);
        let ib = inits_text(fs, b.drop_last());
        let n = fs[b.last() as int].name@;
        assert(ia + ib + n + ", "@ =~= ia + (ib + n + ", "@));
    }
}

/// One field `u` is initialised by its name followed by `, `.
pub proof fn law_inits_single(fs: Seq<FieldDef>, u: usize)
    ensures
        inits_text(fs, seq![u]) == fs[u as int].name@ + ", "@,
{
    assert(seq![u].drop_last() =~= Seq::<usize>::empty());
    assert(inits_text(fs, Seq::<usize>::empty()) == Seq::<char>::empty());
    assert(inits_text(fs, seq![u]) =~= fs[u as int].name@ + ", "@);
}

// ── What `location` and `stack_source` return ──

/// A struct's `location` returns `None` exactly where there is no location
/// field, and otherwise the location field itself.
pub proof fn law_location_body(fs: Seq<FieldDef>, location: Option<usize>)
    ensures
        location is None ==> location_body_text(fs, location) == "None"@,
        location matches Some(k) ==> location_body_text(fs, location) == "Some(self."@ + fs[k as int].name@
            + ")"@,
{
}

/// A variant's `location` arm returns `None` exactly where the variant has
/// no location field, and otherwise binds and returns that field.
pub proof fn law_location_arm(fs: Seq<FieldDef>, location: Option<usize>, v: Seq<char>)
    ensures
        location is None ==> location_arm_text(fs, location, v) == "Self::"@ + v + " { .. } => None,\n"@,
        location matches Some(k) ==> location_arm_text(fs, location, v) == "Self::"@ + v + " { "@
            + fs[k as int].name@ + ", .. } => Some("@ + fs[k as int].name@ + "),\n"@,
{
}

/// A struct's `stack_source` returns `None` only when it follows no link;
/// a plain stack source is returned as `Some(&self.field)`, an optional
/// one as its content, if any.
pub proof fn law_stack_body(fs: Seq<FieldDef>, stack: StackLink)
    ensures
        stack == StackLink::Unlinked ==> stack_body_text(fs, stack) == "None"@,
        stack matches StackLink::Direct(k) ==> stack_body_text(fs, stack) == "Some(&self."@ + fs[k as int].name@
            + " as &dyn ::errorstack::ErrorStack)"@,
        stack matches StackLink::Optional(k) ==> stack_body_text(fs, stack) == "self."@ + fs[k as int].name@
            + ".as_ref().map(|s| s as &dyn ::errorstack::ErrorStack)"@,
{
}

/// A variant's `stack_source` arm returns `None` only when it follows no
/// link; otherwise it binds the source and returns it as an `ErrorStack`.
pub proof fn law_stack_arm(fs: Seq<FieldDef>, stack: StackLink, v: Seq<char>)
    ensures
        stack == StackLink::Unlinked ==> stack_arm_text(fs, stack, v) == "Self::"@ + v + " { .. } => None,\n"@,
        stack matches StackLink::Direct(k) ==> stack_arm_text(fs, stack, v) == "Self::"@ + v + " { "@
            + fs[k as int].name@ + ", .. } => Some("@ + fs[k as int].name@
            + " as &dyn ::errorstack::ErrorStack),\n"@,
        stack matches StackLink::Optional(k) ==> stack_arm_text(fs, stack, v) == "Self::"@ + v + " { "@
            + fs[k as int].name@ + ", .. } => "@ + fs[k as int].name@
            + ".as_ref().map(|s| s as &dyn ::errorstack::ErrorStack),\n"@,
{
}

/// `s` ends with `suffix`.
pub open spec fn ends_with(s: Seq<char>, suffix: Seq<char>) -> bool {
    s.len() >= suffix.len() && s.subrange(s.len() - suffix.len(), s.len() as int) == suffix
}

/// `s` starts with `prefix`.
pub open spec fn starts_with(s: Seq<char>, prefix: Seq<char>) -> bool {
    s.len() >= prefix.len() && s.subrange(0, prefix.len() as int) == prefix
}

/// The header of the generated `location` method, up to its body.
pub open spec fn location_header() -> Seq<char> {
    " {\nfn location(&self) -> Option<&'static ::std::panic::Location<'static>> {\n"@
}

/// The header of the generated `stack_source` method, up to its body.
pub open spec fn stack_header() -> Seq<char> {
    "\n}\nfn stack_source(&self) -> Option<&dyn ::errorstack::ErrorStack> {\n"@
}

/// The body of a struct's `location` as the derive should generate it:
/// `None` without a location field, else that field.
pub open spec fn expected_location_body(fs: Seq<FieldDef>) -> Seq<char> {
    if forall|i: int| 0 <= i < fs.len() ==> !#[trigger] is_location_field(fs[i]) {
        "None"@
    } else {
        "Some(self."@ + fs[location_index(fs)->0 as int].name@ + ")"@
    }
}

/// For an accepted struct, the generated `location` body is `None` when no
/// field is marked `#[location]`, and returns the marked field otherwise.
pub proof fn law_struct_location(name: Seq<char>, fields: FieldsDef)
    requires
        fields matches FieldsDef::Named(fs) && no_clash(fs@),
    ensures
        struct_expansion(name, fields) is Ok,
        exists|p: Seq<char>, q: Seq<char>|
            ends_with(p, location_header()) && starts_with(q, stack_header()) && struct_expansion(name, fields)->Ok_0
                == p + expected_location_body(fields->Named_0@) + q,
{
    let fs = fields->Named_0@;
    let roles = crate::fields::classification(fs)->Ok_0;
    let cs = crate::plan::planned_constructors(fs, roles.0, "new"@);
    let ctors = crate::render::constructors_text(fs, roles.3, roles.1, cs, cs.len(), "Self"@, crate::derive::struct_doc(name));
    let l = location_body_text(fs, roles.1);
    let st = stack_body_text(fs, crate::plan::planned_stack(fs, roles.0, roles.2));
    let p = "impl "@ + name + " {\n"@ + ctors + "}\nimpl ::errorstack::ErrorStack for "@ + name + location_header();
    let q = stack_header() + st + "\n}\n}\n"@;
    assert(p.subrange(p.len() - location_header().len(), p.len() as int) =~= location_header());
    assert(q.subrange(0, stack_header().len() as int) =~= stack_header());
    assert(ends_with(p, location_header()));
    assert(starts_with(q, stack_header()));
    assert(struct_expansion(name, fields)->Ok_0 =~= p + l + q);
    if exists|i: int| 0 <= i < fs.len() && #[trigger] is_location_field(fs[i]) {
        assert(!(forall|i: int| 0 <= i < fs.len() ==> !#[trigger] is_location_field(fs[i])));
    }
    assert(l == expected_location_body(fs));
}

/// The body of a struct's `stack_source` as the derive should generate it:
/// the source field marked `#[stack_source]` (its content, for an
/// `Option` source), `None` without one.
pub open spec fn expected_stack_body(fs: Seq<FieldDef>) -> Seq<char> {
    if stack_flag(fs) {
        let k = source_index(fs)->0 as int;
        if option_inner(fs[k].ty) is Some {
            "self."@ + fs[k].name@ + ".as_ref().map(|s| s as &dyn ::errorstack::ErrorStack)"@
        } else {
            "Some(&self."@ + fs[k].name@ + " as &dyn ::errorstack::ErrorStack)"@
        }
    } else {
        "None"@
    }
}

/// For an accepted struct, the generated `stack_source` body returns the
/// source field when it is marked `#[stack_source]`, and `None` otherwise.
pub proof fn law_struct_stack_source(name: Seq<char>, fields: FieldsDef)
    requires
        fields matches FieldsDef::Named(fs) && no_clash(fs@),
    ensures
        struct_expansion(name, fields) is Ok,
        exists|p: Seq<char>|
            ends_with(p, stack_header()) && struct_expansion(name, fields)->Ok_0 == p + expected_stack_body(
                fields->Named_0@,
            ) + "\n}\n}\n"@,
{
    let fs = fields->Named_0@;
    let roles = crate::fields::classification(fs)->Ok_0;
    let cs = crate::plan::planned_constructors(fs, roles.0, "new"@);
    let ctors = crate::render::constructors_text(fs, roles.3, roles.1, cs, cs.len(), "Self"@, crate::derive::struct_doc(name));
    let l = location_body_text(fs, roles.1);
    let st = stack_body_text(fs, crate::plan::planned_stack(fs, roles.0, roles.2));
    let p = "impl "@ + name + " {\n"@ + ctors + "}\nimpl ::errorstack::ErrorStack for "@ + name + location_header() + l
        + stack_header();
    assert(p.subrange(p.len() - stack_header().len(), p.len() as int) =~= stack_header());
    assert(ends_with(p, stack_header()));
    assert(struct_expansion(name, fields)->Ok_0 =~= p + st + "\n}\n}\n"@);
    assert(st == expected_stack_body(fs));
}

// ── Report rendering ──

/// The text of a location: file, `:`, line, `:`, column, in decimal.
pub open spec fn location_line(l: crate::report::Location) -> Seq<char> {
    l.file@ + ":"@ + decimal_text(l.line as nat) + ":"@ + decimal_text(l.column as nat)
}

/// Every cause, whatever its number, renders as its number and message,
/// followed by its location line exactly when it has a location.
pub proof fn law_cause_line(k: nat, e: Entry)
    ensures
        cause_text(k, e) == "\n  "@ + decimal_text(k) + ": "@ + e.message_text() + match e.location_of() {
            Some(l) => "\n        at "@ + location_line(l),
            None => Seq::<char>::empty(),
        },
{
}

proof fn lemma_causes_prefix(es: Seq<Entry>, k: nat, n: nat)
    requires
        k <= n,
    ensures
        exists|tail: Seq<char>| causes_text(es, n) == causes_text(es, k) + tail,
    decreases n - k,
{
    if n == k {
        assert(causes_text(es, n) =~= causes_text(es, k) + Seq::<char>::empty());
    } else {
        lemma_causes_prefix(es, k, (n - 1) as nat);
        let tail = choose|tail: Seq<char>| causes_text(es, (n - 1) as nat) == causes_text(es, k) + tail;
        let t2 = tail + cause_text(n, es[n as int]);
        assert(causes_text(es, n) =~= causes_text(es, k) + t2);
    }
}

/// Each cause `k` of a report appears in its rendering as its own block:
/// number, message, and location line where it has one.
pub proof fn law_report_contains_causes(es: Seq<Entry>, k: nat)
    requires
        1 <= k < es.len(),
    ensures
        exists|p: Seq<char>, q: Seq<char>| report_text(es) == p + cause_text(k, es[k as int]) + q,
{
    let n = (es.len() - 1) as nat;
    lemma_causes_prefix(es, k, n);
    let tail = choose|tail: Seq<char>| causes_text(es, n) == causes_text(es, k) + tail;
    let head = "Error: "@ + es[0].message_text() + crate::report::head_at_text(es[0].location_of())
        + crate::report::causes_header(n);
    let p = head + causes_text(es, (k - 1) as nat);
    assert(report_text(es) =~= p + cause_text(k, es[k as int]) + tail);
}

/// The numeric value of a string of decimal digits.
pub open spec fn digits_value(s: Seq<char>) -> int
    decreases s.len(),
{
    if s.len() == 0 {
        0
    } else {
        digits_value(s.drop_last()) * 10 + (s.last() as int - '0' as int)
    }
}

/// The decimal text of `n` is made of digits only, reads back as `n`, and
/// has no leading zero.
pub proof fn law_decimal(n: nat)
    ensures
        decimal_text(n).len() >= 1,
        forall|i: int| 0 <= i < decimal_text(n).len() ==> '0' <= #[trigger] decimal_text(n)[i] <= '9',
        digits_value(decimal_text(n)) == n,
        n > 0 ==> decimal_text(n)[0] != '0',
    decreases n,
{
    if n < 10 {
        let s = decimal_text(n);
        assert(s.drop_last() =~= Seq::<char>::empty());
        assert(digits_value(Seq::<char>::empty()) == 0);
        assert(s.last() == digit_char(n as int));
        assert(digit_char(n as int) as int == '0' as int + n);
        assert(digits_value(s) == digits_value(s.drop_last()) * 10 + (s.last() as int - '0' as int));
    } else {
        law_decimal(n / 10);
        let d = n % 10;
        let prev = decimal_text(n / 10);
        let s = decimal_text(n);
        assert(s == prev + seq![digit_char(d as int)]);
        assert(s.drop_last() =~= prev);
        assert(digit_char(d as int) as int == '0' as int + d);
        assert(s.last() == digit_char(d as int));
        assert(digits_value(s) == digits_value(s.drop_last()) * 10 + (s.last() as int - '0' as int));
        assert(digits_value(s) == digits_value(prev) * 10 + d);
        assert((n / 10) * 10 + n % 10 == n) by (nonlinear_arith);
        assert forall|i: int| 0 <= i < s.len() implies '0' <= #[trigger] s[i] <= '9' by {
            if i < prev.len() {
                assert(s[i] == prev[i]);
            }
        }
        assert(s[0] == prev[0]);
    }
}

// ── Attribute lookup ──

/// The attribute names of a field, in order.
pub open spec fn attr_names(f: FieldDef) -> Seq<Seq<char>> {
    f.attrs@.map_values(|a: String| a@)
}

/// A field carries an attribute exactly when the name occurs anywhere in
/// its attribute list.
pub proof fn law_has_attr_anywhere(f: FieldDef, name: Seq<char>)
    ensures
        has_attr(f, name) <==> attr_names(f).contains(name),
{
    if has_attr(f, name) {
        let i = choose|i: int| 0 <= i < f.attrs@.len() && (#[trigger] f.attrs@[i])@ == name;
        assert(attr_names(f)[i] == name);
    }
    if attr_names(f).contains(name) {
        let i = choose|i: int| 0 <= i < attr_names(f).len() && attr_names(f)[i] == name;
        assert(f.attrs@[i]@ == name);
    }
}

/// Two fields with the same name and the same attribute names, in any
/// order, have the same roles: classification does not depend on the
/// order of attributes.
pub proof fn law_roles_ignore_attribute_order(f: FieldDef, g: FieldDef)
    requires
        f.name@ == g.name@,
        forall|n: Seq<char>| #[trigger] attr_names(f).contains(n) <==> attr_names(g).contains(n),
    ensures
        forall|n: Seq<char>| #[trigger] has_attr(f, n) == has_attr(g, n),
        is_source_field(f) == is_source_field(g),
        is_location_field(f) == is_location_field(g),
        is_user_field(f) == is_user_field(g),
{
    assert forall|n: Seq<char>| #[trigger] has_attr(f, n) == has_attr(g, n) by {
        law_has_attr_anywhere(f, n);
        law_has_attr_anywhere(g, n);
    }
    assert(has_attr(f, "source"@) == has_attr(g, "source"@));
    assert(has_attr(f, "stack_source"@) == has_attr(g, "stack_source"@));
    assert(has_attr(f, "location"@) == has_attr(g, "location"@));
}

/// The type's last path segment is `Option` with one type argument.
pub open spec fn names_option_of_one_type(t: crate::model::TypeDef) -> bool {
    match t.path_end {
        Some(pe) => pe.ident@ == "Option"@ && match pe.angle_args {
            Some(args) => args@.len() == 1 && args@[0] is Type,
            None => false,
        },
        None => false,
    }
}

/// A type is an `Option` exactly when its last path segment is `Option`
/// with one type argument, whose text is the inner type.
pub proof fn law_option_inner(t: crate::model::TypeDef)
    ensures
        option_inner(t) is Some <==> names_option_of_one_type(t),
        option_inner(t) matches Some(x) ==> t.path_end->0.angle_args->0@[0]->Type_0@ == x,
{
}

// ── The pieces of a constructor ──

/// A constructor returns `Self` directly unless it takes the source
/// through a closure, whose argument is the source's type (the inner type
/// for an optional source).
pub proof fn law_return_type(fs: Seq<FieldDef>, fill: SourceFill)
    ensures
        fill matches SourceFill::Taken(k) ==> return_text(fs, fill) == "impl ::std::ops::FnOnce("@
            + fs[k as int].ty.text@ + ") -> Self"@,
        fill matches SourceFill::Wrapped(k) ==> return_text(fs, fill) == "impl ::std::ops::FnOnce("@
            + option_inner(fs[k as int].ty)->0 + ") -> Self"@,
        (fill is Absent || fill is Empty) ==> return_text(fs, fill) == "Self"@,
{
}

/// The caller's location is captured exactly when there is a location
/// field.
pub proof fn law_capture(location: Option<usize>)
    ensures
        location is Some ==> capture_text(location) == "let location = ::std::panic::Location::caller();\n"@,
        location is None ==> capture_text(location) == Seq::<char>::empty(),
{
}

/// The source field is filled by the closure's argument, by `None`, or by
/// the argument wrapped in `Some`; the location field by the captured
/// location.
pub proof fn law_field_fills(fs: Seq<FieldDef>, fill: SourceFill, location: Option<usize>)
    ensures
        fill is Absent ==> source_init_text(fs, fill) == Seq::<char>::empty(),
        fill matches SourceFill::Taken(k) ==> source_init_text(fs, fill) == fs[k as int].name@ + ", "@,
        fill matches SourceFill::Empty(k) ==> source_init_text(fs, fill) == fs[k as int].name@
            + ": ::std::option::Option::None, "@,
        fill matches SourceFill::Wrapped(k) ==> source_init_text(fs, fill) == fs[k as int].name@
            + ": ::std::option::Option::Some("@ + fs[k as int].name@ + "), "@,
        location matches Some(k) ==> location_init_text(fs, location) == fs[k as int].name@ + ": location, "@,
        location is None ==> location_init_text(fs, location) == Seq::<char>::empty(),
{
}

/// A constructor is documented, marked `#[track_caller]`, takes the
/// caller-supplied fields as parameters, captures the location before it
/// builds the value or returns the closure, and the value lists the source,
/// the caller-supplied fields in order, then the location.
pub proof fn law_constructor_shape(
    fs: Seq<FieldDef>,
    users: Seq<usize>,
    location: Option<usize>,
    c: (Seq<char>, SourceFill),
    target: Seq<char>,
    doc: Seq<char>,
)
    ensures
        constructor_text(fs, users, location, c, target, doc) == "#[doc = \""@ + doc
            + "\"]\n#[track_caller]\npub(crate) fn "@ + c.0 + "("@ + params_text(fs, users) + ") -> "@
            + return_text(fs, c.1) + " {\n"@ + capture_text(location) + match c.1 {
            SourceFill::Taken(k) => "move |"@ + fs[k as int].name@ + "| "@,
            SourceFill::Wrapped(k) => "move |"@ + fs[k as int].name@ + "| "@,
            _ => Seq::<char>::empty(),
        } + target + " { "@ + source_init_text(fs, c.1) + inits_text(fs, users) + location_init_text(
            fs,
            location,
        ) + "}"@ + "\n}\n"@,
{
    let v = value_text(fs, users, location, c.1, target);
    let pre = "#[doc = \""@ + doc + "\"]\n#[track_caller]\npub(crate) fn "@ + c.0 + "("@ + params_text(fs, users)
        + ") -> "@ + return_text(fs, c.1) + " {\n"@ + capture_text(location);
    let mv = match c.1 {
        SourceFill::Taken(k) => "move |"@ + fs[k as int].name@ + "| "@,
        SourceFill::Wrapped(k) => "move |"@ + fs[k as int].name@ + "| "@,
        _ => Seq::<char>::empty(),
    };
    assert(body_text(fs, users, location, c.1, target) =~= mv + v);
    assert(constructor_text(fs, users, location, c, target, doc) =~= pre + mv + target + " { "@ + source_init_text(
        fs,
        c.1,
    ) + inits_text(fs, users) + location_init_text(fs, location) + "}"@ + "\n}\n"@);
}

/// The constructors are rendered one after another, in plan order.
pub proof fn law_constructors_in_order(
    fs: Seq<FieldDef>,
    users: Seq<usize>,
    location: Option<usize>,
    cs: Seq<(Seq<char>, SourceFill)>,
    target: Seq<char>,
    doc: Seq<char>,
)
    ensures
        cs.len() == 1 ==> constructors_text(fs, users, location, cs, 1, target, doc) == constructor_text(
            fs,
            users,
            location,
            cs[0],
            target,
            doc,
        ),
        cs.len() == 2 ==> constructors_text(fs, users, location, cs, 2, target, doc) == constructor_text(
            fs,
            users,
            location,
            cs[0],
            target,
            doc,
        ) + constructor_text(fs, users, location, cs[1], target, doc),
{
    if cs.len() >= 1 {
        assert(constructors_text(fs, users, location, cs, 0, target, doc) == Seq::<char>::empty());
        assert(constructors_text(fs, users, location, cs, 1, target, doc) =~= constructor_text(
            fs,
            users,
            location,
            cs[0],
            target,
            doc,
        ));
    }
}

// ── Roles and links ──

/// The roles of a field, in terms of its name and attributes.
pub proof fn law_field_roles(f: FieldDef)
    ensures
        is_source_field(f) <==> (f.name@ == "source"@ || has_attr(f, "source"@) || has_attr(f, "stack_source"@)),
        is_location_field(f) <==> (!is_source_field(f) && has_attr(f, "location"@)),
        is_user_field(f) <==> (!is_source_field(f) && !has_attr(f, "location"@)),
{
}

/// The source is a stack source exactly when the source field is marked
/// `#[stack_source]`; `stack_source` then follows it directly for a plain
/// source and through its content for an optional one.
pub proof fn law_stack_link_kind(fs: Seq<FieldDef>)
    ensures
        stack_flag(fs) <==> (source_index(fs) matches Some(k) && has_attr(fs[k as int], "stack_source"@)),
        stack_flag(fs) ==> (option_inner(fs[source_index(fs)->0 as int].ty) is None ==> planned_stack(
            fs,
            source_index(fs),
            stack_flag(fs),
        ) == StackLink::Direct(source_index(fs)->0)),
        stack_flag(fs) ==> (option_inner(fs[source_index(fs)->0 as int].ty) is Some ==> planned_stack(
            fs,
            source_index(fs),
            stack_flag(fs),
        ) == StackLink::Optional(source_index(fs)->0)),
        !stack_flag(fs) ==> planned_stack(fs, source_index(fs), stack_flag(fs)) == StackLink::Unlinked,
{
}

/// Where the outermost error has a location, its rendering gives it on
/// the next line, indented by six spaces.
pub proof fn law_head_location(loc: Option<crate::report::Location>)
    ensures
        loc matches Some(l) ==> crate::report::head_at_text(loc) == "\n      at "@ + location_line(l),
        loc is None ==> crate::report::head_at_text(loc) == Seq::<char>::empty(),
{
}

// ── Derive errors and documentation ──

/// A clash names the struct or variant and the role taken twice, and
/// points at the field that takes it the second time.
pub proof fn law_clash_message(context: Seq<char>, e: crate::fields::FieldsError)
    ensures
        e matches crate::fields::FieldsError::MultipleSources(i) ==> crate::derive::clash_message(context, e)
            == "variant `"@ + context + "` has multiple source fields"@ && crate::derive::clash_field(e) == i,
        e matches crate::fields::FieldsError::MultipleLocations(i) ==> crate::derive::clash_message(context, e)
            == "variant `"@ + context + "` has multiple location fields"@ && crate::derive::clash_field(e) == i,
{
}

/// Constructors are documented as constructing their variant or struct.
pub proof fn law_constructor_docs(name: Seq<char>)
    ensures
        crate::derive::variant_doc(name) == "Constructs a [`"@ + name + "`](Self::"@ + name + ") error."@,
        crate::derive::struct_doc(name) == "Constructs a [`"@ + name + "`]."@,
{
}

} // verus!
