//! Field-level validation failures and the set that groups them by field.
use vstd::prelude::*;
use vstd::string::*;
use crate::json::{
    json_string_of, joined, lemma_joined_push, push_json_string, push_signed_decimal,
    signed_decimal,
};

verus! {

/// A scalar parameter of a violation, such as the bound a length rule checks.
#[derive(Debug)]
pub enum ParamValue {
    Null,
    Bool(bool),
    Int(i64),
    Text(String),
    /// Any other value (a fraction, a list), held as the JSON text that
    /// denotes it; the text is placed in the body as it is.
    Json(String),
}

/// A named parameter of a violation.
#[derive(Debug)]
pub struct Param {
    pub name: String,
    pub value: ParamValue,
}

/// One rule failure on one field.
#[derive(Debug)]
pub struct FieldViolation {
    /// Machine-readable name of the rule that failed, such as `length`.
    pub code: String,
    pub message: Option<String>,
    pub params: Vec<Param>,
}

/// The violations recorded for one field, in the order they were detected.
#[derive(Debug)]
pub struct FieldErrors {
    pub field: String,
    pub violations: Vec<FieldViolation>,
}

/// Violations grouped by field: one entry per field, fields in the order of
/// their first violation, and each field's violations in detection order.
#[derive(Debug)]
pub struct ValidationErrorSet {
    entries: Vec<FieldErrors>,
}

/// The abstract content of a set: (field name, violations) pairs.
pub type ErrorEntries = Seq<(Seq<char>, Seq<FieldViolation>)>;

pub open spec fn entry_view(e: FieldErrors) -> (Seq<char>, Seq<FieldViolation>) {
    (e.field@, e.violations@)
}

/// No field name occurs twice and no field has an empty list.
pub open spec fn entries_wf(s: ErrorEntries) -> bool {
    &&& forall|i: int, j: int| 0 <= i < j < s.len() ==> s[i].0 != s[j].0
    &&& forall|i: int| 0 <= i < s.len() ==> s[i].1.len() > 0
}

pub open spec fn has_field(s: ErrorEntries, field: Seq<char>) -> bool {
    exists|i: int| 0 <= i < s.len() && s[i].0 == field
}

pub open spec fn field_position(s: ErrorEntries, field: Seq<char>) -> int {
    choose|i: int| 0 <= i < s.len() && s[i].0 == field
}

/// The violations that `s` records for `field` (none if it has no entry).
pub open spec fn violations_for(s: ErrorEntries, field: Seq<char>) -> Seq<FieldViolation> {
    if has_field(s, field) {
        s[field_position(s, field)].1
    } else {
        Seq::empty()
    }
}

/// `s` after recording violation `v` on `field`: appended to the field's
/// entry, or a new entry at the end when the field has none yet.
pub open spec fn with_violation(s: ErrorEntries, field: Seq<char>, v: FieldViolation) -> ErrorEntries {
    if has_field(s, field) {
        let i = field_position(s, field);
        s.update(i, (field, s[i].1.push(v)))
    } else {
        s.push((field, seq![v]))
    }
}

/// The set built by recording each detected violation in turn.
pub open spec fn collected(detected: Seq<(Seq<char>, FieldViolation)>) -> ErrorEntries
    decreases detected.len(),
{
    if detected.len() == 0 {
        Seq::empty()
    } else {
        let last = detected.last();
        with_violation(collected(detected.drop_last()), last.0, last.1)
    }
}

/// The detected violations with each field name taken as text.
pub open spec fn detected_view(detected: Seq<(String, FieldViolation)>) -> Seq<
    (Seq<char>, FieldViolation),
> {
    detected.map_values(|d: (String, FieldViolation)| (d.0@, d.1))
}

/// The violations detected on `field`, in detection order.
pub open spec fn detected_on(detected: Seq<(Seq<char>, FieldViolation)>, field: Seq<char>) -> Seq<
    FieldViolation,
>
    decreases detected.len(),
{
    if detected.len() == 0 {
        Seq::empty()
    } else {
        let rest = detected_on(detected.drop_last(), field);
        if detected.last().0 == field {
            rest.push(detected.last().1)
        } else {
            rest
        }
    }
}

pub open spec fn param_value_json(v: ParamValue) -> Seq<char> {
    match v {
        ParamValue::Null => "null"@,
        ParamValue::Bool(b) => if b {
            "true"@
        } else {
            "false"@
        },
        ParamValue::Int(n) => signed_decimal(n as int),
        ParamValue::Text(s) => json_string_of(s@),
        ParamValue::Json(raw) => raw@,
    }
}

pub open spec fn param_json(p: Param) -> Seq<char> {
    json_string_of(p.name@) + ":"@ + param_value_json(p.value)
}

pub open spec fn message_json(m: Option<String>) -> Seq<char> {
    match m {
        Some(s) => json_string_of(s@),
        None => "null"@,
    }
}

/// `{"code": .., "message": .., "params": {..}}`
pub open spec fn violation_json(v: FieldViolation) -> Seq<char> {
    "{\"code\":"@ + json_string_of(v.code@) + ",\"message\":"@ + message_json(v.message)
        + ",\"params\":{"@ + joined(v.params@, |p: Param| param_json(p)) + "}}"@
}

/// `"field": [violation, ..]`
pub open spec fn entry_json(e: (Seq<char>, Seq<FieldViolation>)) -> Seq<char> {
    json_string_of(e.0) + ":["@ + joined(e.1, |v: FieldViolation| violation_json(v)) + "]"@
}

/// The JSON object that maps each field to the list of its violations.
pub open spec fn entries_json(s: ErrorEntries) -> Seq<char> {
    "{"@ + joined(s, |e: (Seq<char>, Seq<FieldViolation>)| entry_json(e)) + "}"@
}

fn push_param_value(out: &mut String, v: &ParamValue)
    ensures
        final(out)@ == old(out)@ + param_value_json(*v),
{
    match v {
        ParamValue::Null => out.append("null"),
        ParamValue::Bool(b) => if *b {
            out.append("true")
        } else {
            out.append("false")
        },
        ParamValue::Int(n) => push_signed_decimal(out, *n),
        ParamValue::Text(s) => push_json_string(out, s.as_str()),
        ParamValue::Json(raw) => out.append(raw.as_str()),
    }
}

impl FieldViolation {
    /// A violation of the rule named `code`, with no message and no parameters.
    pub fn new(code: String) -> (r: FieldViolation)
        ensures
            r.code == code,
            r.message is None,
            r.params@.len() == 0,
    {
        FieldViolation { code, message: None, params: Vec::new() }
    }

    /// The same violation with a message.
    pub fn with_message(self, message: String) -> (r: FieldViolation)
        ensures
            r.code == self.code,
            r.message == Some(message),
            r.params == self.params,
    {
        FieldViolation { message: Some(message), ..self }
    }

    /// Adds a parameter after those already present.
    pub fn add_param(&mut self, name: String, value: ParamValue)
        ensures
            final(self).code == old(self).code,
            final(self).message == old(self).message,
            final(self).params@ == old(self).params@.push(Param { name, value }),
    {
        self.params.push(Param { name, value });
    }

    /// Renders `{"code": .., "message": .., "params": {..}}`.
    pub fn to_json(&self) -> (r: String)
        ensures
            r@ == violation_json(*self),
    {
        let mut out = String::new();
        out.append("{\"code\":");
        push_json_string(&mut out, self.code.as_str());
        out.append(",\"message\":");
        match &self.message {
            Some(m) => push_json_string(&mut out, m.as_str()),
            None => out.append("null"),
        }
        out.append(",\"params\":{");
        let ghost start = out@;
        let ghost f = |p: Param| param_json(p);
        let mut i: usize = 0;
        while i < self.params.len()
            invariant
                i <= self.params@.len(),
                forall|q: Param| #[trigger] f(q) == param_json(q),
                out@ == start + joined(self.params@.subrange(0, i as int), f),
            decreases self.params@.len() - i,
        {
            proof {
                lemma_joined_push(self.params@, f, i as int);
            }
            if i > 0 {
                out.append(",");
            }
            let p = &self.params[i];
            push_json_string(&mut out, p.name.as_str());
            out.append(":");
            push_param_value(&mut out, &p.value);
            proof {
                assert(*p == self.params@[i as int]);
                assert(f(*p) == param_json(*p));
                assert(out@ =~= start + joined(self.params@.subrange(0, i + 1), f));
            }
            i = i + 1;
        }
        out.append("}}");
        proof {
            assert(self.params@.subrange(0, i as int) =~= self.params@);
            assert(out@ =~= violation_json(*self));
        }
        out
    }
}

/// Recording a violation keeps the set well formed, appends the violation
/// to its own field's list and leaves every other field's list unchanged.
pub proof fn lemma_with_violation(s: ErrorEntries, field: Seq<char>, v: FieldViolation)
    requires
        entries_wf(s),
    ensures
        entries_wf(with_violation(s, field, v)),
        forall|g: Seq<char>|
            #[trigger] has_field(with_violation(s, field, v), g) <==> (has_field(s, g) || g
                == field),
        forall|g: Seq<char>|
            #[trigger] violations_for(with_violation(s, field, v), g) == if g == field {
                violations_for(s, g).push(v)
            } else {
                violations_for(s, g)
            },
{
    let r = with_violation(s, field, v);
    if has_field(s, field) {
        let i = field_position(s, field);
        assert(r.len() == s.len());
        assert(forall|k: int| 0 <= k < r.len() ==> r[k].0 == s[k].0);
        assert forall|g: Seq<char>| #[trigger] has_field(r, g) <==> (has_field(s, g) || g == field) by {
            if has_field(s, g) {
                let k = field_position(s, g);
                assert(r[k].0 == g);
            }
            if has_field(r, g) {
                let k = field_position(r, g);
                assert(s[k].0 == g);
            }
        }
        assert forall|g: Seq<char>| #[trigger]
            violations_for(r, g) == if g == field {
                violations_for(s, g).push(v)
            } else {
                violations_for(s, g)
            } by {
            if has_field(r, g) {
                let j = field_position(r, g);
                let k = field_position(s, g);
                assert(s[j].0 == g);
                assert(j == k);
                if g == field {
                    assert(j == i);
                } else {
                    assert(j != i);
                }
            }
        }
    } else {
        assert forall|g: Seq<char>| #[trigger] has_field(r, g) <==> (has_field(s, g) || g == field) by {
            if has_field(s, g) {
                let k = field_position(s, g);
                assert(r[k].0 == g);
            }
            if g == field {
                assert(r[s.len() as int].0 == g);
            }
            if has_field(r, g) && g != field {
                let k = field_position(r, g);
                assert(k < s.len());
                assert(s[k].0 == g);
            }
        }
        assert forall|g: Seq<char>| #[trigger]
            violations_for(r, g) == if g == field {
                violations_for(s, g).push(v)
            } else {
                violations_for(s, g)
            } by {
            if g == field {
                let j = field_position(r, g);
                assert(r[s.len() as int].0 == g);
                assert(j == s.len());
                assert(seq![v] =~= Seq::<FieldViolation>::empty().push(v));
            } else if has_field(r, g) {
                let j = field_position(r, g);
                let k = field_position(s, g);
                assert(j < s.len());
                assert(s[j].0 == g);
                assert(j == k);
            }
        }
    }
}

/// The set collected from detected violations holds, for every field, exactly
/// the violations detected on that field, in detection order, and has an entry
/// exactly for the fields on which something was detected.
pub proof fn lemma_collected(detected: Seq<(Seq<char>, FieldViolation)>)
    ensures
        entries_wf(collected(detected)),
        forall|g: Seq<char>| #[trigger]
            violations_for(collected(detected), g) == detected_on(detected, g),
        forall|g: Seq<char>| #[trigger]
            has_field(collected(detected), g) <==> detected_on(detected, g).len() > 0,
    decreases detected.len(),
{
    if detected.len() > 0 {
        let rest = detected.drop_last();
        let last = detected.last();
        lemma_collected(rest);
        lemma_with_violation(collected(rest), last.0, last.1);
        assert forall|g: Seq<char>| #[trigger]
            violations_for(collected(detected), g) == detected_on(detected, g) by {
            assert(violations_for(collected(rest), g) == detected_on(rest, g));
        }
        assert forall|g: Seq<char>| #[trigger]
            has_field(collected(detected), g) <==> detected_on(detected, g).len() > 0 by {
            assert(has_field(collected(rest), g) <==> detected_on(rest, g).len() > 0);
        }
    }
}

impl FieldErrors {
    /// Renders `"field": [violation, ..]`.
    pub fn to_json(&self) -> (r: String)
        ensures
            r@ == entry_json(entry_view(*self)),
    {
        let mut out = String::new();
        push_json_string(&mut out, self.field.as_str());
        out.append(":[");
        let ghost start = out@;
        let ghost f = |v: FieldViolation| violation_json(v);
        let mut i: usize = 0;
        while i < self.violations.len()
            invariant
                i <= self.violations@.len(),
                forall|v: FieldViolation| #[trigger] f(v) == violation_json(v),
                out@ == start + joined(self.violations@.subrange(0, i as int), f),
            decreases self.violations@.len() - i,
        {
            proof {
                lemma_joined_push(self.violations@, f, i as int);
            }
            if i > 0 {
                out.append(",");
            }
            let v = &self.violations[i];
            let text = v.to_json();
            out.append(text.as_str());
            proof {
                assert(*v == self.violations@[i as int]);
                assert(out@ =~= start + joined(self.violations@.subrange(0, i + 1), f));
            }
            i = i + 1;
        }
        out.append("]");
        proof {
            assert(self.violations@.subrange(0, i as int) =~= self.violations@);
            assert(out@ =~= entry_json(entry_view(*self)));
        }
        out
    }
}

impl View for ValidationErrorSet {
    type V = ErrorEntries;

    closed spec fn view(&self) -> ErrorEntries {
        self.entries@.map_values(|e: FieldErrors| entry_view(e))
    }
}

impl ValidationErrorSet {
    #[verifier::type_invariant]
    spec fn wf(&self) -> bool {
        entries_wf(self@)
    }

    /// The empty set.
    pub fn new() -> (r: ValidationErrorSet)
        ensures
            r@ == Seq::<(Seq<char>, Seq<FieldViolation>)>::empty(),
    {
        let r = ValidationErrorSet { entries: Vec::new() };
        proof {
            assert(r@ =~= Seq::<(Seq<char>, Seq<FieldViolation>)>::empty());
        }
        r
    }

    /// True when no violation is recorded.
    pub fn is_empty(&self) -> (r: bool)
        ensures
            r == (self@.len() == 0),
    {
        self.entries.len() == 0
    }

    /// The number of fields with violations.
    pub fn len(&self) -> (r: usize)
        ensures
            r == self@.len(),
    {
        self.entries.len()
    }

    /// The entries, one per field.
    pub fn entries(&self) -> (r: &Vec<FieldErrors>)
        ensures
            r@.map_values(|e: FieldErrors| entry_view(e)) == self@,
    {
        &self.entries
    }

    /// Records `violation` on `field`, after the violations already recorded
    /// on it; a field seen for the first time gets a new entry at the end.
    pub fn add(&mut self, field: String, violation: FieldViolation)
        ensures
            final(self)@ == with_violation(old(self)@, field@, violation),
    {
        proof {
            use_type_invariant(&*self);
        }
        let ghost before = self@;
        let mut es: Vec<FieldErrors> = Vec::new();
        std::mem::swap(&mut es, &mut self.entries);
        assert(es@.map_values(|e: FieldErrors| entry_view(e)) == before);
        let mut i: usize = 0;
        let mut found = false;
        while i < es.len() && !found
            invariant
                i <= es@.len(),
                es@.map_values(|e: FieldErrors| entry_view(e)) == before,
                entries_wf(before),
                forall|k: int| 0 <= k < i ==> before[k].0 != field@,
                found ==> i < es@.len() && before[i as int].0 == field@,
            decreases es@.len() - i + if found { 0int } else { 1int },
        {
            if es[i].field == field {
                found = true;
            } else {
                i = i + 1;
            }
        }
        if found {
            let mut e = es.remove(i);
            e.violations.push(violation);
            es.insert(i, e);
            proof {
                assert(has_field(before, field@));
                let p = field_position(before, field@);
                assert(p == i);
                assert(es@.map_values(|e: FieldErrors| entry_view(e)) =~= with_violation(
                    before,
                    field@,
                    violation,
                ));
            }
        } else {
            proof {
                assert(!has_field(before, field@));
            }
            let mut violations: Vec<FieldViolation> = Vec::new();
            violations.push(violation);
            es.push(FieldErrors { field, violations });
            proof {
                assert(violations@ =~= seq![violation]);
                assert(es@.map_values(|e: FieldErrors| entry_view(e)) =~= with_violation(
                    before,
                    field@,
                    violation,
                ));
            }
        }
        proof {
            lemma_with_violation(before, field@, violation);
        }
        self.entries = es;
    }

    /// Renders the JSON object that maps each field to its violations.
    pub fn to_json(&self) -> (r: String)
        ensures
            r@ == entries_json(self@),
    {
        let mut out = String::new();
        out.append("{");
        let ghost start = out@;
        let ghost f = |e: (Seq<char>, Seq<FieldViolation>)| entry_json(e);
        let mut i: usize = 0;
        while i < self.entries.len()
            invariant
                i <= self@.len(),
                self@.len() == self.entries@.len(),
                forall|e: (Seq<char>, Seq<FieldViolation>)| #[trigger] f(e) == entry_json(e),
                out@ == start + joined(self@.subrange(0, i as int), f),
            decreases self@.len() - i,
        {
            proof {
                lemma_joined_push(self@, f, i as int);
            }
            if i > 0 {
                out.append(",");
            }
            let e = &self.entries[i];
            let text = e.to_json();
            out.append(text.as_str());
            proof {
                assert(entry_view(*e) == self@[i as int]);
                assert(out@ =~= start + joined(self@.subrange(0, i + 1), f));
            }
            i = i + 1;
        }
        out.append("}");
        proof {
            assert(self@.subrange(0, i as int) =~= self@);
            assert(out@ =~= entries_json(self@));
        }
        out
    }

    /// Groups violations, given with their fields in detection order.
    pub fn collect(detected: Vec<(String, FieldViolation)>) -> (r: ValidationErrorSet)
        ensures
            r@ == collected(detected_view(detected@)),
    {
        let ghost all = detected_view(detected@);
        let ghost n = detected@.len();
        let mut set = ValidationErrorSet::new();
        let mut rest = detected;
        while rest.len() > 0
            invariant
                rest@.len() <= n,
                detected_view(rest@) == all.subrange(n - rest@.len(), n as int),
                set@ == collected(all.subrange(0, n - rest@.len())),
                all.len() == n,
            decreases rest@.len(),
        {
            let ghost k = n - rest@.len();
            let ghost old_rest = rest@;
            let (field, violation) = rest.remove(0);
            proof {
                assert(detected_view(old_rest)[0] == all[k]);
                assert(all.subrange(0, k + 1).drop_last() =~= all.subrange(0, k));
                assert(rest@ =~= old_rest.subrange(1, old_rest.len() as int));
                assert forall|j: int| 0 <= j < rest@.len() implies #[trigger] detected_view(rest@)[j]
                    == all[k + 1 + j] by {
                    assert(rest@[j] == old_rest[j + 1]);
                    assert(detected_view(old_rest)[j + 1] == all[k + 1 + j]);
                }
                assert(detected_view(rest@) =~= all.subrange(n - rest@.len(), n as int));
            }
            set.add(field, violation);
        }
        proof {
            assert(all.subrange(0, n as int) =~= all);
        }
        set
    }
}

} // verus!
