//! What holds of every relation, every form and every report.
use crate::assertion::{failure_report_of, operands_tail, Operands};
use crate::construct::{debug_prefix, Form};
use crate::relation::{Observation, Relation};
use crate::report::{header_rest, report_lead};
use core::cmp::Ordering;
use vstd::prelude::*;

verus! {

/// Whether `part` occurs in `text` as one contiguous run.
pub open spec fn occurs_in(part: Seq<char>, text: Seq<char>) -> bool {
    exists|i: int|
        0 <= i && i + part.len() <= text.len() && #[trigger] text.subrange(i, i + part.len()) == part
}

/// The ordering of two integers.
pub open spec fn order_of(a: int, b: int) -> Ordering {
    if a < b {
        Ordering::Less
    } else if a == b {
        Ordering::Equal
    } else {
        Ordering::Greater
    }
}

/// What a caller observes for `relation` of the integer operands `a` and
/// `b`; `near` is the approximate-comparison provider's answer, which the
/// approximate relations read.
pub open spec fn observe(relation: Relation, a: int, b: int, near: bool) -> Observation {
    match relation {
        Relation::Equal | Relation::NotEqual => Observation::Equality(a == b),
        Relation::Less
        | Relation::LessOrEqual
        | Relation::Greater
        | Relation::GreaterOrEqual => Observation::Order(Some(order_of(a, b))),
        _ => Observation::Nearness(near),
    }
}

/// Whether the operands stand in `relation`, in plain arithmetic.
pub open spec fn related(relation: Relation, a: int, b: int, near: bool) -> bool {
    match relation {
        Relation::Equal => a == b,
        Relation::NotEqual => a != b,
        Relation::Less => a < b,
        Relation::LessOrEqual => a <= b,
        Relation::Greater => a > b,
        Relation::GreaterOrEqual => a >= b,
        Relation::AlmostEqual | Relation::AlmostZero | Relation::AlmostZeroWithTolerance => near,
        Relation::NotAlmostEqual | Relation::NotAlmostZero | Relation::NotAlmostZeroWith => !near,
    }
}

/// Whether a report shows every operand's source text and debug rendering.
pub open spec fn shows_operands(report: Seq<char>, operands: Operands) -> bool {
    match operands {
        Operands::Value(v) => occurs_in(v.value@, report) && occurs_in(v.source@, report),
        Operands::Pair(l, r) => {
            &&& occurs_in(l.value@, report)
            &&& occurs_in(l.source@, report)
            &&& occurs_in(r.value@, report)
            &&& occurs_in(r.source@, report)
        },
    }
}

/// Whether two reports are the same text but for the construct's name that
/// each carries right after the common lead.
pub open spec fn differ_only_in_name(
    a: Seq<char>,
    name_a: Seq<char>,
    b: Seq<char>,
    name_b: Seq<char>,
) -> bool {
    let k = report_lead().len() as int;
    &&& k + name_a.len() <= a.len()
    &&& k + name_b.len() <= b.len()
    &&& a.subrange(0, k) == b.subrange(0, k)
    &&& a.subrange(k, k + name_a.len()) == name_a
    &&& b.subrange(k, k + name_b.len()) == name_b
    &&& a.subrange(k + name_a.len(), a.len() as int) == b.subrange(
        k + name_b.len(),
        b.len() as int,
    )
}

proof fn lemma_occurs_between(x: Seq<char>, part: Seq<char>, y: Seq<char>)
    ensures
        occurs_in(part, x + part + y),
{
    let text = x + part + y;
    assert(text.subrange(x.len() as int, x.len() + part.len() as int) =~= part);
}

proof fn lemma_report_layout(
    relation: Relation,
    form: Form,
    operands: Operands,
    msg: Option<Seq<char>>,
)
    requires
        failure_report_of(relation, form, operands, msg) is Some,
    ensures
        ({
            let r = failure_report_of(relation, form, operands, msg)->0;
            let n = relation.construct_name(form)->0;
            let k = report_lead().len() as int;
            &&& k + n.len() <= r.len()
            &&& r.subrange(0, k as int) == report_lead()
            &&& r.subrange(k as int, k + n.len()) == n
            &&& r.subrange(k + n.len(), r.len() as int) == operands_tail(operands, msg)
        }),
{
    let r = failure_report_of(relation, form, operands, msg)->0;
    let n = relation.construct_name(form)->0;
    let k = report_lead().len() as int;
    assert(r.subrange(0, k as int) =~= report_lead());
    assert(r.subrange(k as int, k + n.len()) =~= n);
    assert(r.subrange(k + n.len(), r.len() as int) =~= operands_tail(operands, msg));
}

proof fn lemma_forms_differ_only_in_name(
    relation: Relation,
    f: Form,
    g: Form,
    operands: Operands,
    msg: Option<Seq<char>>,
)
    requires
        failure_report_of(relation, f, operands, msg) is Some,
        failure_report_of(relation, g, operands, msg) is Some,
    ensures
        differ_only_in_name(
            failure_report_of(relation, f, operands, msg)->0,
            relation.construct_name(f)->0,
            failure_report_of(relation, g, operands, msg)->0,
            relation.construct_name(g)->0,
        ),
{
    lemma_report_layout(relation, f, operands, msg);
    lemma_report_layout(relation, g, operands, msg);
}

/// A failed assertion's report shows the construct's name and, for every
/// operand, its source text and its debug rendering.
pub proof fn lemma_report_shows_name_and_operands(
    relation: Relation,
    form: Form,
    operands: Operands,
    msg: Option<Seq<char>>,
)
    requires
        relation.construct_name(form) is Some,
        operands.is_single() == relation.is_unary(),
    ensures
        failure_report_of(relation, form, operands, msg) is Some,
        occurs_in(relation.construct_name(form)->0, failure_report_of(relation, form, operands, msg)->0),
        shows_operands(failure_report_of(relation, form, operands, msg)->0, operands),
{
    let n = relation.construct_name(form)->0;
    let r = failure_report_of(relation, form, operands, msg)->0;
    let lead = report_lead();
    lemma_occurs_between(lead, n, operands_tail(operands, msg));
    match operands {
        Operands::Value(v) => {
            let rest = header_rest("value"@, msg);
            let x = lead + n + rest + "\n value: `"@;
            assert(r =~= x + v.value@ + ("` = `"@ + v.source@ + "`"@));
            lemma_occurs_between(x, v.value@, "` = `"@ + v.source@ + "`"@);
            let x2 = x + v.value@ + "` = `"@;
            assert(r =~= x2 + v.source@ + "`"@);
            lemma_occurs_between(x2, v.source@, "`"@);
        },
        Operands::Pair(left, right) => {
            let rest = header_rest("left, right"@, msg);
            let x = lead + n + rest + "\n  left: `"@;
            let y = "` = `"@ + left.source@ + "`,\n right: `"@ + right.value@ + "` = `"@
                + right.source@ + "`"@;
            assert(r =~= x + left.value@ + y);
            lemma_occurs_between(x, left.value@, y);
            let x2 = x + left.value@ + "` = `"@;
            let y2 = "`,\n right: `"@ + right.value@ + "` = `"@ + right.source@ + "`"@;
            assert(r =~= x2 + left.source@ + y2);
            lemma_occurs_between(x2, left.source@, y2);
            let x3 = x2 + left.source@ + "`,\n right: `"@;
            let y3 = "` = `"@ + right.source@ + "`"@;
            assert(r =~= x3 + right.value@ + y3);
            lemma_occurs_between(x3, right.value@, y3);
            let x4 = x3 + right.value@ + "` = `"@;
            assert(r =~= x4 + right.source@ + "`"@);
            lemma_occurs_between(x4, right.source@, "`"@);
        },
    }
}

/// Operands that stand in the relation pass its check.
pub proof fn lemma_related_operands_pass(relation: Relation, a: int, b: int, near: bool)
    requires
        related(relation, a, b, near),
    ensures
        relation.holds_on(observe(relation, a, b, near)),
{
}

/// Operands that do not stand in the relation fail its check, and the report
/// of that failure, in any form that names the relation, shows the
/// construct's name and every operand's source text and debug rendering.
pub proof fn lemma_unrelated_operands_fail(
    relation: Relation,
    a: int,
    b: int,
    near: bool,
    form: Form,
    operands: Operands,
    msg: Option<Seq<char>>,
)
    requires
        !related(relation, a, b, near),
        relation.construct_name(form) is Some,
        operands.is_single() == relation.is_unary(),
    ensures
        !relation.holds_on(observe(relation, a, b, near)),
        failure_report_of(relation, form, operands, msg) is Some,
        occurs_in(relation.construct_name(form)->0, failure_report_of(relation, form, operands, msg)->0),
        shows_operands(failure_report_of(relation, form, operands, msg)->0, operands),
{
    lemma_report_shows_name_and_operands(relation, form, operands, msg);
}

/// A debug-gated construct runs exactly when debug assertions are on, where
/// its ungated counterpart always runs; both check the same relation, and
/// their reports differ only in the name, which is the counterpart's name
/// behind `debug_`.
pub proof fn lemma_debug_twin(
    relation: Relation,
    form: Form,
    debug_assertions: bool,
    operands: Operands,
    msg: Option<Seq<char>>,
)
    requires
        !form.is_gated(),
    ensures
        form.runs(debug_assertions),
        form.gated_twin().runs(debug_assertions) == debug_assertions,
        relation.construct_name(form.gated_twin()) is Some <==> relation.construct_name(form) is Some,
        relation.construct_name(form) is Some ==> relation.construct_name(form.gated_twin())->0
            == debug_prefix() + relation.construct_name(form)->0,
        failure_report_of(relation, form.gated_twin(), operands, msg) is Some
            <==> failure_report_of(relation, form, operands, msg) is Some,
        failure_report_of(relation, form, operands, msg) is Some ==> differ_only_in_name(
            failure_report_of(relation, form, operands, msg)->0,
            relation.construct_name(form)->0,
            failure_report_of(relation, form.gated_twin(), operands, msg)->0,
            relation.construct_name(form.gated_twin())->0,
        ),
{
    if failure_report_of(relation, form, operands, msg) is Some {
        lemma_forms_differ_only_in_name(relation, form, form.gated_twin(), operands, msg);
    }
}

/// A relation's synonym reports a failure exactly as its primary name does,
/// but for the name in the header, gated or not.
pub proof fn lemma_alias_reports_like_primary(
    relation: Relation,
    operands: Operands,
    msg: Option<Seq<char>>,
)
    requires
        relation.alias_name() is Some,
        operands.is_single() == relation.is_unary(),
    ensures
        differ_only_in_name(
            failure_report_of(relation, Form::Primary, operands, msg)->0,
            relation.primary_name(),
            failure_report_of(relation, Form::Alias, operands, msg)->0,
            relation.alias_name()->0,
        ),
        differ_only_in_name(
            failure_report_of(relation, Form::DebugPrimary, operands, msg)->0,
            debug_prefix() + relation.primary_name(),
            failure_report_of(relation, Form::DebugAlias, operands, msg)->0,
            debug_prefix() + relation.alias_name()->0,
        ),
{
    lemma_forms_differ_only_in_name(relation, Form::Primary, Form::Alias, operands, msg);
    lemma_forms_differ_only_in_name(relation, Form::DebugPrimary, Form::DebugAlias, operands, msg);
}

} // verus!
