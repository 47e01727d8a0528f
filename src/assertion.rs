//! The report of a failed assertion, put together from its relation, the form
//! it was asserted in and its rendered operands.
use crate::construct::Form;
use crate::relation::Relation;
use crate::report::{
    cmp_assert_fail, cmp_assert_fail_msg, cmp_tail, msg_view, report_lead, value_assert_fail,
    value_assert_fail_msg, value_tail,
};
use vstd::prelude::*;

verus! {

/// An operand as a report shows it: its debug rendering and the source text
/// of the expression that produced it.
#[derive(Debug, PartialEq, Eq)]
pub struct Operand {
    pub value: String,
    pub source: String,
}

/// The operands of one assertion.
#[derive(Debug, PartialEq, Eq)]
pub enum Operands {
    /// The single value of a one-operand relation.
    Value(Operand),
    /// The left and right operands of a two-operand relation.
    Pair(Operand, Operand),
}

impl Operands {
    pub open spec fn is_single(self) -> bool {
        self is Value
    }
}

/// A report of these operands after the construct's name.
pub open spec fn operands_tail(operands: Operands, msg: Option<Seq<char>>) -> Seq<char> {
    match operands {
        Operands::Value(v) => value_tail(v.value@, v.source@, msg),
        Operands::Pair(l, r) => cmp_tail(l.value@, r.value@, l.source@, r.source@, msg),
    }
}

/// The report of `relation`, asserted in `form`, failing on `operands` with
/// the message `msg`; `None` where the form has no name for the relation or
/// the operands are not as many as the relation takes.
pub open spec fn failure_report_of(
    relation: Relation,
    form: Form,
    operands: Operands,
    msg: Option<Seq<char>>,
) -> Option<Seq<char>> {
    match relation.construct_name(form) {
        None => None,
        Some(name) => {
            if operands.is_single() != relation.is_unary() {
                None
            } else {
                Some(report_lead() + name + operands_tail(operands, msg))
            }
        },
    }
}

impl Relation {
    /// The report raised when this relation, asserted in `form`, fails on
    /// `operands`, with the already formatted message `msg` if one was given.
    pub fn failure_report(self, form: Form, operands: &Operands, msg: Option<&str>) -> (r: Option<
        String,
    >)
        ensures
            r is Some <==> failure_report_of(self, form, *operands, msg_view(msg)) is Some,
            r is Some ==> r->0@ == failure_report_of(self, form, *operands, msg_view(msg))->0,
    {
        let name = match self.name(form) {
            Some(n) => n,
            None => {
                return None;
            },
        };
        let single = match operands {
            Operands::Value(_) => true,
            Operands::Pair(_, _) => false,
        };
        if single != self.is_single_operand() {
            return None;
        }
        let text = match (operands, msg) {
            (Operands::Value(v), None) => value_assert_fail(
                name.as_str(),
                v.value.as_str(),
                v.source.as_str(),
            ),
            (Operands::Value(v), Some(m)) => value_assert_fail_msg(
                name.as_str(),
                v.value.as_str(),
                v.source.as_str(),
                m,
            ),
            (Operands::Pair(l, r), None) => cmp_assert_fail(
                name.as_str(),
                l.value.as_str(),
                r.value.as_str(),
                l.source.as_str(),
                r.source.as_str(),
            ),
            (Operands::Pair(l, r), Some(m)) => cmp_assert_fail_msg(
                name.as_str(),
                l.value.as_str(),
                r.value.as_str(),
                l.source.as_str(),
                r.source.as_str(),
                m,
            ),
        };
        Some(text)
    }
}

} // verus!
