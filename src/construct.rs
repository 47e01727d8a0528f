//! The names under which each relation is offered, and the debug gate.
use crate::relation::Relation;
use vstd::prelude::*;

verus! {

/// One of the four spellings under which a relation can be asserted.
#[derive(Clone, Copy, Debug, PartialEq, Eq, Structural)]
pub enum Form {
    /// The relation's own name, always checked (`equal`).
    Primary,
    /// The short synonym, always checked (`eq`).
    Alias,
    /// The primary name behind the debug gate (`debug_equal`).
    DebugPrimary,
    /// The synonym behind the debug gate (`debug_eq`).
    DebugAlias,
}

impl Form {
    pub open spec fn is_gated(self) -> bool {
        self is DebugPrimary || self is DebugAlias
    }

    pub open spec fn uses_alias(self) -> bool {
        self is Alias || self is DebugAlias
    }

    /// Whether a construct of this form runs in a build whose debug
    /// assertions are on (`true`) or off (`false`).
    pub open spec fn runs(self, debug_assertions: bool) -> bool {
        !self.is_gated() || debug_assertions
    }

    /// The debug-gated twin of an ungated form.
    pub open spec fn gated_twin(self) -> Form {
        match self {
            Form::Primary => Form::DebugPrimary,
            Form::Alias => Form::DebugAlias,
            _ => self,
        }
    }

    /// Whether a construct of this form runs, operands and all, in a build
    /// whose debug assertions are on (`true`) or off (`false`).
    pub fn enabled(self, debug_assertions: bool) -> (r: bool)
        ensures
            r == self.runs(debug_assertions),
    {
        match self {
            Form::Primary | Form::Alias => true,
            Form::DebugPrimary | Form::DebugAlias => debug_assertions,
        }
    }
}

pub open spec fn debug_prefix() -> Seq<char> {
    "debug_"@
}

impl Relation {
    /// The relation's primary name.
    pub open spec fn primary_name(self) -> Seq<char> {
        match self {
            Relation::Equal => "equal"@,
            Relation::NotEqual => "not_equal"@,
            Relation::Less => "less"@,
            Relation::LessOrEqual => "less_or_equal"@,
            Relation::Greater => "greater"@,
            Relation::GreaterOrEqual => "greater_or_equal"@,
            Relation::AlmostEqual => "almost_equal"@,
            Relation::NotAlmostEqual => "not_almost_equal"@,
            Relation::AlmostZero => "almost_zero"@,
            Relation::AlmostZeroWithTolerance => "almost_zero_with_tolerance"@,
            Relation::NotAlmostZero => "not_almost_zero"@,
            Relation::NotAlmostZeroWith => "not_almost_zero_with"@,
        }
    }

    /// The relation's short synonym, where it has one.
    pub open spec fn alias_name(self) -> Option<Seq<char>> {
        match self {
            Relation::Equal => Some("eq"@),
            Relation::NotEqual => Some("ne"@),
            Relation::Less => Some("lt"@),
            Relation::LessOrEqual => Some("le"@),
            Relation::Greater => Some("gt"@),
            Relation::GreaterOrEqual => Some("ge"@),
            _ => None,
        }
    }

    /// The name of the construct that asserts this relation in the given form;
    /// `None` where the form asks for a synonym that the relation lacks.
    pub open spec fn construct_name(self, form: Form) -> Option<Seq<char>> {
        let base = if form.uses_alias() {
            self.alias_name()
        } else {
            Some(self.primary_name())
        };
        match base {
            Some(n) => Some(if form.is_gated() { debug_prefix() + n } else { n }),
            None => None,
        }
    }

    /// The relation's primary name.
    pub fn primary(self) -> (r: &'static str)
        ensures
            r@ == self.primary_name(),
    {
        match self {
            Relation::Equal => "equal",
            Relation::NotEqual => "not_equal",
            Relation::Less => "less",
            Relation::LessOrEqual => "less_or_equal",
            Relation::Greater => "greater",
            Relation::GreaterOrEqual => "greater_or_equal",
            Relation::AlmostEqual => "almost_equal",
            Relation::NotAlmostEqual => "not_almost_equal",
            Relation::AlmostZero => "almost_zero",
            Relation::AlmostZeroWithTolerance => "almost_zero_with_tolerance",
            Relation::NotAlmostZero => "not_almost_zero",
            Relation::NotAlmostZeroWith => "not_almost_zero_with",
        }
    }

    /// The relation's short synonym, where it has one.
    pub fn alias(self) -> (r: Option<&'static str>)
        ensures
            r is Some <==> self.alias_name() is Some,
            r is Some ==> r->0@ == self.alias_name()->0,
    {
        match self {
            Relation::Equal => Some("eq"),
            Relation::NotEqual => Some("ne"),
            Relation::Less => Some("lt"),
            Relation::LessOrEqual => Some("le"),
            Relation::Greater => Some("gt"),
            Relation::GreaterOrEqual => Some("ge"),
            _ => None,
        }
    }

    /// The name of the construct that asserts this relation in the given form;
    /// `None` where the form asks for a synonym that the relation lacks.
    pub fn name(self, form: Form) -> (r: Option<String>)
        ensures
            r is Some <==> self.construct_name(form) is Some,
            r is Some ==> r->0@ == self.construct_name(form)->0,
    {
        let base = if form == Form::Alias || form == Form::DebugAlias {
            self.alias()
        } else {
            Some(self.primary())
        };
        match base {
            Some(n) => {
                if form == Form::DebugPrimary || form == Form::DebugAlias {
                    let mut s = String::from_str("debug_");
                    s.append(n);
                    Some(s)
                } else {
                    Some(String::from_str(n))
                }
            },
            None => None,
        }
    }
}

} // verus!
