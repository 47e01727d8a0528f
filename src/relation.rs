//! The closed set of relations an assertion can check, and what decides
//! whether one holds.
use core::cmp::Ordering;
use vstd::prelude::*;

verus! {

/// A relation that an assertion checks of its operands.
#[derive(Clone, Copy, Debug, PartialEq, Eq, Structural)]
pub enum Relation {
    Equal,
    NotEqual,
    Less,
    LessOrEqual,
    Greater,
    GreaterOrEqual,
    AlmostEqual,
    NotAlmostEqual,
    AlmostZero,
    AlmostZeroWithTolerance,
    NotAlmostZero,
    NotAlmostZeroWith,
}

/// What the caller found out about its operands, once each was evaluated.
#[derive(Clone, Copy, Debug, PartialEq, Eq)]
pub enum Observation {
    /// Whether `left == right` held.
    Equality(bool),
    /// What `left.partial_cmp(&right)` returned.
    Order(Option<Ordering>),
    /// Whether the approximate-comparison provider judged the operands near:
    /// the two values near each other, or the value near zero.
    Nearness(bool),
}

impl Relation {
    /// Relations with a single operand (beside an optional tolerance).
    pub open spec fn is_unary(self) -> bool {
        match self {
            Relation::AlmostZero
            | Relation::AlmostZeroWithTolerance
            | Relation::NotAlmostZero
            | Relation::NotAlmostZeroWith => true,
            _ => false,
        }
    }

    /// Whether the relation holds on the given observation. An observation of
    /// another kind than the relation reads never satisfies it.
    pub open spec fn holds_on(self, observed: Observation) -> bool {
        match self {
            Relation::Equal => observed == Observation::Equality(true),
            Relation::NotEqual => observed == Observation::Equality(false),
            Relation::Less => observed == Observation::Order(Some(Ordering::Less)),
            Relation::LessOrEqual => {
                ||| observed == Observation::Order(Some(Ordering::Less))
                ||| observed == Observation::Order(Some(Ordering::Equal))
            },
            Relation::Greater => observed == Observation::Order(Some(Ordering::Greater)),
            Relation::GreaterOrEqual => {
                ||| observed == Observation::Order(Some(Ordering::Greater))
                ||| observed == Observation::Order(Some(Ordering::Equal))
            },
            Relation::AlmostEqual
            | Relation::AlmostZero
            | Relation::AlmostZeroWithTolerance => observed == Observation::Nearness(true),
            Relation::NotAlmostEqual
            | Relation::NotAlmostZero
            | Relation::NotAlmostZeroWith => observed == Observation::Nearness(false),
        }
    }

    /// Whether the operands have one operand (true) or two (false).
    pub fn is_single_operand(self) -> (r: bool)
        ensures
            r == self.is_unary(),
    {
        match self {
            Relation::AlmostZero
            | Relation::AlmostZeroWithTolerance
            | Relation::NotAlmostZero
            | Relation::NotAlmostZeroWith => true,
            _ => false,
        }
    }

    /// Decides whether the relation holds on what was observed of the operands.
    pub fn holds(self, observed: Observation) -> (r: bool)
        ensures
            r == self.holds_on(observed),
    {
        match (self, observed) {
            (Relation::Equal, Observation::Equality(same)) => same,
            (Relation::NotEqual, Observation::Equality(same)) => !same,
            (Relation::Less, Observation::Order(Some(Ordering::Less))) => true,
            (Relation::LessOrEqual, Observation::Order(Some(Ordering::Less))) => true,
            (Relation::LessOrEqual, Observation::Order(Some(Ordering::Equal))) => true,
            (Relation::Greater, Observation::Order(Some(Ordering::Greater))) => true,
            (Relation::GreaterOrEqual, Observation::Order(Some(Ordering::Greater))) => true,
            (Relation::GreaterOrEqual, Observation::Order(Some(Ordering::Equal))) => true,
            (Relation::AlmostEqual, Observation::Nearness(near)) => near,
            (Relation::AlmostZero, Observation::Nearness(near)) => near,
            (Relation::AlmostZeroWithTolerance, Observation::Nearness(near)) => near,
            (Relation::NotAlmostEqual, Observation::Nearness(near)) => !near,
            (Relation::NotAlmostZero, Observation::Nearness(near)) => !near,
            (Relation::NotAlmostZeroWith, Observation::Nearness(near)) => !near,
            _ => false,
        }
    }
}

} // verus!
