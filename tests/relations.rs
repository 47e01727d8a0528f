use chek::assertion::{Operand, Operands};
use chek::construct::Form;
use chek::relation::{Observation, Relation};
use chek::report::{cmp_assert_fail_msg, value_assert_fail, value_assert_fail_msg};
use std::cmp::Ordering;

const ALL: [Relation; 12] = [
    Relation::Equal,
    Relation::NotEqual,
    Relation::Less,
    Relation::LessOrEqual,
    Relation::Greater,
    Relation::GreaterOrEqual,
    Relation::AlmostEqual,
    Relation::NotAlmostEqual,
    Relation::AlmostZero,
    Relation::AlmostZeroWithTolerance,
    Relation::NotAlmostZero,
    Relation::NotAlmostZeroWith,
];

fn order(a: i64, b: i64) -> Observation {
    Observation::Order(a.partial_cmp(&b))
}

#[test]
fn order_relations_follow_integer_order() {
    for a in -2i64..=2 {
        for b in -2i64..=2 {
            assert_eq!(Relation::Less.holds(order(a, b)), a < b);
            assert_eq!(Relation::LessOrEqual.holds(order(a, b)), a <= b);
            assert_eq!(Relation::Greater.holds(order(a, b)), a > b);
            assert_eq!(Relation::GreaterOrEqual.holds(order(a, b)), a >= b);
            assert_eq!(Relation::Equal.holds(Observation::Equality(a == b)), a == b);
            assert_eq!(Relation::NotEqual.holds(Observation::Equality(a == b)), a != b);
        }
    }
}

#[test]
fn unordered_operands_fail_every_order_relation() {
    let unordered = Observation::Order(f64::NAN.partial_cmp(&1.0));
    assert_eq!(unordered, Observation::Order(None));
    assert!(!Relation::Less.holds(unordered));
    assert!(!Relation::LessOrEqual.holds(unordered));
    assert!(!Relation::Greater.holds(unordered));
    assert!(!Relation::GreaterOrEqual.holds(unordered));
}

#[test]
fn approximate_relations_follow_the_provider() {
    assert!(Relation::AlmostEqual.holds(Observation::Nearness(almost::equal(0.1 + 0.2, 0.3f64))));
    assert!(!Relation::NotAlmostEqual.holds(Observation::Nearness(almost::equal(0.1 + 0.2, 0.3f64))));
    assert!(Relation::NotAlmostEqual.holds(Observation::Nearness(almost::equal(1.0, 2.0f64))));
    assert!(Relation::AlmostZeroWithTolerance
        .holds(Observation::Nearness(almost::zero_with(0.00000001f64, 0.01))));
    assert!(Relation::NotAlmostZero.holds(Observation::Nearness(almost::zero(1.0f32))));
    assert!(!Relation::NotAlmostZeroWith
        .holds(Observation::Nearness(almost::zero_with(0.001f64, 0.01))));
}

#[test]
fn observation_of_another_kind_never_satisfies() {
    assert!(!Relation::Equal.holds(Observation::Order(Some(Ordering::Equal))));
    assert!(!Relation::NotEqual.holds(Observation::Nearness(false)));
    assert!(!Relation::Less.holds(Observation::Equality(true)));
    assert!(!Relation::AlmostZero.holds(Observation::Equality(true)));
    assert!(!Relation::NotAlmostZero.holds(Observation::Order(None)));
}

#[test]
fn every_construct_has_its_name() {
    let expected = [
        ("equal", Some("eq")),
        ("not_equal", Some("ne")),
        ("less", Some("lt")),
        ("less_or_equal", Some("le")),
        ("greater", Some("gt")),
        ("greater_or_equal", Some("ge")),
        ("almost_equal", None),
        ("not_almost_equal", None),
        ("almost_zero", None),
        ("almost_zero_with_tolerance", None),
        ("not_almost_zero", None),
        ("not_almost_zero_with", None),
    ];
    for (relation, (primary, alias)) in ALL.iter().zip(expected.iter()) {
        assert_eq!(relation.primary(), *primary);
        assert_eq!(relation.alias(), *alias);
        assert_eq!(relation.name(Form::Primary).as_deref(), Some(*primary));
        assert_eq!(relation.name(Form::DebugPrimary), Some(format!("debug_{}", primary)));
        assert_eq!(relation.name(Form::Alias).as_deref(), *alias);
        assert_eq!(relation.name(Form::DebugAlias), alias.map(|a| format!("debug_{}", a)));
    }
}

#[test]
fn only_gated_forms_depend_on_debug_assertions() {
    for debug in [false, true] {
        assert!(Form::Primary.enabled(debug));
        assert!(Form::Alias.enabled(debug));
        assert_eq!(Form::DebugPrimary.enabled(debug), debug);
        assert_eq!(Form::DebugAlias.enabled(debug), debug);
    }
}

#[test]
fn single_operand_relations_are_the_zero_checks() {
    let single: Vec<bool> = ALL.iter().map(|r| r.is_single_operand()).collect();
    assert_eq!(
        single,
        vec![false, false, false, false, false, false, false, false, true, true, true, true]
    );
}

fn value(text: &str, source: &str) -> Operands {
    Operands::Value(Operand { value: text.to_string(), source: source.to_string() })
}

#[test]
fn no_report_for_a_missing_alias_or_the_wrong_operand_count() {
    let one = value("0.5", "x");
    let two = Operands::Pair(
        Operand { value: "1".to_string(), source: "a".to_string() },
        Operand { value: "2".to_string(), source: "b".to_string() },
    );
    assert_eq!(Relation::AlmostZero.failure_report(Form::Alias, &one, None), None);
    assert_eq!(Relation::AlmostEqual.failure_report(Form::DebugAlias, &two, None), None);
    assert_eq!(Relation::AlmostZero.failure_report(Form::Primary, &two, None), None);
    assert_eq!(Relation::Less.failure_report(Form::Primary, &one, None), None);
}

#[test]
fn report_with_message_and_gated_alias() {
    let two = Operands::Pair(
        Operand { value: "5".to_string(), source: "x".to_string() },
        Operand { value: "3".to_string(), source: "y + 1".to_string() },
    );
    let report = Relation::LessOrEqual
        .failure_report(Form::DebugAlias, &two, Some("too big: 5"))
        .unwrap();
    assert_eq!(
        report,
        "assertion failed: `chek::debug_le!(left, right): too big: 5`\n  left: `5` = `x`,\n right: `3` = `y + 1`"
    );
    assert_eq!(report, cmp_assert_fail_msg("debug_le", "5", "3", "x", "y + 1", "too big: 5"));
}

#[test]
fn value_reports_with_and_without_message() {
    assert_eq!(
        value_assert_fail("not_almost_zero", "0.0", "v"),
        "assertion failed: `chek::not_almost_zero!(value)`\n value: `0.0` = `v`"
    );
    assert_eq!(
        value_assert_fail_msg("almost_zero_with_tolerance", "1.0", "w", "Should be almost zero!"),
        "assertion failed: `chek::almost_zero_with_tolerance!(value): Should be almost zero!`\n value: `1.0` = `w`"
    );
    let report = Relation::NotAlmostZeroWith
        .failure_report(Form::DebugPrimary, &value("0.0", "v"), Some("m"))
        .unwrap();
    assert_eq!(
        report,
        "assertion failed: `chek::debug_not_almost_zero_with!(value): m`\n value: `0.0` = `v`"
    );
}

#[test]
fn empty_operands_and_message_still_frame_the_report() {
    let report = Relation::Equal
        .failure_report(
            Form::Primary,
            &Operands::Pair(
                Operand { value: String::new(), source: String::new() },
                Operand { value: String::new(), source: String::new() },
            ),
            Some(""),
        )
        .unwrap();
    assert_eq!(report, "assertion failed: `chek::equal!(left, right): `\n  left: `` = ``,\n right: `` = ``");
}
