//! The text of the diagnostic that a failed assertion raises.
//!
//! A two-operand report reads
//!
//! ```text
//! assertion failed: `chek::equal!(left, right)`
//!   left: `4` = `2 + 2`,
//!  right: `5` = `5`
//! ```
//!
//! and a one-operand report
//!
//! ```text
//! assertion failed: `chek::almost_zero!(value)`
//!  value: `0.5` = `x`
//! ```
//!
//! A message, where one is given, follows the closing parenthesis of the
//! header after a colon: `` `chek::equal!(left, right): oh no` ``.
use vstd::prelude::*;

verus! {

/// How every report begins, up to the construct's name.
pub open spec fn report_lead() -> Seq<char> {
    "assertion failed: `chek::"@
}

/// The rest of the header line after the construct's name:
/// `` !(<params>)[: <msg>]` ``.
pub open spec fn header_rest(params: Seq<char>, msg: Option<Seq<char>>) -> Seq<char> {
    let note = match msg {
        Some(m) => ": "@ + m,
        None => Seq::<char>::empty(),
    };
    "!("@ + params + ")"@ + note + "`"@
}

/// What follows the header in a two-operand report.
pub open spec fn pair_lines(
    left: Seq<char>,
    right: Seq<char>,
    left_src: Seq<char>,
    right_src: Seq<char>,
) -> Seq<char> {
    "\n  left: `"@ + left + "` = `"@ + left_src + "`,\n right: `"@ + right + "` = `"@ + right_src
        + "`"@
}

/// What follows the header in a one-operand report.
pub open spec fn value_line(value: Seq<char>, value_src: Seq<char>) -> Seq<char> {
    "\n value: `"@ + value + "` = `"@ + value_src + "`"@
}

/// A two-operand report after the construct's name. `left` and `right` are
/// the operands' debug renderings, `left_src` and `right_src` their source
/// text.
pub open spec fn cmp_tail(
    left: Seq<char>,
    right: Seq<char>,
    left_src: Seq<char>,
    right_src: Seq<char>,
    msg: Option<Seq<char>>,
) -> Seq<char> {
    header_rest("left, right"@, msg) + pair_lines(left, right, left_src, right_src)
}

/// A one-operand report after the construct's name.
pub open spec fn value_tail(value: Seq<char>, value_src: Seq<char>, msg: Option<Seq<char>>) -> Seq<
    char,
> {
    header_rest("value"@, msg) + value_line(value, value_src)
}

/// The full report of a failed two-operand assertion named `which`.
pub open spec fn cmp_report(
    which: Seq<char>,
    left: Seq<char>,
    right: Seq<char>,
    left_src: Seq<char>,
    right_src: Seq<char>,
    msg: Option<Seq<char>>,
) -> Seq<char> {
    report_lead() + which + cmp_tail(left, right, left_src, right_src, msg)
}

/// The full report of a failed one-operand assertion named `which`.
pub open spec fn value_report(
    which: Seq<char>,
    value: Seq<char>,
    value_src: Seq<char>,
    msg: Option<Seq<char>>,
) -> Seq<char> {
    report_lead() + which + value_tail(value, value_src, msg)
}

pub open spec fn msg_view(msg: Option<&str>) -> Option<Seq<char>> {
    match msg {
        Some(m) => Some(m@),
        None => None,
    }
}

fn header_text(which: &str, params: &str, msg: Option<&str>) -> (r: String)
    ensures
        r@ == report_lead() + which@ + header_rest(params@, msg_view(msg)),
{
    let mut s = String::from_str("assertion failed: `chek::");
    s.append(which);
    s.append("!(");
    s.append(params);
    s.append(")");
    match msg {
        Some(m) => {
            s.append(": ");
            s.append(m);
        },
        None => {},
    }
    s.append("`");
    s
}

fn append_pair_lines(s: &mut String, left: &str, right: &str, left_str: &str, right_str: &str)
    ensures
        final(s)@ == old(s)@ + pair_lines(left@, right@, left_str@, right_str@),
{
    s.append("\n  left: `");
    s.append(left);
    s.append("` = `");
    s.append(left_str);
    s.append("`,\n right: `");
    s.append(right);
    s.append("` = `");
    s.append(right_str);
    s.append("`");
}

fn append_value_line(s: &mut String, value: &str, value_str: &str)
    ensures
        final(s)@ == old(s)@ + value_line(value@, value_str@),
{
    s.append("\n value: `");
    s.append(value);
    s.append("` = `");
    s.append(value_str);
    s.append("`");
}

/// The report raised when the two-operand assertion `which` fails without a
/// message. `left` and `right` are the operands' debug renderings,
/// `left_str` and `right_str` the source text that produced them.
pub fn cmp_assert_fail(which: &str, left: &str, right: &str, left_str: &str, right_str: &str) -> (r:
    String)
    ensures
        r@ == cmp_report(which@, left@, right@, left_str@, right_str@, None),
{
    let mut s = header_text(which, "left, right", None);
    append_pair_lines(&mut s, left, right, left_str, right_str);
    s
}

/// The report raised when the two-operand assertion `which` fails with the
/// already formatted message `msg`.
pub fn cmp_assert_fail_msg(
    which: &str,
    left: &str,
    right: &str,
    left_str: &str,
    right_str: &str,
    msg: &str,
) -> (r: String)
    ensures
        r@ == cmp_report(which@, left@, right@, left_str@, right_str@, Some(msg@)),
{
    let mut s = header_text(which, "left, right", Some(msg));
    append_pair_lines(&mut s, left, right, left_str, right_str);
    s
}

/// The report raised when the one-operand assertion `which` fails with the
/// already formatted message `msg`.
pub fn value_assert_fail_msg(which: &str, value: &str, value_str: &str, msg: &str) -> (r: String)
    ensures
        r@ == value_report(which@, value@, value_str@, Some(msg@)),
{
    let mut s = header_text(which, "value", Some(msg));
    append_value_line(&mut s, value, value_str);
    s
}

/// The report raised when the one-operand assertion `which` fails without a
/// message.
pub fn value_assert_fail(which: &str, value: &str, value_str: &str) -> (r: String)
    ensures
        r@ == value_report(which@, value@, value_str@, None),
{
    let mut s = header_text(which, "value", None);
    append_value_line(&mut s, value, value_str);
    s
}

} // verus!
