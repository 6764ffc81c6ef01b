//! The table of combinations and the matching of a pair of operands.

use crate::ast::{BinaryOperator, Expression, LogicalOperator, Span};
use crate::classify::{
    classify_as_comparison, classify_as_quantifier, comparison_of, quantifier_of,
    ComparisonCondition, ComparisonView, QuantifierCall, QuantifierView,
};
use crate::diagnostic::NoUselessLengthCheckDiagnostic;
use crate::text::str_eq;
use vstd::prelude::*;

verus! {

/// A row of the table of combinations: under which logical operator which
/// method makes which comparisons of `length` with zero useless.
#[derive(Clone, Copy, Debug, PartialEq, Eq, Structural)]
pub enum CombinationRule {
    /// `array.length === 0 || array.every(..)`
    EveryUnderOr,
    /// `array.length !== 0 && array.some(..)`, `array.length > 0 && array.some(..)`
    SomeUnderAnd,
}

impl CombinationRule {
    /// The row for `operator`: `||` goes with `every`, `&&` with `some`, and
    /// no other operator has a row.
    pub open spec fn of(operator: LogicalOperator) -> Option<CombinationRule> {
        match operator {
            LogicalOperator::Or => Some(CombinationRule::EveryUnderOr),
            LogicalOperator::And => Some(CombinationRule::SomeUnderAnd),
            LogicalOperator::Coalesce => None,
        }
    }

    /// The name of the method that the call must be of.
    pub open spec fn method(self) -> Seq<char> {
        match self {
            CombinationRule::EveryUnderOr => "every"@,
            CombinationRule::SomeUnderAnd => "some"@,
        }
    }

    /// Whether the length check may be written with `comparator`.
    pub open spec fn accepts(self, comparator: BinaryOperator) -> bool {
        match self {
            CombinationRule::EveryUnderOr => comparator == BinaryOperator::StrictEquality,
            CombinationRule::SomeUnderAnd => comparator == BinaryOperator::StrictInequality
                || comparator == BinaryOperator::GreaterThan,
        }
    }

    /// The diagnostic of this row for a comparison at `span`.
    pub open spec fn diagnostic(self, span: Span) -> NoUselessLengthCheckDiagnostic {
        match self {
            CombinationRule::EveryUnderOr => NoUselessLengthCheckDiagnostic::EmptyCheck(span),
            CombinationRule::SomeUnderAnd => NoUselessLengthCheckDiagnostic::NonEmptyCheck(span),
        }
    }

    /// What this row says of a length check and a call: the diagnostic, at
    /// the span of the comparison, if the comparator is one of the row's, the
    /// method is the row's, the call is not optional and both have the same
    /// subject.
    pub open spec fn applied(
        self,
        comparison: ComparisonView,
        call: QuantifierView,
    ) -> Option<NoUselessLengthCheckDiagnostic> {
        if self.accepts(comparison.comparator) && call.method == self.method() && !call.optional
            && comparison.subject == call.subject {
            Some(self.diagnostic(comparison.span))
        } else {
            None
        }
    }

    /// Looks up the row for `operator`.
    pub fn for_operator(operator: LogicalOperator) -> (rule: Option<CombinationRule>)
        ensures
            rule == CombinationRule::of(operator),
    {
        match operator {
            LogicalOperator::Or => Some(CombinationRule::EveryUnderOr),
            LogicalOperator::And => Some(CombinationRule::SomeUnderAnd),
            LogicalOperator::Coalesce => None,
        }
    }

    /// The name of the method that the call must be of.
    pub fn method_name(&self) -> (name: &'static str)
        ensures
            name@ == self.method(),
    {
        match self {
            CombinationRule::EveryUnderOr => "every",
            CombinationRule::SomeUnderAnd => "some",
        }
    }

    /// Whether the length check may be written with `comparator`.
    pub fn accepts_comparator(&self, comparator: BinaryOperator) -> (accepted: bool)
        ensures
            accepted == self.accepts(comparator),
    {
        match self {
            CombinationRule::EveryUnderOr => comparator == BinaryOperator::StrictEquality,
            CombinationRule::SomeUnderAnd => comparator == BinaryOperator::StrictInequality
                || comparator == BinaryOperator::GreaterThan,
        }
    }

    /// Applies this row to a length check and a call.
    pub fn apply(&self, comparison: &ComparisonCondition, call: &QuantifierCall) -> (found: Option<
        NoUselessLengthCheckDiagnostic,
    >)
        ensures
            found == self.applied(comparison@, call@),
    {
        if self.accepts_comparator(comparison.comparator) && str_eq(call.method, self.method_name())
            && !call.optional && str_eq(comparison.subject, call.subject) {
            match self {
                CombinationRule::EveryUnderOr => Some(
                    NoUselessLengthCheckDiagnostic::EmptyCheck(comparison.span),
                ),
                CombinationRule::SomeUnderAnd => Some(
                    NoUselessLengthCheckDiagnostic::NonEmptyCheck(comparison.span),
                ),
            }
        } else {
            None
        }
    }
}

/// The diagnostic for `left` as the length check and `right` as the call, in
/// these roles only.
pub open spec fn matched_pair(
    left: Expression,
    right: Expression,
    operator: LogicalOperator,
) -> Option<NoUselessLengthCheckDiagnostic> {
    match (CombinationRule::of(operator), comparison_of(left), quantifier_of(right)) {
        (Some(rule), Some(comparison), Some(call)) => rule.applied(comparison, call),
        _ => None,
    }
}

/// The diagnostic for two neighbouring operands of `operator`, whichever of
/// them is the length check.
pub open spec fn useless_check(
    left: Expression,
    right: Expression,
    operator: LogicalOperator,
) -> Option<NoUselessLengthCheckDiagnostic> {
    match matched_pair(left, right, operator) {
        Some(diagnostic) => Some(diagnostic),
        None => matched_pair(right, left, operator),
    }
}

/// Matches `left` as the length check and `right` as the call.
pub fn match_pair(left: &Expression, right: &Expression, operator: LogicalOperator) -> (found:
    Option<NoUselessLengthCheckDiagnostic>)
    ensures
        found == matched_pair(*left, *right, operator),
{
    let Some(rule) = CombinationRule::for_operator(operator) else {
        return None;
    };
    let Some(comparison) = classify_as_comparison(left) else {
        return None;
    };
    let Some(call) = classify_as_quantifier(right) else {
        return None;
    };
    rule.apply(&comparison, &call)
}

/// Checks two neighbouring operands of `operator`: first `left` as the
/// length check and `right` as the call, then the other way round.
pub fn is_useless_check(left: &Expression, right: &Expression, operator: LogicalOperator) -> (found:
    Option<NoUselessLengthCheckDiagnostic>)
    ensures
        found == useless_check(*left, *right, operator),
{
    match match_pair(left, right, operator) {
        Some(diagnostic) => Some(diagnostic),
        None => match_pair(right, left, operator),
    }
}

/// Whether `operand` is, under its parentheses, a call made through optional
/// chaining: the call itself is written `?.(`, or its method is accessed
/// with `?.`.
pub open spec fn is_optional_call(operand: Expression) -> bool {
    match operand.unparenthesized() {
        Expression::CallExpression(call) => call.optional || match call.callee.member_expr() {
            Some(member) => member.optional,
            None => false,
        },
        _ => false,
    }
}

/// A length check and a call on different identifiers are never reported,
/// whatever the operator, the comparator and the method, and in whichever
/// order the two stand. Nor does any row of the table accept a length check
/// and a call with different subjects.
pub proof fn lemma_different_subjects_are_not_reported(
    comparison: Expression,
    call: Expression,
    operator: LogicalOperator,
)
    requires
        comparison_of(comparison) is Some,
        quantifier_of(call) is Some,
        comparison_of(comparison)->0.subject != quantifier_of(call)->0.subject,
    ensures
        useless_check(comparison, call, operator) is None,
        useless_check(call, comparison, operator) is None,
        forall|rule: CombinationRule, check: ComparisonView, other: QuantifierView|
            check.subject != other.subject ==> #[trigger] rule.applied(check, other) is None,
{
}

/// A call made through optional chaining is never reported, on whichever
/// side of whatever operand it stands. Nor does any row of the table accept
/// a call that is marked optional.
pub proof fn lemma_optional_calls_are_not_reported(
    call: Expression,
    other: Expression,
    operator: LogicalOperator,
)
    requires
        is_optional_call(call),
    ensures
        quantifier_of(call) is None,
        useless_check(call, other, operator) is None,
        useless_check(other, call, operator) is None,
        forall|rule: CombinationRule, comparison: ComparisonView, marked: QuantifierView|
            marked.optional ==> #[trigger] rule.applied(comparison, marked) is None,
{
}

/// A comparison whose right side is anything but the literal written exactly
/// `0` is no length check, and is never reported, on whichever side of
/// whatever operand it stands.
pub proof fn lemma_inexact_literals_are_not_reported(
    comparison: Expression,
    other: Expression,
    operator: LogicalOperator,
)
    requires
        comparison.unparenthesized() is BinaryExpression,
        !comparison.unparenthesized()->BinaryExpression_0.right.has_raw("0"@),
    ensures
        comparison_of(comparison) is None,
        useless_check(comparison, other, operator) is None,
        useless_check(other, comparison, operator) is None,
{
}

} // verus!
