//! The two kinds of operand that the rule looks for: a comparison of
//! `length` with zero, and a call of `some` or `every`.

use crate::ast::{BinaryOperator, Expression, MemberExpression, Span};
use crate::text::str_eq;
use vstd::prelude::*;

verus! {

/// An operand of the form `subject.length <comparator> 0`.
#[derive(Clone, Copy, Debug)]
pub struct ComparisonCondition<'a> {
    /// The name of the identifier whose `length` is compared.
    pub subject: &'a str,
    pub comparator: BinaryOperator,
    /// The right-hand side, as it is written.
    pub literal: &'a str,
    /// The span of the whole comparison.
    pub span: Span,
}

/// An operand of the form `subject.some(..)` or `subject.every(..)`.
#[derive(Clone, Copy, Debug)]
pub struct QuantifierCall<'a> {
    /// The name of the identifier whose method is called.
    pub subject: &'a str,
    /// The name of the method.
    pub method: &'a str,
    /// The call is made through optional chaining.
    pub optional: bool,
    /// The span of the whole call.
    pub span: Span,
}

/// What a [`ComparisonCondition`] says.
pub struct ComparisonView {
    pub subject: Seq<char>,
    pub comparator: BinaryOperator,
    pub literal: Seq<char>,
    pub span: Span,
}

/// What a [`QuantifierCall`] says.
pub struct QuantifierView {
    pub subject: Seq<char>,
    pub method: Seq<char>,
    pub optional: bool,
    pub span: Span,
}

impl<'a> View for ComparisonCondition<'a> {
    type V = ComparisonView;

    open spec fn view(&self) -> ComparisonView {
        ComparisonView {
            subject: self.subject@,
            comparator: self.comparator,
            literal: self.literal@,
            span: self.span,
        }
    }
}

impl<'a> View for QuantifierCall<'a> {
    type V = QuantifierView;

    open spec fn view(&self) -> QuantifierView {
        QuantifierView {
            subject: self.subject@,
            method: self.method@,
            optional: self.optional,
            span: self.span,
        }
    }
}

/// The comparators with which a length check can be written.
pub open spec fn is_comparator(operator: BinaryOperator) -> bool {
    operator == BinaryOperator::StrictEquality || operator == BinaryOperator::StrictInequality
        || operator == BinaryOperator::Equality || operator == BinaryOperator::Inequality
        || operator == BinaryOperator::GreaterThan || operator == BinaryOperator::GreaterEqualThan
        || operator == BinaryOperator::LessThan
}

/// The name of the property, if the access is written with a dot.
pub open spec fn static_member_property_name(expr: Option<MemberExpression>) -> Option<
    Seq<char>,
> {
    match expr {
        Some(member) => if member.computed {
            None
        } else {
            Some(member.property@)
        },
        None => None,
    }
}

/// The length check that `operand` is, if it is one: under its parentheses a
/// binary expression with one of the comparators, whose left side is the
/// property `length` of an identifier, accessed without `?.`, and whose
/// right side is the literal written `0`.
pub open spec fn comparison_of(operand: Expression) -> Option<ComparisonView> {
    match operand.unparenthesized() {
        Expression::BinaryExpression(binary) => match binary.left.member_expr() {
            Some(member) => match member.object.identifier_name() {
                Some(subject) => if !member.optional && member.property@ == "length"@
                    && is_comparator(binary.operator) && binary.right.has_raw("0"@) {
                    Some(
                        ComparisonView {
                            subject,
                            comparator: binary.operator,
                            literal: "0"@,
                            span: binary.span,
                        },
                    )
                } else {
                    None
                },
                None => None,
            },
            None => None,
        },
        _ => None,
    }
}

/// The quantifier call that `operand` is, if it is one: under its
/// parentheses a call, not made with `?.(`, of the method `some` or `every`
/// of an identifier, where the method is accessed with a plain dot.
pub open spec fn quantifier_of(operand: Expression) -> Option<QuantifierView> {
    match operand.unparenthesized() {
        Expression::CallExpression(call) => match call.callee.member_expr() {
            Some(member) => match member.object.identifier_name() {
                Some(subject) => if !call.optional && !member.optional && !member.computed && (
                member.property@ == "some"@ || member.property@ == "every"@) {
                    Some(
                        QuantifierView {
                            subject,
                            method: member.property@,
                            optional: false,
                            span: call.span,
                        },
                    )
                } else {
                    None
                },
                None => None,
            },
            None => None,
        },
        _ => None,
    }
}

/// Whether a length check can be written with `operator`.
pub fn is_recognized_comparator(operator: BinaryOperator) -> (recognized: bool)
    ensures
        recognized == is_comparator(operator),
{
    match operator {
        BinaryOperator::StrictEquality
        | BinaryOperator::StrictInequality
        | BinaryOperator::Equality
        | BinaryOperator::Inequality
        | BinaryOperator::GreaterThan
        | BinaryOperator::GreaterEqualThan
        | BinaryOperator::LessThan => true,
        _ => false,
    }
}

/// The name of the property that `expr` accesses, if `expr` is an access
/// written with a dot.
pub fn get_static_member_property_name<'a>(expr: Option<&'a MemberExpression>) -> (name: Option<
    &'a str,
>)
    ensures
        match name {
            Some(text) => static_member_property_name(
                match expr {
                    Some(member) => Some(*member),
                    None => None,
                },
            ) == Some(text@),
            None => static_member_property_name(
                match expr {
                    Some(member) => Some(*member),
                    None => None,
                },
            ) is None,
        },
{
    match expr {
        Some(member) => {
            if member.computed {
                None
            } else {
                Some(member.static_property_name())
            }
        },
        None => None,
    }
}

/// Classifies `operand` as a length check.
pub fn classify_as_comparison<'a>(operand: &'a Expression) -> (found: Option<
    ComparisonCondition<'a>,
>)
    ensures
        match found {
            Some(comparison) => comparison_of(*operand) == Some(comparison@),
            None => comparison_of(*operand) is None,
        },
{
    let Expression::BinaryExpression(binary) = operand.without_parenthesized() else {
        return None;
    };
    let Some(member) = binary.left.get_member_expr() else {
        return None;
    };
    let Some(ident) = member.object().get_identifier_reference() else {
        return None;
    };
    let subject = ident.name.as_str();
    if !member.optional && member.is_specific_member_access(subject, "length")
        && is_recognized_comparator(binary.operator) && binary.right.is_raw("0") {
        Some(
            ComparisonCondition {
                subject,
                comparator: binary.operator,
                literal: "0",
                span: binary.span,
            },
        )
    } else {
        None
    }
}

/// Classifies `operand` as a call of `some` or `every`.
pub fn classify_as_quantifier<'a>(operand: &'a Expression) -> (found: Option<QuantifierCall<'a>>)
    ensures
        match found {
            Some(call) => quantifier_of(*operand) == Some(call@),
            None => quantifier_of(*operand) is None,
        },
{
    let Expression::CallExpression(call) = operand.without_parenthesized() else {
        return None;
    };
    let member = call.callee.get_member_expr();
    let Some(object) = member else {
        return None;
    };
    let Some(ident) = object.object().get_identifier_reference() else {
        return None;
    };
    let Some(method) = get_static_member_property_name(member) else {
        return None;
    };
    if !call.optional && !object.optional && (str_eq(method, "some") || str_eq(method, "every")) {
        Some(
            QuantifierCall {
                subject: ident.name.as_str(),
                method,
                optional: call.optional,
                span: call.span,
            },
        )
    } else {
        None
    }
}

} // verus!
