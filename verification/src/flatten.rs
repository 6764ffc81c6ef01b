//! The chain of operands of a logical expression.

use crate::ast::{Expression, LogicalExpression, LogicalOperator};
use vstd::prelude::*;

verus! {

/// The expressions that a sequence of references refers to.
pub open spec fn referents(operands: Seq<&Expression>) -> Seq<Expression> {
    operands.map_values(|operand: &Expression| *operand)
}

/// Whether flattening over `operator` leaves `operand` whole: under its
/// parentheses it is anything but a logical expression of `operator`.
pub open spec fn is_chain_leaf(operand: Expression, operator: LogicalOperator) -> bool {
    match operand.unparenthesized() {
        Expression::LogicalExpression(inner) => inner.operator != operator,
        _ => true,
    }
}

/// The operands that one side of a logical expression of `operator` gives to
/// its chain: those of the logical expression under its parentheses, if that
/// has the same operator, else the side itself, parentheses included.
pub open spec fn chain_operands(side: Expression, operator: LogicalOperator) -> Seq<Expression>
    decreases side, 0nat,
    via chain_operands_decreases
{
    match side.unparenthesized() {
        Expression::LogicalExpression(inner) => if inner.operator == operator {
            inner.flattened()
        } else {
            seq![side]
        },
        _ => seq![side],
    }
}

#[via_fn]
proof fn chain_operands_decreases(side: Expression, operator: LogicalOperator) {
    lemma_unparenthesized_is_inside(side);
}

/// Stripping parentheses gives the expression itself or a part of it.
proof fn lemma_unparenthesized_is_inside(expr: Expression)
    ensures
        expr.unparenthesized() == expr || decreases_to!(expr => expr.unparenthesized()),
    decreases expr,
{
    match expr {
        Expression::ParenthesizedExpression(inner) => {
            lemma_unparenthesized_is_inside(*inner);
        },
        _ => {},
    }
}

impl LogicalExpression {
    /// The chain of this logical expression: the operands of its left side,
    /// then those of its right side.
    pub open spec fn flattened(self) -> Seq<Expression>
        decreases self, 1nat,
    {
        chain_operands(self.left, self.operator) + chain_operands(self.right, self.operator)
    }
}

/// Trusted: `itertools::concat` on the two vectors, in this order. It extends
/// the first item of what it is given by each of the others, so the result
/// holds the elements of `left`, then those of `right`.
#[verifier::external_body]
fn concat<'a>(left: Vec<&'a Expression>, right: Vec<&'a Expression>) -> (joined: Vec<
    &'a Expression,
>)
    ensures
        joined@ == left@ + right@,
{
    itertools::concat(vec![left, right])
}

/// The operands that `side` gives to a chain of `operator`.
fn side_operands<'a>(side: &'a Expression, operator: LogicalOperator) -> (operands: Vec<
    &'a Expression,
>)
    ensures
        referents(operands@) == chain_operands(*side, operator),
    decreases *side, 0nat,
{
    proof {
        lemma_unparenthesized_is_inside(*side);
    }
    match side.without_parenthesized() {
        Expression::LogicalExpression(inner) => {
            if inner.operator == operator {
                flat_logical_expression(inner)
            } else {
                let operands = vec![side];
                assert(referents(operands@) == seq![*side]);
                operands
            }
        },
        _ => {
            let operands = vec![side];
            assert(referents(operands@) == seq![*side]);
            operands
        },
    }
}

/// Flattens the chain of `node`: the operands that its operator joins, from
/// left to right. A side that is, under its parentheses, a logical expression
/// of the same operator is replaced by its own chain; any other side is one
/// operand, also where it is a logical expression of another operator.
pub fn flat_logical_expression<'a>(node: &'a LogicalExpression) -> (operands: Vec<&'a Expression>)
    ensures
        referents(operands@) == node.flattened(),
        operands.len() >= 2,
    decreases *node, 1nat,
{
    let left = side_operands(&node.left, node.operator);
    let right = side_operands(&node.right, node.operator);
    proof {
        lemma_side_operands_are_leaves(node.left, node.operator);
        lemma_side_operands_are_leaves(node.right, node.operator);
        assert(referents(left@ + right@) == referents(left@) + referents(right@));
    }
    concat(left, right)
}

/// The logical expression that joins `operands` by `operator`, nested to the
/// left: `((a || b) || c) || d`.
pub open spec fn chain_of(operands: Seq<Expression>, operator: LogicalOperator) -> LogicalExpression
    recommends
        operands.len() >= 2,
    decreases operands.len(),
{
    if operands.len() <= 2 {
        LogicalExpression { left: operands[0], operator, right: operands[1] }
    } else {
        LogicalExpression {
            left: Expression::LogicalExpression(Box::new(chain_of(operands.drop_last(), operator))),
            operator,
            right: operands.last(),
        }
    }
}

/// A side that flattening over `operator` leaves whole is one operand. So a
/// logical expression of another operator is never descended into: it stands
/// in the chain as it is, with all that it holds.
pub proof fn lemma_leaf_is_one_operand(side: Expression, operator: LogicalOperator)
    requires
        is_chain_leaf(side, operator),
    ensures
        chain_operands(side, operator) == seq![side],
{
}

/// A logical expression whose two sides are left whole by flattening over
/// its operator is already flat: its chain is these two sides.
pub proof fn lemma_two_leaves_are_the_chain(node: LogicalExpression)
    requires
        is_chain_leaf(node.left, node.operator),
        is_chain_leaf(node.right, node.operator),
    ensures
        node.flattened() == seq![node.left, node.right],
{
    assert(node.flattened() =~= seq![node.left, node.right]);
}

/// Every operand of a flattened chain is left whole by flattening over the
/// chain's operator: the chain holds no logical expression of that operator,
/// and each one of another operator that it meets is an operand of its own.
pub proof fn lemma_flattened_operands_are_leaves(node: LogicalExpression)
    ensures
        node.flattened().len() >= 2,
        forall|i: int|
            0 <= i < node.flattened().len() ==> is_chain_leaf(
                #[trigger] node.flattened()[i],
                node.operator,
            ),
    decreases node,
{
    lemma_side_operands_are_leaves(node.left, node.operator);
    lemma_side_operands_are_leaves(node.right, node.operator);
}

proof fn lemma_side_operands_are_leaves(side: Expression, operator: LogicalOperator)
    ensures
        chain_operands(side, operator).len() >= 1,
        forall|i: int|
            0 <= i < chain_operands(side, operator).len() ==> is_chain_leaf(
                #[trigger] chain_operands(side, operator)[i],
                operator,
            ),
    decreases side,
{
    lemma_unparenthesized_is_inside(side);
    match side.unparenthesized() {
        Expression::LogicalExpression(inner) => {
            if inner.operator == operator {
                lemma_side_operands_are_leaves(inner.left, operator);
                lemma_side_operands_are_leaves(inner.right, operator);
            }
        },
        _ => {},
    }
}

/// Flattening a chain that is already flat gives its operands back: where no
/// operand is itself a logical expression of `operator`, the logical
/// expression that joins them flattens to exactly these operands.
pub proof fn lemma_flat_chain_is_unchanged(operands: Seq<Expression>, operator: LogicalOperator)
    requires
        operands.len() >= 2,
        forall|i: int| 0 <= i < operands.len() ==> is_chain_leaf(#[trigger] operands[i], operator),
    ensures
        chain_of(operands, operator).operator == operator,
        chain_of(operands, operator).flattened() == operands,
    decreases operands.len(),
{
    if operands.len() == 2 {
        assert(chain_of(operands, operator).flattened() =~= operands);
    } else {
        let front = operands.drop_last();
        lemma_flat_chain_is_unchanged(front, operator);
        let nested = Expression::LogicalExpression(Box::new(chain_of(front, operator)));
        assert(chain_operands(nested, operator) == front);
        assert(chain_of(operands, operator).flattened() =~= operands);
    }
}

/// Flattening is idempotent: the operands of a flattened chain, joined again
/// by the same operator, flatten to the same sequence.
pub proof fn lemma_flatten_is_idempotent(node: LogicalExpression)
    ensures
        chain_of(node.flattened(), node.operator).flattened() == node.flattened(),
{
    lemma_flattened_operands_are_leaves(node);
    lemma_flat_chain_is_unchanged(node.flattened(), node.operator);
}

} // verus!
