//! The rule itself: one logical expression in, its diagnostics out.

use crate::ast::{Expression, LogicalOperator};
use crate::diagnostic::NoUselessLengthCheckDiagnostic;
use crate::flatten::{flat_logical_expression, referents};
use crate::matcher::{is_useless_check, useless_check};
use vstd::prelude::*;

verus! {

/// The diagnostic of the operand at `index` and the one after it.
pub open spec fn neighbour_check(
    operands: Seq<Expression>,
    operator: LogicalOperator,
    index: int,
) -> Option<NoUselessLengthCheckDiagnostic> {
    useless_check(operands[index], operands[index + 1], operator)
}

/// The diagnostics of the first `pairs` pairs of neighbours in `operands`,
/// in the order of the pairs.
pub open spec fn pair_diagnostics(
    operands: Seq<Expression>,
    operator: LogicalOperator,
    pairs: nat,
) -> Seq<NoUselessLengthCheckDiagnostic>
    decreases pairs,
{
    if pairs == 0 {
        Seq::empty()
    } else {
        let earlier = pair_diagnostics(operands, operator, (pairs - 1) as nat);
        match neighbour_check(operands, operator, pairs - 1) {
            Some(diagnostic) => earlier.push(diagnostic),
            None => earlier,
        }
    }
}

/// The diagnostics of a chain: those of all its pairs of neighbours, each
/// pair checked by itself.
pub open spec fn chain_diagnostics(
    operands: Seq<Expression>,
    operator: LogicalOperator,
) -> Seq<NoUselessLengthCheckDiagnostic> {
    if operands.len() < 2 {
        Seq::empty()
    } else {
        pair_diagnostics(operands, operator, (operands.len() - 1) as nat)
    }
}

/// The rule against length checks that a neighbouring `every` or `some`
/// makes useless.
#[derive(Debug, Default, Clone)]
pub struct NoUselessLengthCheck;

impl NoUselessLengthCheck {
    /// What the rule reports for `node`: for a logical expression of `||` or
    /// `&&`, the diagnostics of its flattened chain; for any other node,
    /// nothing.
    pub open spec fn diagnostics(node: Expression) -> Seq<NoUselessLengthCheckDiagnostic> {
        match node {
            Expression::LogicalExpression(logical) => if logical.operator == LogicalOperator::And
                || logical.operator == LogicalOperator::Or {
                chain_diagnostics(logical.flattened(), logical.operator)
            } else {
                Seq::empty()
            },
            _ => Seq::empty(),
        }
    }

    /// Runs the rule on one node and returns its diagnostics, in the order in
    /// which they are to be reported.
    pub fn run(&self, node: &Expression) -> (reported: Vec<NoUselessLengthCheckDiagnostic>)
        ensures
            reported@ == Self::diagnostics(*node),
    {
        let mut reported: Vec<NoUselessLengthCheckDiagnostic> = Vec::new();
        if let Expression::LogicalExpression(logical) = node {
            if logical.operator == LogicalOperator::And || logical.operator == LogicalOperator::Or {
                let operands = flat_logical_expression(logical);
                let ghost chain = referents(operands@);
                let last: usize = operands.len() - 1;
                let mut i: usize = 0;
                while i < last
                    invariant
                        i <= last,
                        last + 1 == operands.len(),
                        chain == referents(operands@),
                        reported@ == pair_diagnostics(chain, logical.operator, i as nat),
                    decreases last - i,
                {
                    assert(chain[i as int] == *operands[i as int]);
                    assert(chain[i + 1] == *operands[i + 1]);
                    if let Some(diagnostic) = is_useless_check(
                        operands[i],
                        operands[i + 1],
                        logical.operator,
                    ) {
                        reported.push(diagnostic);
                    }
                    i = i + 1;
                }
            }
        }
        reported
    }
}

/// Only neighbours are paired: every diagnostic of a chain is that of two
/// operands next to each other, and a chain in which no two neighbours match
/// has no diagnostic, whatever operands further apart would give. There are
/// never more diagnostics than pairs of neighbours.
pub proof fn lemma_only_neighbours_are_paired(operands: Seq<Expression>, operator: LogicalOperator)
    ensures
        forall|k: int|
            0 <= k < chain_diagnostics(operands, operator).len() ==> exists|i: int|
                0 <= i && i + 1 < operands.len() && #[trigger] neighbour_check(
                    operands,
                    operator,
                    i,
                ) == Some(#[trigger] chain_diagnostics(operands, operator)[k]),
        (forall|i: int|
            0 <= i && i + 1 < operands.len() ==> #[trigger] neighbour_check(operands, operator, i)
                is None) ==> chain_diagnostics(operands, operator).len() == 0,
        chain_diagnostics(operands, operator).len() < operands.len() || operands.len() == 0,
{
    if operands.len() >= 2 {
        let pairs = (operands.len() - 1) as nat;
        lemma_pair_diagnostics(operands, operator, pairs);
        if chain_diagnostics(operands, operator).len() > 0 {
            let i = choose|i: int|
                0 <= i < pairs && #[trigger] neighbour_check(operands, operator, i) == Some(
                    pair_diagnostics(operands, operator, pairs)[0],
                );
            assert(neighbour_check(operands, operator, i) is Some);
        }
    }
}

proof fn lemma_pair_diagnostics(operands: Seq<Expression>, operator: LogicalOperator, pairs: nat)
    requires
        pairs + 1 <= operands.len(),
    ensures
        pair_diagnostics(operands, operator, pairs).len() <= pairs,
        forall|k: int|
            0 <= k < pair_diagnostics(operands, operator, pairs).len() ==> exists|i: int|
                0 <= i < pairs && #[trigger] neighbour_check(operands, operator, i) == Some(
                    #[trigger] pair_diagnostics(operands, operator, pairs)[k],
                ),
    decreases pairs,
{
    if pairs > 0 {
        let earlier = pair_diagnostics(operands, operator, (pairs - 1) as nat);
        let all = pair_diagnostics(operands, operator, pairs);
        lemma_pair_diagnostics(operands, operator, (pairs - 1) as nat);
        assert forall|k: int| 0 <= k < all.len() implies exists|i: int|
            0 <= i < pairs && #[trigger] neighbour_check(operands, operator, i) == Some(
                #[trigger] all[k],
            ) by {
            if k < earlier.len() {
                assert(all[k] == earlier[k]);
                let i = choose|i: int|
                    0 <= i < pairs - 1 && #[trigger] neighbour_check(operands, operator, i)
                        == Some(earlier[k]);
                assert(neighbour_check(operands, operator, i) == Some(all[k]));
            } else {
                assert(neighbour_check(operands, operator, pairs - 1) == Some(all[k]));
            }
        }
    }
}

} // verus!
