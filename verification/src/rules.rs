//! The fixed catalogue of inference rules.
//!
//! Every rule supports two pure operations:
//! - *descend* (`get_next_configuration`): test whether the focused judgment
//!   matches the rule's left-hand pattern.  A congruence rule answers with
//!   the premise judgment to be discharged next; a base rule answers with
//!   the no-payload marker; a judgment of the wrong shape gives no match.
//! - *reduce* (`reduce_down`): given the original judgment and the resolved
//!   premise (the marker for base rules, the discharged sub-judgment for
//!   congruence rules), compute the rewritten judgment, or report no match.
//!
//! Base rules perform the actual computation (integer addition, truncated
//! integer division with division by zero refused, comparison, negation,
//! variable lookup, assignment, loop unrolling, block and sequence
//! collapsing, branch selection, hoisting a program's declarations).
//! Congruence rules splice the discharged sub-term back into the original
//! term shape and adopt the environment produced by the premise.

use vstd::prelude::*;

use crate::ast::{AExp, AExpV, BExp, BExpV, Block, BlockV, Pgm, PgmV, Stmt, StmtV};
use crate::ast::{aexp_view, bexp_view, block_view, stmt_view};
use crate::judgment::{ConfigV, Configuration};
use crate::state::{State, initial_env, state_lookup, state_subst};

verus! {

/// One named inference rule of the fixed catalogue.  `NoOp` is the sentinel
/// "nothing selected" entry, which never applies.
#[derive(Clone, Copy, PartialEq, Eq, Structural, Debug)]
pub enum Rule {
    RewriteVariableLookup,
    RewritePlusLeft,
    RewritePlusRight,
    RewritePlus,
    RewriteDivideLeft,
    RewriteDivideRight,
    RewriteDivide,
    RewriteLessThanLeft,
    RewriteLessThanRight,
    RewriteLessThan,
    RewriteNegate,
    RewriteNegateTrue,
    RewriteNegateFalse,
    RewriteBlockStatement,
    RewriteAssignmentArith,
    RewriteAssignmentInt,
    RewriteSequence,
    RewriteEmptyBlock,
    RewriteConditional,
    RewriteConditionalTrue,
    RewriteConditionalFalse,
    RewriteLoop,
    RewriteTop,
    NoOp,
}

/// Truncated integer division (rounding toward zero), as the machine's
/// signed division computes it.
pub open spec fn div_trunc(x: int, d: int) -> int
    recommends
        d != 0,
{
    if x == 0 {
        0
    } else if x > 0 && d > 0 {
        x / d
    } else if x < 0 && d < 0 {
        ((x * -1) / (d * -1))
    } else if x < 0 {
        ((x * -1) / d) * -1
    } else {
        (x / (d * -1)) * -1
    }
}

/// What *descend* answers on a judgment: `None` when the judgment does not
/// match the rule's pattern; the premise judgment for a congruence rule; the
/// no-payload marker (`ConfigV::Dummy`) for a base rule.
pub open spec fn rule_descend(r: Rule, conf: ConfigV) -> Option<ConfigV> {
    match r {
        // o < X,Sigma > => < Sigma(X),Sigma > if Sigma(X) defined: base rule,
        // but the side condition (the variable is bound) is checked here.
        Rule::RewriteVariableLookup => match conf {
            ConfigV::AExpConf(a, sigma) => match a {
                AExpV::Id(x) => if state_lookup(sigma, x) is Some {
                    Some(ConfigV::Dummy)
                } else {
                    None
                },
                _ => None,
            },
            _ => None,
        },
        // < A1 + A2,Sigma > with premise < A1,Sigma >.
        Rule::RewritePlusLeft => match conf {
            ConfigV::AExpConf(a, sigma) => match a {
                AExpV::Plus(a1, _a2) => Some(ConfigV::AExpConf(*a1, sigma)),
                _ => None,
            },
            _ => None,
        },
        // < A1 + A2,Sigma > with premise < A2,Sigma >.
        Rule::RewritePlusRight => match conf {
            ConfigV::AExpConf(a, sigma) => match a {
                AExpV::Plus(_a1, a2) => Some(ConfigV::AExpConf(*a2, sigma)),
                _ => None,
            },
            _ => None,
        },
        Rule::RewritePlus => Some(ConfigV::Dummy),
        // < A1 / A2,Sigma > with premise < A1,Sigma >.
        Rule::RewriteDivideLeft => match conf {
            ConfigV::AExpConf(a, sigma) => match a {
                AExpV::Divide(a1, _a2) => Some(ConfigV::AExpConf(*a1, sigma)),
                _ => None,
            },
            _ => None,
        },
        // < A1 / A2,Sigma > with premise < A2,Sigma >.
        Rule::RewriteDivideRight => match conf {
            ConfigV::AExpConf(a, sigma) => match a {
                AExpV::Divide(_a1, a2) => Some(ConfigV::AExpConf(*a2, sigma)),
                _ => None,
            },
            _ => None,
        },
        Rule::RewriteDivide => Some(ConfigV::Dummy),
        // < A1 <= A2,Sigma > with premise < A1,Sigma >.
        Rule::RewriteLessThanLeft => match conf {
            ConfigV::BExpConf(b, sigma) => match b {
                BExpV::LessThanEq(a1, _a2) => Some(ConfigV::AExpConf(*a1, sigma)),
                _ => None,
            },
            _ => None,
        },
        // < I1 <= A2,Sigma > with premise < A2,Sigma >: the left operand
        // must already be a literal.
        Rule::RewriteLessThanRight => match conf {
            ConfigV::BExpConf(b, sigma) => match b {
                BExpV::LessThanEq(a1, a2) => match *a1 {
                    AExpV::Int(_i1) => Some(ConfigV::AExpConf(*a2, sigma)),
                    _ => None,
                },
                _ => None,
            },
            _ => None,
        },
        Rule::RewriteLessThan => Some(ConfigV::Dummy),
        // < ! B,Sigma > with premise < B,Sigma >.
        Rule::RewriteNegate => match conf {
            ConfigV::BExpConf(b, sigma) => match b {
                BExpV::Negation(b1) => Some(ConfigV::BExpConf(*b1, sigma)),
                _ => None,
            },
            _ => None,
        },
        Rule::RewriteNegateTrue => Some(ConfigV::Dummy),
        Rule::RewriteNegateFalse => Some(ConfigV::Dummy),
        Rule::RewriteBlockStatement => Some(ConfigV::Dummy),
        // < X = A ;,Sigma > with premise < A,Sigma >.
        Rule::RewriteAssignmentArith => match conf {
            ConfigV::StmtConf(s, sigma) => match s {
                StmtV::Assign(_x, a) => Some(ConfigV::AExpConf(*a, sigma)),
                _ => None,
            },
            _ => None,
        },
        Rule::RewriteAssignmentInt => Some(ConfigV::Dummy),
        // < S1 S2,Sigma > with premise < S1,Sigma >.
        Rule::RewriteSequence => match conf {
            ConfigV::StmtConf(s, sigma) => match s {
                StmtV::Sequence(s1, _s2) => Some(ConfigV::StmtConf(*s1, sigma)),
                _ => None,
            },
            _ => None,
        },
        Rule::RewriteEmptyBlock => Some(ConfigV::Dummy),
        // < if (B) S1 else S2,Sigma > with premise < B,Sigma >.
        Rule::RewriteConditional => match conf {
            ConfigV::StmtConf(s, sigma) => match s {
                StmtV::IfThenElse(b, _b1, _b2) => Some(ConfigV::BExpConf(*b, sigma)),
                _ => None,
            },
            _ => None,
        },
        Rule::RewriteConditionalTrue => Some(ConfigV::Dummy),
        Rule::RewriteConditionalFalse => Some(ConfigV::Dummy),
        Rule::RewriteLoop => Some(ConfigV::Dummy),
        Rule::RewriteTop => Some(ConfigV::Dummy),
        Rule::NoOp => None,
    }
}

/// What *reduce* answers: `bottom` is the original judgment (below the
/// line), `top` the fully resolved premise (above the line); the result is
/// the rewritten judgment, or `None` when the shapes do not match the rule.
pub open spec fn rule_reduce(r: Rule, bottom: ConfigV, top: ConfigV) -> Option<ConfigV> {
    match r {
        // < X,Sigma > => < Sigma(X),Sigma > if X is bound in Sigma.
        Rule::RewriteVariableLookup => match bottom {
            ConfigV::AExpConf(a, sigma) => match a {
                AExpV::Id(x) => match state_lookup(sigma, x) {
                    Some(v) => Some(ConfigV::AExpConf(AExpV::Int(v), sigma)),
                    None => None,
                },
                _ => None,
            },
            _ => None,
        },
        // < A1 + A2,Sigma > => < A1' + A2,Sigma' > from premise < A1',Sigma' >.
        Rule::RewritePlusLeft => match top {
            ConfigV::AExpConf(a1p, sigmap) => match bottom {
                ConfigV::AExpConf(a, _sigma) => match a {
                    AExpV::Plus(_a1, a2) => Some(
                        ConfigV::AExpConf(AExpV::Plus(Box::new(a1p), a2), sigmap),
                    ),
                    _ => None,
                },
                _ => None,
            },
            _ => None,
        },
        // < A1 + A2,Sigma > => < A1 + A2',Sigma' > from premise < A2',Sigma' >.
        Rule::RewritePlusRight => match top {
            ConfigV::AExpConf(a2p, sigmap) => match bottom {
                ConfigV::AExpConf(a, _sigma) => match a {
                    AExpV::Plus(a1, _a2) => Some(
                        ConfigV::AExpConf(AExpV::Plus(a1, Box::new(a2p)), sigmap),
                    ),
                    _ => None,
                },
                _ => None,
            },
            _ => None,
        },
        // < I1 + I2,Sigma > => < I1 + I2 computed,Sigma >; a sum that does
        // not fit the machine integer leaves the step stuck.
        Rule::RewritePlus => match bottom {
            ConfigV::AExpConf(a, sigma) => match a {
                AExpV::Plus(a1, a2) => match (*a1, *a2) {
                    (AExpV::Int(n1), AExpV::Int(n2)) => if i32::MIN <= n1 + n2 <= i32::MAX {
                        Some(ConfigV::AExpConf(AExpV::Int((n1 + n2) as i32), sigma))
                    } else {
                        None
                    },
                    _ => None,
                },
                _ => None,
            },
            _ => None,
        },
        // < A1 / A2,Sigma > => < A1' / A2,Sigma' > from premise < A1',Sigma' >.
        Rule::RewriteDivideLeft => match top {
            ConfigV::AExpConf(a1p, sigmap) => match bottom {
                ConfigV::AExpConf(a, _sigma) => match a {
                    AExpV::Divide(_a1, a2) => Some(
                        ConfigV::AExpConf(AExpV::Divide(Box::new(a1p), a2), sigmap),
                    ),
                    _ => None,
                },
                _ => None,
            },
            _ => None,
        },
        // < A1 / A2,Sigma > => < A1 / A2',Sigma' > from premise < A2',Sigma' >.
        Rule::RewriteDivideRight => match top {
            ConfigV::AExpConf(a2p, sigmap) => match bottom {
                ConfigV::AExpConf(a, _sigma) => match a {
                    AExpV::Divide(a1, _a2) => Some(
                        ConfigV::AExpConf(AExpV::Divide(a1, Box::new(a2p)), sigmap),
                    ),
                    _ => None,
                },
                _ => None,
            },
            _ => None,
        },
        // < I1 / I2,Sigma > => < I1 / I2 truncated,Sigma > if I2 is not the
        // literal zero; a quotient outside the machine integer leaves the
        // step stuck.
        Rule::RewriteDivide => match bottom {
            ConfigV::AExpConf(a, sigma) => match a {
                AExpV::Divide(a1, a2) => match (*a1, *a2) {
                    (AExpV::Int(n1), AExpV::Int(n2)) => if n2 == 0 {
                        None
                    } else {
                        let q = div_trunc(n1 as int, n2 as int);
                        if i32::MIN <= q <= i32::MAX {
                            Some(ConfigV::AExpConf(AExpV::Int(q as i32), sigma))
                        } else {
                            None
                        }
                    },
                    _ => None,
                },
                _ => None,
            },
            _ => None,
        },
        // < A1 <= A2,Sigma > => < A1' <= A2,Sigma' > from premise < A1',Sigma' >.
        Rule::RewriteLessThanLeft => match top {
            ConfigV::AExpConf(a1p, sigmap) => match bottom {
                ConfigV::BExpConf(b, _sigma) => match b {
                    BExpV::LessThanEq(_a1, a2) => Some(
                        ConfigV::BExpConf(BExpV::LessThanEq(Box::new(a1p), a2), sigmap),
                    ),
                    _ => None,
                },
                _ => None,
            },
            _ => None,
        },
        // < I1 <= A2,Sigma > => < I1 <= A2',Sigma' > from premise < A2',Sigma' >.
        Rule::RewriteLessThanRight => match top {
            ConfigV::AExpConf(a2p, sigmap) => match bottom {
                ConfigV::BExpConf(b, _sigma) => match b {
                    BExpV::LessThanEq(a1, _a2) => match *a1 {
                        AExpV::Int(_i1) => Some(
                            ConfigV::BExpConf(BExpV::LessThanEq(a1, Box::new(a2p)), sigmap),
                        ),
                        _ => None,
                    },
                    _ => None,
                },
                _ => None,
            },
            _ => None,
        },
        // < I1 <= I2,Sigma > => < I1 <= I2 compared,Sigma >.
        Rule::RewriteLessThan => match bottom {
            ConfigV::BExpConf(b, sigma) => match b {
                BExpV::LessThanEq(a1, a2) => match (*a1, *a2) {
                    (AExpV::Int(n1), AExpV::Int(n2)) => Some(
                        ConfigV::BExpConf(BExpV::Bool(n1 <= n2), sigma),
                    ),
                    _ => None,
                },
                _ => None,
            },
            _ => None,
        },
        // < ! B,Sigma > => < ! B',Sigma' > from premise < B',Sigma' >.
        Rule::RewriteNegate => match top {
            ConfigV::BExpConf(bp, sigmap) => match bottom {
                ConfigV::BExpConf(b, _sigma) => match b {
                    BExpV::Negation(_b1) => Some(
                        ConfigV::BExpConf(BExpV::Negation(Box::new(bp)), sigmap),
                    ),
                    _ => None,
                },
                _ => None,
            },
            _ => None,
        },
        // < ! true,Sigma > => < false,Sigma >.
        Rule::RewriteNegateTrue => match bottom {
            ConfigV::BExpConf(b, sigma) => match b {
                BExpV::Negation(b1) => match *b1 {
                    BExpV::Bool(true) => Some(ConfigV::BExpConf(BExpV::Bool(false), sigma)),
                    _ => None,
                },
                _ => None,
            },
            _ => None,
        },
        // < ! false,Sigma > => < true,Sigma >.
        Rule::RewriteNegateFalse => match bottom {
            ConfigV::BExpConf(b, sigma) => match b {
                BExpV::Negation(b1) => match *b1 {
                    BExpV::Bool(false) => Some(ConfigV::BExpConf(BExpV::Bool(true), sigma)),
                    _ => None,
                },
                _ => None,
            },
            _ => None,
        },
        // < {S},Sigma > => < S,Sigma >.
        Rule::RewriteBlockStatement => match bottom {
            ConfigV::StmtConf(s, sigma) => match s {
                StmtV::StmtBlock(b) => match *b {
                    BlockV::BlockStmt(s1) => Some(ConfigV::StmtConf(*s1, sigma)),
                    _ => None,
                },
                _ => None,
            },
            _ => None,
        },
        // < X = A ;,Sigma > => < X = A' ;,Sigma' > from premise < A',Sigma' >.
        Rule::RewriteAssignmentArith => match bottom {
            ConfigV::StmtConf(s, _sigma) => match s {
                StmtV::Assign(x, _a) => match top {
                    ConfigV::AExpConf(ap, sigmap) => Some(
                        ConfigV::StmtConf(StmtV::Assign(x, Box::new(ap)), sigmap),
                    ),
                    _ => None,
                },
                _ => None,
            },
            _ => None,
        },
        // < X = I ;,Sigma > => < {},Sigma[I / X] > if X is bound in Sigma.
        Rule::RewriteAssignmentInt => match bottom {
            ConfigV::StmtConf(s, sigma) => match s {
                StmtV::Assign(x, a) => match *a {
                    AExpV::Int(v) => if state_lookup(sigma, x) is Some {
                        Some(
                            ConfigV::StmtConf(
                                StmtV::StmtBlock(Box::new(BlockV::EmptyBlock)),
                                state_subst(sigma, x, v),
                            ),
                        )
                    } else {
                        None
                    },
                    _ => None,
                },
                _ => None,
            },
            _ => None,
        },
        // < S1 S2,Sigma > => < S1' S2,Sigma' > from premise < S1',Sigma' >.
        Rule::RewriteSequence => match bottom {
            ConfigV::StmtConf(s, _sigma) => match s {
                StmtV::Sequence(_s1, s2) => match top {
                    ConfigV::StmtConf(s1p, sigmap) => Some(
                        ConfigV::StmtConf(StmtV::Sequence(Box::new(s1p), s2), sigmap),
                    ),
                    _ => None,
                },
                _ => None,
            },
            _ => None,
        },
        // < {} S2,Sigma > => < S2,Sigma >.
        Rule::RewriteEmptyBlock => match bottom {
            ConfigV::StmtConf(s, sigma) => match s {
                StmtV::Sequence(s1, s2) => match *s1 {
                    StmtV::StmtBlock(b) => match *b {
                        BlockV::EmptyBlock => Some(ConfigV::StmtConf(*s2, sigma)),
                        _ => None,
                    },
                    _ => None,
                },
                _ => None,
            },
            _ => None,
        },
        // < if (B) S1 else S2,Sigma > => < if (B') S1 else S2,Sigma' > from
        // premise < B',Sigma' >.
        Rule::RewriteConditional => match top {
            ConfigV::BExpConf(bp, sigmap) => match bottom {
                ConfigV::StmtConf(s, _sigma) => match s {
                    StmtV::IfThenElse(_b, b1, b2) => Some(
                        ConfigV::StmtConf(StmtV::IfThenElse(Box::new(bp), b1, b2), sigmap),
                    ),
                    _ => None,
                },
                _ => None,
            },
            _ => None,
        },
        // < if (true) S1 else S2,Sigma > => < S1,Sigma >.
        Rule::RewriteConditionalTrue => match bottom {
            ConfigV::StmtConf(s, sigma) => match s {
                StmtV::IfThenElse(b, b1, _b2) => match *b {
                    BExpV::Bool(true) => Some(ConfigV::StmtConf(StmtV::StmtBlock(b1), sigma)),
                    _ => None,
                },
                _ => None,
            },
            _ => None,
        },
        // < if (false) S1 else S2,Sigma > => < S2,Sigma >.
        Rule::RewriteConditionalFalse => match bottom {
            ConfigV::StmtConf(s, sigma) => match s {
                StmtV::IfThenElse(b, _b1, b2) => match *b {
                    BExpV::Bool(false) => Some(ConfigV::StmtConf(StmtV::StmtBlock(b2), sigma)),
                    _ => None,
                },
                _ => None,
            },
            _ => None,
        },
        // < while (B) S,Sigma > => < if (B) {S while (B) S} else {},Sigma >.
        Rule::RewriteLoop => match bottom {
            ConfigV::StmtConf(s, sigma) => match s {
                StmtV::While(b, blk) => Some(
                    ConfigV::StmtConf(
                        StmtV::IfThenElse(
                            b,
                            Box::new(
                                BlockV::BlockStmt(
                                    Box::new(
                                        StmtV::Sequence(
                                            Box::new(StmtV::StmtBlock(blk)),
                                            Box::new(StmtV::While(b, blk)),
                                        ),
                                    ),
                                ),
                            ),
                            Box::new(BlockV::EmptyBlock),
                        ),
                        sigma,
                    ),
                ),
                _ => None,
            },
            _ => None,
        },
        // < int Xl ; S > => < S,(Xl |-> 0) >.
        Rule::RewriteTop => match bottom {
            ConfigV::PgmConf(p) => match p {
                PgmV::Program(xl, s) => Some(ConfigV::StmtConf(s, initial_env(xl))),
            },
            _ => None,
        },
        Rule::NoOp => None,
    }
}

/// The fixed one-line rule text shown beside each rule.
pub open spec fn rule_text(r: Rule) -> Seq<char> {
    match r {
        Rule::RewriteVariableLookup => "crl o < X,Sigma > => < Sigma(X),Sigma > if Sigma(X) =/=Bool undefined ."@,
        Rule::RewritePlusLeft => "crl o < A1 + A2,Sigma > => < A1' + A2,Sigma > if o < A1,Sigma > => < A1',Sigma > ."@,
        Rule::RewritePlusRight => "crl o < A1 + A2,Sigma > => < A1 + A2',Sigma > if o < A2,Sigma > => < A2',Sigma > ."@,
        Rule::RewritePlus => " rl o < I1 + I2,Sigma > => < I1 +Int I2,Sigma > ."@,
        Rule::RewriteDivideLeft => "crl o < A1 / A2,Sigma > => < A1' / A2,Sigma > if o < A1,Sigma > => < A1',Sigma > ."@,
        Rule::RewriteDivideRight => "crl o < A1 / A2,Sigma > => < A1 / A2',Sigma > if o < A2,Sigma > => < A2',Sigma > ."@,
        Rule::RewriteDivide => "crl o < I1 / I2,Sigma > => < I1 /Int I2,Sigma > if I2 =/=Bool 0 ."@,
        Rule::RewriteLessThanLeft => "crl o < A1 <= A2,Sigma > => < A1' <= A2,Sigma > if o < A1,Sigma > => < A1',Sigma > ."@,
        Rule::RewriteLessThanRight => "crl o < I1 <= A2,Sigma > => < I1 <= A2',Sigma > if o < A2,Sigma > => < A2',Sigma > ."@,
        Rule::RewriteLessThan => "rl o < I1 <= I2,Sigma > => < I1 <=Int I2,Sigma > ."@,
        Rule::RewriteNegate => "crl o < ! B,Sigma > => < ! B',Sigma > if o < B,Sigma > => < B',Sigma > ."@,
        Rule::RewriteNegateTrue => "rl o < ! true,Sigma > => < false,Sigma > ."@,
        Rule::RewriteNegateFalse => "rl o < ! false,Sigma > => < true,Sigma > ."@,
        Rule::RewriteBlockStatement => "rl o < {S},Sigma > => < S,Sigma > ."@,
        Rule::RewriteAssignmentArith => "crl o < X = A ;,Sigma > => < X = A' ;,Sigma > if o < A,Sigma > => < A',Sigma > ."@,
        Rule::RewriteAssignmentInt => "crl o < X = I ;,Sigma > => < {},Sigma[I / X] > if Sigma(X) =/=Bool undefined ."@,
        Rule::RewriteSequence => "crl o < S1 S2,Sigma > => < S1' S2,Sigma' > if o < S1,Sigma > => < S1',Sigma' > ."@,
        Rule::RewriteEmptyBlock => "rl o < {} S2,Sigma > => < S2,Sigma > ."@,
        Rule::RewriteConditional => "crl o < if (B) S1 else S2,Sigma > => < if (B') S1 else S2,Sigma > if o < B,Sigma > => < B',Sigma  > ."@,
        Rule::RewriteConditionalTrue => "rl o < if (true) S1 else S2,Sigma > => < S1,Sigma > ."@,
        Rule::RewriteConditionalFalse => "rl o < if (false) S1 else S2,Sigma > => < S2,Sigma > ."@,
        Rule::RewriteLoop => "rl o < while (B) S,Sigma > => < if (B) {S while (B) S} else {},Sigma > ."@,
        Rule::RewriteTop => " rl o < int Xl ; S > => < S,(Xl |-> 0) > ."@,
        Rule::NoOp => "This was not supposed to be available"@,
    }
}

/// The fixed human-readable label of each rule.
pub open spec fn rule_label(r: Rule) -> Seq<char> {
    match r {
        Rule::RewriteVariableLookup => "variable lookup"@,
        Rule::RewritePlusLeft => "sum, left congruence"@,
        Rule::RewritePlusRight => "sum, right congruence"@,
        Rule::RewritePlus => "sum"@,
        Rule::RewriteDivideLeft => "quotient, left congruence"@,
        Rule::RewriteDivideRight => "quotient, right congruence"@,
        Rule::RewriteDivide => "quotient"@,
        Rule::RewriteLessThanLeft => "comparison, left congruence"@,
        Rule::RewriteLessThanRight => "comparison, right congruence"@,
        Rule::RewriteLessThan => "comparison"@,
        Rule::RewriteNegate => "negation congruence"@,
        Rule::RewriteNegateTrue => "negation of true"@,
        Rule::RewriteNegateFalse => "negation of false"@,
        Rule::RewriteBlockStatement => "block statement"@,
        Rule::RewriteAssignmentArith => "assignment congruence"@,
        Rule::RewriteAssignmentInt => "assignment"@,
        Rule::RewriteSequence => "sequence congruence"@,
        Rule::RewriteEmptyBlock => "empty block"@,
        Rule::RewriteConditional => "conditional congruence"@,
        Rule::RewriteConditionalTrue => "conditional on true"@,
        Rule::RewriteConditionalFalse => "conditional on false"@,
        Rule::RewriteLoop => "loop unrolling"@,
        Rule::RewriteTop => "program start"@,
        Rule::NoOp => "no rule selected"@,
    }
}

/// The catalogue in presentation order; the `NoOp` sentinel is not offered.
pub open spec fn rule_catalogue() -> Seq<Rule> {
    seq![
        Rule::RewriteVariableLookup,
        Rule::RewritePlusLeft,
        Rule::RewritePlusRight,
        Rule::RewritePlus,
        Rule::RewriteDivideLeft,
        Rule::RewriteDivideRight,
        Rule::RewriteDivide,
        Rule::RewriteLessThanLeft,
        Rule::RewriteLessThanRight,
        Rule::RewriteLessThan,
        Rule::RewriteNegate,
        Rule::RewriteNegateTrue,
        Rule::RewriteNegateFalse,
        Rule::RewriteBlockStatement,
        Rule::RewriteAssignmentArith,
        Rule::RewriteAssignmentInt,
        Rule::RewriteSequence,
        Rule::RewriteEmptyBlock,
        Rule::RewriteConditional,
        Rule::RewriteConditionalTrue,
        Rule::RewriteConditionalFalse,
        Rule::RewriteLoop,
        Rule::RewriteTop,
    ]
}

impl Rule {
    /// The fixed catalogue of selectable rules, in presentation order.
    pub fn list_of_rules() -> (r: Vec<Rule>)
        ensures
            r@ == rule_catalogue(),
    {
        let v: Vec<Rule> = vec![
            Rule::RewriteVariableLookup,
            Rule::RewritePlusLeft,
            Rule::RewritePlusRight,
            Rule::RewritePlus,
            Rule::RewriteDivideLeft,
            Rule::RewriteDivideRight,
            Rule::RewriteDivide,
            Rule::RewriteLessThanLeft,
            Rule::RewriteLessThanRight,
            Rule::RewriteLessThan,
            Rule::RewriteNegate,
            Rule::RewriteNegateTrue,
            Rule::RewriteNegateFalse,
            Rule::RewriteBlockStatement,
            Rule::RewriteAssignmentArith,
            Rule::RewriteAssignmentInt,
            Rule::RewriteSequence,
            Rule::RewriteEmptyBlock,
            Rule::RewriteConditional,
            Rule::RewriteConditionalTrue,
            Rule::RewriteConditionalFalse,
            Rule::RewriteLoop,
            Rule::RewriteTop,
        ];
        proof {
            assert(v@ =~= rule_catalogue());
        }
        v
    }

    /// The fixed one-line rule text of this rule.
    pub fn get_description(&self) -> (res: String)
        ensures
            res@ == rule_text(*self),
    {
        match self {
            Rule::RewriteVariableLookup => "crl o < X,Sigma > => < Sigma(X),Sigma > if Sigma(X) =/=Bool undefined .".to_owned(),
            Rule::RewritePlusLeft => "crl o < A1 + A2,Sigma > => < A1' + A2,Sigma > if o < A1,Sigma > => < A1',Sigma > .".to_owned(),
            Rule::RewritePlusRight => "crl o < A1 + A2,Sigma > => < A1 + A2',Sigma > if o < A2,Sigma > => < A2',Sigma > .".to_owned(),
            Rule::RewritePlus => " rl o < I1 + I2,Sigma > => < I1 +Int I2,Sigma > .".to_owned(),
            Rule::RewriteDivideLeft => "crl o < A1 / A2,Sigma > => < A1' / A2,Sigma > if o < A1,Sigma > => < A1',Sigma > .".to_owned(),
            Rule::RewriteDivideRight => "crl o < A1 / A2,Sigma > => < A1 / A2',Sigma > if o < A2,Sigma > => < A2',Sigma > .".to_owned(),
            Rule::RewriteDivide => "crl o < I1 / I2,Sigma > => < I1 /Int I2,Sigma > if I2 =/=Bool 0 .".to_owned(),
            Rule::RewriteLessThanLeft => "crl o < A1 <= A2,Sigma > => < A1' <= A2,Sigma > if o < A1,Sigma > => < A1',Sigma > .".to_owned(),
            Rule::RewriteLessThanRight => "crl o < I1 <= A2,Sigma > => < I1 <= A2',Sigma > if o < A2,Sigma > => < A2',Sigma > .".to_owned(),
            Rule::RewriteLessThan => "rl o < I1 <= I2,Sigma > => < I1 <=Int I2,Sigma > .".to_owned(),
            Rule::RewriteNegate => "crl o < ! B,Sigma > => < ! B',Sigma > if o < B,Sigma > => < B',Sigma > .".to_owned(),
            Rule::RewriteNegateTrue => "rl o < ! true,Sigma > => < false,Sigma > .".to_owned(),
            Rule::RewriteNegateFalse => "rl o < ! false,Sigma > => < true,Sigma > .".to_owned(),
            Rule::RewriteBlockStatement => "rl o < {S},Sigma > => < S,Sigma > .".to_owned(),
            Rule::RewriteAssignmentArith => "crl o < X = A ;,Sigma > => < X = A' ;,Sigma > if o < A,Sigma > => < A',Sigma > .".to_owned(),
            Rule::RewriteAssignmentInt => "crl o < X = I ;,Sigma > => < {},Sigma[I / X] > if Sigma(X) =/=Bool undefined .".to_owned(),
            Rule::RewriteSequence => "crl o < S1 S2,Sigma > => < S1' S2,Sigma' > if o < S1,Sigma > => < S1',Sigma' > .".to_owned(),
            Rule::RewriteEmptyBlock => "rl o < {} S2,Sigma > => < S2,Sigma > .".to_owned(),
            Rule::RewriteConditional => "crl o < if (B) S1 else S2,Sigma > => < if (B') S1 else S2,Sigma > if o < B,Sigma > => < B',Sigma  > .".to_owned(),
            Rule::RewriteConditionalTrue => "rl o < if (true) S1 else S2,Sigma > => < S1,Sigma > .".to_owned(),
            Rule::RewriteConditionalFalse => "rl o < if (false) S1 else S2,Sigma > => < S2,Sigma > .".to_owned(),
            Rule::RewriteLoop => "rl o < while (B) S,Sigma > => < if (B) {S while (B) S} else {},Sigma > .".to_owned(),
            Rule::RewriteTop => " rl o < int Xl ; S > => < S,(Xl |-> 0) > .".to_owned(),
            Rule::NoOp => "This was not supposed to be available".to_owned(),
        }
    }

    /// The fixed human-readable label of this rule.
    pub fn get_label(&self) -> (res: String)
        ensures
            res@ == rule_label(*self),
    {
        match self {
            Rule::RewriteVariableLookup => "variable lookup".to_owned(),
            Rule::RewritePlusLeft => "sum, left congruence".to_owned(),
            Rule::RewritePlusRight => "sum, right congruence".to_owned(),
            Rule::RewritePlus => "sum".to_owned(),
            Rule::RewriteDivideLeft => "quotient, left congruence".to_owned(),
            Rule::RewriteDivideRight => "quotient, right congruence".to_owned(),
            Rule::RewriteDivide => "quotient".to_owned(),
            Rule::RewriteLessThanLeft => "comparison, left congruence".to_owned(),
            Rule::RewriteLessThanRight => "comparison, right congruence".to_owned(),
            Rule::RewriteLessThan => "comparison".to_owned(),
            Rule::RewriteNegate => "negation congruence".to_owned(),
            Rule::RewriteNegateTrue => "negation of true".to_owned(),
            Rule::RewriteNegateFalse => "negation of false".to_owned(),
            Rule::RewriteBlockStatement => "block statement".to_owned(),
            Rule::RewriteAssignmentArith => "assignment congruence".to_owned(),
            Rule::RewriteAssignmentInt => "assignment".to_owned(),
            Rule::RewriteSequence => "sequence congruence".to_owned(),
            Rule::RewriteEmptyBlock => "empty block".to_owned(),
            Rule::RewriteConditional => "conditional congruence".to_owned(),
            Rule::RewriteConditionalTrue => "conditional on true".to_owned(),
            Rule::RewriteConditionalFalse => "conditional on false".to_owned(),
            Rule::RewriteLoop => "loop unrolling".to_owned(),
            Rule::RewriteTop => "program start".to_owned(),
            Rule::NoOp => "no rule selected".to_owned(),
        }
    }

    /// *Descend*: test whether the focused judgment matches this rule's
    /// left-hand pattern.  A congruence rule answers with the premise
    /// judgment; a base rule answers with the no-payload marker.
    pub fn get_next_configuration(&self, conf: Configuration) -> (res: Option<Configuration>)
        ensures
            res.deep_view() == rule_descend(*self, conf.deep_view()),
    {
        match self {
            Rule::RewriteVariableLookup => match conf {
                Configuration::AExpConf(x, sigma) => match *x {
                    AExp::Id(x) => match sigma.lookup(&x) {
                        Some(_v) => Some(Configuration::Dummy),
                        None => None,
                    },
                    _ => None,
                },
                _ => None,
            },
            Rule::RewritePlusLeft => match conf {
                Configuration::AExpConf(x, sigma) => match *x {
                    AExp::Plus(a1, _a2) => Some(Configuration::AExpConf(a1, sigma)),
                    _ => None,
                },
                _ => None,
            },
            Rule::RewritePlusRight => match conf {
                Configuration::AExpConf(x, sigma) => match *x {
                    AExp::Plus(_a1, a2) => Some(Configuration::AExpConf(a2, sigma)),
                    _ => None,
                },
                _ => None,
            },
            Rule::RewritePlus => Some(Configuration::Dummy),
            Rule::RewriteDivideLeft => match conf {
                Configuration::AExpConf(x, sigma) => match *x {
                    AExp::Divide(a1, _a2) => Some(Configuration::AExpConf(a1, sigma)),
                    _ => None,
                },
                _ => None,
            },
            Rule::RewriteDivideRight => match conf {
                Configuration::AExpConf(x, sigma) => match *x {
                    AExp::Divide(_a1, a2) => Some(Configuration::AExpConf(a2, sigma)),
                    _ => None,
                },
                _ => None,
            },
            Rule::RewriteDivide => Some(Configuration::Dummy),
            Rule::RewriteLessThanLeft => match conf {
                Configuration::BExpConf(x, sigma) => match *x {
                    BExp::LessThanEq(a1, _a2) => Some(Configuration::AExpConf(a1, sigma)),
                    _ => None,
                },
                _ => None,
            },
            Rule::RewriteLessThanRight => match conf {
                Configuration::BExpConf(x, sigma) => match *x {
                    BExp::LessThanEq(a1, a2) => match *a1 {
                        AExp::Int(_i1) => Some(Configuration::AExpConf(a2, sigma)),
                        _ => None,
                    },
                    _ => None,
                },
                _ => None,
            },
            Rule::RewriteLessThan => Some(Configuration::Dummy),
            Rule::RewriteNegate => match conf {
                Configuration::BExpConf(x, sigma) => match *x {
                    BExp::Negation(b) => Some(Configuration::BExpConf(b, sigma)),
                    _ => None,
                },
                _ => None,
            },
            Rule::RewriteNegateTrue => Some(Configuration::Dummy),
            Rule::RewriteNegateFalse => Some(Configuration::Dummy),
            Rule::RewriteBlockStatement => Some(Configuration::Dummy),
            Rule::RewriteAssignmentArith => match conf {
                Configuration::StmtConf(x, sigma) => match *x {
                    Stmt::Assign(_x, a) => Some(Configuration::AExpConf(a, sigma)),
                    _ => None,
                },
                _ => None,
            },
            Rule::RewriteAssignmentInt => Some(Configuration::Dummy),
            Rule::RewriteSequence => match conf {
                Configuration::StmtConf(x, sigma) => match *x {
                    Stmt::Sequence(s1, _s2) => Some(Configuration::StmtConf(s1, sigma)),
                    _ => None,
                },
                _ => None,
            },
            Rule::RewriteEmptyBlock => Some(Configuration::Dummy),
            Rule::RewriteConditional => match conf {
                Configuration::StmtConf(s, sigma) => match *s {
                    Stmt::IfThenElse(b, _b1, _b2) => Some(Configuration::BExpConf(b, sigma)),
                    _ => None,
                },
                _ => None,
            },
            Rule::RewriteConditionalTrue => Some(Configuration::Dummy),
            Rule::RewriteConditionalFalse => Some(Configuration::Dummy),
            Rule::RewriteLoop => Some(Configuration::Dummy),
            Rule::RewriteTop => Some(Configuration::Dummy),
            Rule::NoOp => None,
        }
    }

    /// *Reduce*: `bottom` is the judgment below the line, `top` the resolved
    /// premise above it; the answer is the rewritten judgment, or `None`
    /// when the shapes do not match the rule.
    pub fn reduce_down(&self, bottom: Configuration, top: Configuration) -> (res: Option<
        Configuration,
    >)
        ensures
            res.deep_view() == rule_reduce(*self, bottom.deep_view(), top.deep_view()),
    {
        match self {
            Rule::RewriteVariableLookup => reduce_variable_lookup(bottom, top),
            Rule::RewritePlusLeft => reduce_plus_left(bottom, top),
            Rule::RewritePlusRight => reduce_plus_right(bottom, top),
            Rule::RewritePlus => reduce_plus(bottom, top),
            Rule::RewriteDivideLeft => reduce_divide_left(bottom, top),
            Rule::RewriteDivideRight => reduce_divide_right(bottom, top),
            Rule::RewriteDivide => reduce_divide(bottom, top),
            Rule::RewriteLessThanLeft => reduce_less_than_left(bottom, top),
            Rule::RewriteLessThanRight => reduce_less_than_right(bottom, top),
            Rule::RewriteLessThan => reduce_less_than(bottom, top),
            Rule::RewriteNegate => reduce_negate(bottom, top),
            Rule::RewriteNegateTrue => reduce_negate_true(bottom, top),
            Rule::RewriteNegateFalse => reduce_negate_false(bottom, top),
            Rule::RewriteBlockStatement => reduce_block_statement(bottom, top),
            Rule::RewriteAssignmentArith => reduce_assignment_arith(bottom, top),
            Rule::RewriteAssignmentInt => reduce_assignment_int(bottom, top),
            Rule::RewriteSequence => reduce_sequence(bottom, top),
            Rule::RewriteEmptyBlock => reduce_empty_block(bottom, top),
            Rule::RewriteConditional => reduce_conditional(bottom, top),
            Rule::RewriteConditionalTrue => reduce_conditional_true(bottom, top),
            Rule::RewriteConditionalFalse => reduce_conditional_false(bottom, top),
            Rule::RewriteLoop => reduce_loop(bottom, top),
            Rule::RewriteTop => reduce_top(bottom, top),
            Rule::NoOp => None,
        }
    }
}

/// The *reduce* step of `Rule::RewriteVariableLookup`.
fn reduce_variable_lookup(bottom: Configuration, _top: Configuration) -> (res: Option<Configuration>)
    ensures
        res.deep_view() == rule_reduce(Rule::RewriteVariableLookup, bottom.deep_view(), _top.deep_view()),
{
    match bottom {
                Configuration::AExpConf(x, sigma) => match *x {
                    AExp::Id(x) => match sigma.lookup(&x) {
                        Some(v) => Some(
                            Configuration::AExpConf(Box::new(AExp::Int(v)), sigma),
                        ),
                        None => None,
                    },
                    _ => None,
                },
                _ => None,
            }
}

/// The *reduce* step of `Rule::RewritePlusLeft`.
fn reduce_plus_left(bottom: Configuration, top: Configuration) -> (res: Option<Configuration>)
    ensures
        res.deep_view() == rule_reduce(Rule::RewritePlusLeft, bottom.deep_view(), top.deep_view()),
{
    match top {
                Configuration::AExpConf(a1p, sigmap) => match bottom {
                    Configuration::AExpConf(x, _sigma) => match *x {
                        AExp::Plus(_a1, a2) => Some(
                            Configuration::AExpConf(Box::new(AExp::Plus(a1p, a2)), sigmap),
                        ),
                        _ => None,
                    },
                    _ => None,
                },
                _ => None,
            }
}

/// The *reduce* step of `Rule::RewritePlusRight`.
fn reduce_plus_right(bottom: Configuration, top: Configuration) -> (res: Option<Configuration>)
    ensures
        res.deep_view() == rule_reduce(Rule::RewritePlusRight, bottom.deep_view(), top.deep_view()),
{
    match top {
                Configuration::AExpConf(a2p, sigmap) => match bottom {
                    Configuration::AExpConf(x, _sigma) => match *x {
                        AExp::Plus(a1, _a2) => Some(
                            Configuration::AExpConf(Box::new(AExp::Plus(a1, a2p)), sigmap),
                        ),
                        _ => None,
                    },
                    _ => None,
                },
                _ => None,
            }
}

/// The *reduce* step of `Rule::RewritePlus`.
fn reduce_plus(bottom: Configuration, _top: Configuration) -> (res: Option<Configuration>)
    ensures
        res.deep_view() == rule_reduce(Rule::RewritePlus, bottom.deep_view(), _top.deep_view()),
{
    proof {
        reveal_with_fuel(aexp_view, 4);
        reveal_with_fuel(bexp_view, 4);
        reveal_with_fuel(stmt_view, 4);
        reveal_with_fuel(block_view, 4);
    }
    match bottom {
                Configuration::AExpConf(x, sigma) => match *x {
                    AExp::Plus(b1, b2) => match (*b1, *b2) {
                        (AExp::Int(n1), AExp::Int(n2)) => match n1.checked_add(n2) {
                            Some(v) => Some(
                                Configuration::AExpConf(Box::new(AExp::Int(v)), sigma),
                            ),
                            None => None,
                        },
                        _ => None,
                    },
                    _ => None,
                },
                _ => None,
            }
}

/// The *reduce* step of `Rule::RewriteDivideLeft`.
fn reduce_divide_left(bottom: Configuration, top: Configuration) -> (res: Option<Configuration>)
    ensures
        res.deep_view() == rule_reduce(Rule::RewriteDivideLeft, bottom.deep_view(), top.deep_view()),
{
    match top {
                Configuration::AExpConf(a1p, sigmap) => match bottom {
                    Configuration::AExpConf(x, _sigma) => match *x {
                        AExp::Divide(_a1, a2) => Some(
                            Configuration::AExpConf(Box::new(AExp::Divide(a1p, a2)), sigmap),
                        ),
                        _ => None,
                    },
                    _ => None,
                },
                _ => None,
            }
}

/// The *reduce* step of `Rule::RewriteDivideRight`.
fn reduce_divide_right(bottom: Configuration, top: Configuration) -> (res: Option<Configuration>)
    ensures
        res.deep_view() == rule_reduce(Rule::RewriteDivideRight, bottom.deep_view(), top.deep_view()),
{
    match top {
                Configuration::AExpConf(a2p, sigmap) => match bottom {
                    Configuration::AExpConf(x, _sigma) => match *x {
                        AExp::Divide(a1, _a2) => Some(
                            Configuration::AExpConf(Box::new(AExp::Divide(a1, a2p)), sigmap),
                        ),
                        _ => None,
                    },
                    _ => None,
                },
                _ => None,
            }
}

/// The *reduce* step of `Rule::RewriteDivide`.
fn reduce_divide(bottom: Configuration, _top: Configuration) -> (res: Option<Configuration>)
    ensures
        res.deep_view() == rule_reduce(Rule::RewriteDivide, bottom.deep_view(), _top.deep_view()),
{
    proof {
        reveal_with_fuel(aexp_view, 4);
        reveal_with_fuel(bexp_view, 4);
        reveal_with_fuel(stmt_view, 4);
        reveal_with_fuel(block_view, 4);
    }
    match bottom {
                Configuration::AExpConf(x, sigma) => match *x {
                    AExp::Divide(b1, b2) => match (*b1, *b2) {
                        (AExp::Int(n1), AExp::Int(n2)) => if n2 == 0 {
                            None
                        } else {
                            match n1.checked_div(n2) {
                                Some(v) => Some(
                                    Configuration::AExpConf(Box::new(AExp::Int(v)), sigma),
                                ),
                                None => None,
                            }
                        },
                        _ => None,
                    },
                    _ => None,
                },
                _ => None,
            }
}

/// The *reduce* step of `Rule::RewriteLessThanLeft`.
fn reduce_less_than_left(bottom: Configuration, top: Configuration) -> (res: Option<Configuration>)
    ensures
        res.deep_view() == rule_reduce(Rule::RewriteLessThanLeft, bottom.deep_view(), top.deep_view()),
{
    match top {
                Configuration::AExpConf(a1p, sigmap) => match bottom {
                    Configuration::BExpConf(x, _sigma) => match *x {
                        BExp::LessThanEq(_a1, a2) => Some(
                            Configuration::BExpConf(
                                Box::new(BExp::LessThanEq(a1p, a2)),
                                sigmap,
                            ),
                        ),
                        _ => None,
                    },
                    _ => None,
                },
                _ => None,
            }
}

/// The *reduce* step of `Rule::RewriteLessThanRight`.
fn reduce_less_than_right(bottom: Configuration, top: Configuration) -> (res: Option<Configuration>)
    ensures
        res.deep_view() == rule_reduce(Rule::RewriteLessThanRight, bottom.deep_view(), top.deep_view()),
{
    match top {
                Configuration::AExpConf(a2p, sigmap) => match bottom {
                    Configuration::BExpConf(x, _sigma) => match *x {
                        BExp::LessThanEq(a1, _a2) => match *a1 {
                            AExp::Int(i1) => Some(
                                Configuration::BExpConf(
                                    Box::new(
                                        BExp::LessThanEq(Box::new(AExp::Int(i1)), a2p),
                                    ),
                                    sigmap,
                                ),
                            ),
                            _ => None,
                        },
                        _ => None,
                    },
                    _ => None,
                },
                _ => None,
            }
}

/// The *reduce* step of `Rule::RewriteLessThan`.
fn reduce_less_than(bottom: Configuration, _top: Configuration) -> (res: Option<Configuration>)
    ensures
        res.deep_view() == rule_reduce(Rule::RewriteLessThan, bottom.deep_view(), _top.deep_view()),
{
    match bottom {
                Configuration::BExpConf(x, sigma) => match *x {
                    BExp::LessThanEq(b1, b2) => match (*b1, *b2) {
                        (AExp::Int(n1), AExp::Int(n2)) => Some(
                            Configuration::BExpConf(Box::new(BExp::Bool(n1 <= n2)), sigma),
                        ),
                        _ => None,
                    },
                    _ => None,
                },
                _ => None,
            }
}

/// The *reduce* step of `Rule::RewriteNegate`.
fn reduce_negate(bottom: Configuration, top: Configuration) -> (res: Option<Configuration>)
    ensures
        res.deep_view() == rule_reduce(Rule::RewriteNegate, bottom.deep_view(), top.deep_view()),
{
    match top {
                Configuration::BExpConf(bp, sigmap) => match bottom {
                    Configuration::BExpConf(x, _sigma) => match *x {
                        BExp::Negation(_b1) => Some(
                            Configuration::BExpConf(Box::new(BExp::Negation(bp)), sigmap),
                        ),
                        _ => None,
                    },
                    _ => None,
                },
                _ => None,
            }
}

/// The *reduce* step of `Rule::RewriteNegateTrue`.
fn reduce_negate_true(bottom: Configuration, _top: Configuration) -> (res: Option<Configuration>)
    ensures
        res.deep_view() == rule_reduce(Rule::RewriteNegateTrue, bottom.deep_view(), _top.deep_view()),
{
    proof {
        reveal_with_fuel(aexp_view, 4);
        reveal_with_fuel(bexp_view, 4);
        reveal_with_fuel(stmt_view, 4);
        reveal_with_fuel(block_view, 4);
    }
    match bottom {
                Configuration::BExpConf(x, sigma) => match *x {
                    BExp::Negation(b1) => match *b1 {
                        BExp::Bool(true) => Some(
                            Configuration::BExpConf(Box::new(BExp::Bool(false)), sigma),
                        ),
                        _ => None,
                    },
                    _ => None,
                },
                _ => None,
            }
}

/// The *reduce* step of `Rule::RewriteNegateFalse`.
fn reduce_negate_false(bottom: Configuration, _top: Configuration) -> (res: Option<Configuration>)
    ensures
        res.deep_view() == rule_reduce(Rule::RewriteNegateFalse, bottom.deep_view(), _top.deep_view()),
{
    proof {
        reveal_with_fuel(aexp_view, 4);
        reveal_with_fuel(bexp_view, 4);
        reveal_with_fuel(stmt_view, 4);
        reveal_with_fuel(block_view, 4);
    }
    match bottom {
                Configuration::BExpConf(x, sigma) => match *x {
                    BExp::Negation(b1) => match *b1 {
                        BExp::Bool(false) => Some(
                            Configuration::BExpConf(Box::new(BExp::Bool(true)), sigma),
                        ),
                        _ => None,
                    },
                    _ => None,
                },
                _ => None,
            }
}

/// The *reduce* step of `Rule::RewriteBlockStatement`.
fn reduce_block_statement(bottom: Configuration, _top: Configuration) -> (res: Option<Configuration>)
    ensures
        res.deep_view() == rule_reduce(Rule::RewriteBlockStatement, bottom.deep_view(), _top.deep_view()),
{
    proof {
        reveal_with_fuel(aexp_view, 4);
        reveal_with_fuel(bexp_view, 4);
        reveal_with_fuel(stmt_view, 4);
        reveal_with_fuel(block_view, 4);
    }
    match bottom {
                Configuration::StmtConf(x, sigma) => match *x {
                    Stmt::StmtBlock(b) => match *b {
                        Block::BlockStmt(s) => Some(Configuration::StmtConf(s, sigma)),
                        _ => None,
                    },
                    _ => None,
                },
                _ => None,
            }
}

/// The *reduce* step of `Rule::RewriteAssignmentArith`.
fn reduce_assignment_arith(bottom: Configuration, top: Configuration) -> (res: Option<Configuration>)
    ensures
        res.deep_view() == rule_reduce(Rule::RewriteAssignmentArith, bottom.deep_view(), top.deep_view()),
{
    match bottom {
                Configuration::StmtConf(x, _sigma) => match *x {
                    Stmt::Assign(x, _a) => match top {
                        Configuration::AExpConf(ap, sigmap) => Some(
                            Configuration::StmtConf(Box::new(Stmt::Assign(x, ap)), sigmap),
                        ),
                        _ => None,
                    },
                    _ => None,
                },
                _ => None,
            }
}

/// The *reduce* step of `Rule::RewriteAssignmentInt`.
fn reduce_assignment_int(bottom: Configuration, _top: Configuration) -> (res: Option<Configuration>)
    ensures
        res.deep_view() == rule_reduce(Rule::RewriteAssignmentInt, bottom.deep_view(), _top.deep_view()),
{
    proof {
        reveal_with_fuel(aexp_view, 4);
        reveal_with_fuel(bexp_view, 4);
        reveal_with_fuel(stmt_view, 4);
        reveal_with_fuel(block_view, 4);
    }
    match bottom {
                Configuration::StmtConf(x, sigma) => match *x {
                    Stmt::Assign(x, a) => match *a {
                        AExp::Int(i) => match sigma.lookup(&x) {
                            Some(_v) => Some(
                                Configuration::StmtConf(
                                    Box::new(Stmt::StmtBlock(Box::new(Block::EmptyBlock))),
                                    sigma.substitute(x, i),
                                ),
                            ),
                            None => None,
                        },
                        _ => None,
                    },
                    _ => None,
                },
                _ => None,
            }
}

/// The *reduce* step of `Rule::RewriteSequence`.
fn reduce_sequence(bottom: Configuration, top: Configuration) -> (res: Option<Configuration>)
    ensures
        res.deep_view() == rule_reduce(Rule::RewriteSequence, bottom.deep_view(), top.deep_view()),
{
    match bottom {
                Configuration::StmtConf(x, _sigma) => match *x {
                    Stmt::Sequence(_s1, s2) => match top {
                        Configuration::StmtConf(s1p, sigmap) => Some(
                            Configuration::StmtConf(
                                Box::new(Stmt::Sequence(s1p, s2)),
                                sigmap,
                            ),
                        ),
                        _ => None,
                    },
                    _ => None,
                },
                _ => None,
            }
}

/// The *reduce* step of `Rule::RewriteEmptyBlock`.
fn reduce_empty_block(bottom: Configuration, _top: Configuration) -> (res: Option<Configuration>)
    ensures
        res.deep_view() == rule_reduce(Rule::RewriteEmptyBlock, bottom.deep_view(), _top.deep_view()),
{
    proof {
        reveal_with_fuel(aexp_view, 4);
        reveal_with_fuel(bexp_view, 4);
        reveal_with_fuel(stmt_view, 4);
        reveal_with_fuel(block_view, 4);
    }
    match bottom {
                Configuration::StmtConf(s, sigma) => match *s {
                    Stmt::Sequence(s1, s2) => match *s1 {
                        Stmt::StmtBlock(b) => match *b {
                            Block::EmptyBlock => Some(Configuration::StmtConf(s2, sigma)),
                            _ => None,
                        },
                        _ => None,
                    },
                    _ => None,
                },
                _ => None,
            }
}

/// The *reduce* step of `Rule::RewriteConditional`.
fn reduce_conditional(bottom: Configuration, top: Configuration) -> (res: Option<Configuration>)
    ensures
        res.deep_view() == rule_reduce(Rule::RewriteConditional, bottom.deep_view(), top.deep_view()),
{
    match top {
                Configuration::BExpConf(bp, sigmap) => match bottom {
                    Configuration::StmtConf(s, _sigma) => match *s {
                        Stmt::IfThenElse(_b, b1, b2) => Some(
                            Configuration::StmtConf(
                                Box::new(Stmt::IfThenElse(bp, b1, b2)),
                                sigmap,
                            ),
                        ),
                        _ => None,
                    },
                    _ => None,
                },
                _ => None,
            }
}

/// The *reduce* step of `Rule::RewriteConditionalTrue`.
fn reduce_conditional_true(bottom: Configuration, _top: Configuration) -> (res: Option<Configuration>)
    ensures
        res.deep_view() == rule_reduce(Rule::RewriteConditionalTrue, bottom.deep_view(), _top.deep_view()),
{
    match bottom {
                Configuration::StmtConf(s, sigma) => match *s {
                    Stmt::IfThenElse(b, b1, _b2) => match *b {
                        BExp::Bool(true) => Some(
                            Configuration::StmtConf(Box::new(Stmt::StmtBlock(b1)), sigma),
                        ),
                        _ => None,
                    },
                    _ => None,
                },
                _ => None,
            }
}

/// The *reduce* step of `Rule::RewriteConditionalFalse`.
fn reduce_conditional_false(bottom: Configuration, _top: Configuration) -> (res: Option<Configuration>)
    ensures
        res.deep_view() == rule_reduce(Rule::RewriteConditionalFalse, bottom.deep_view(), _top.deep_view()),
{
    match bottom {
                Configuration::StmtConf(s, sigma) => match *s {
                    Stmt::IfThenElse(b, _b1, b2) => match *b {
                        BExp::Bool(false) => Some(
                            Configuration::StmtConf(Box::new(Stmt::StmtBlock(b2)), sigma),
                        ),
                        _ => None,
                    },
                    _ => None,
                },
                _ => None,
            }
}

/// The *reduce* step of `Rule::RewriteLoop`.
fn reduce_loop(bottom: Configuration, _top: Configuration) -> (res: Option<Configuration>)
    ensures
        res.deep_view() == rule_reduce(Rule::RewriteLoop, bottom.deep_view(), _top.deep_view()),
{
    proof {
        reveal_with_fuel(aexp_view, 4);
        reveal_with_fuel(bexp_view, 4);
        reveal_with_fuel(stmt_view, 4);
        reveal_with_fuel(block_view, 4);
    }
    match bottom {
                Configuration::StmtConf(s, sigma) => match *s {
                    Stmt::While(b, blk) => {
                        let b2: Box<BExp> = Box::new((*b).clone());
                        let blk2: Box<Block> = Box::new((*blk).clone());
                        Some(
                            Configuration::StmtConf(
                                Box::new(
                                    Stmt::IfThenElse(
                                        b2,
                                        Box::new(
                                            Block::BlockStmt(
                                                Box::new(
                                                    Stmt::Sequence(
                                                        Box::new(Stmt::StmtBlock(blk2)),
                                                        Box::new(Stmt::While(b, blk)),
                                                    ),
                                                ),
                                            ),
                                        ),
                                        Box::new(Block::EmptyBlock),
                                    ),
                                ),
                                sigma,
                            ),
                        )
                    },
                    _ => None,
                },
                _ => None,
            }
}

/// The *reduce* step of `Rule::RewriteTop`.
fn reduce_top(bottom: Configuration, _top: Configuration) -> (res: Option<Configuration>)
    ensures
        res.deep_view() == rule_reduce(Rule::RewriteTop, bottom.deep_view(), _top.deep_view()),
{
    match bottom {
                Configuration::PgmConf(p) => match *p {
                    Pgm::Program(xl, s) => Some(
                        Configuration::StmtConf(Box::new(s), State::create_state(xl)),
                    ),
                },
                _ => None,
            }
}

} // verus!
