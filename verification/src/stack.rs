//! The derivation stack: the explicit two-stack machine that drives rule
//! application, premise opening, premise discharge and undo.
//!
//! Two parallel stacks are kept: judgments (bottom = the program-level
//! judgment, each entry above it a premise opened while discharging the
//! entry below) and the rules chosen to relate each judgment to the one
//! above it.  At rest there is always exactly one more judgment than
//! committed rules; the top judgment is the open proof target.
//!
//! Applying a congruence rule pushes its premise; applying a base rule
//! enters the collapse loop, folding the whole chain of opened premises
//! back into a single rewritten judgment.  Every failure (the rule's
//! pattern does not match, or a reduce step is stuck) leaves the stacks
//! exactly as they were.

use vstd::prelude::*;

use crate::ast::{AExp, AExpV, BExp, BExpV, Block, BlockV, Pgm, PgmV, Stmt, StmtV};
use crate::ast::{aexp_view, bexp_view, block_view, stmt_view};
use crate::judgment::{ConfigV, Configuration};
use crate::rules::{Rule, rule_descend, rule_reduce};

verus! {

/// The derivation stack: parallel judgment and rule stacks.
#[derive(Debug, PartialEq)]
pub struct Stack {
    stack: Vec<Configuration>,
    rules: Vec<Rule>,
}

/// Mathematical model of the derivation stack.
pub struct StackV {
    pub judgments: Seq<ConfigV>,
    pub rules: Seq<Rule>,
}

impl View for Stack {
    type V = StackV;

    closed spec fn view(&self) -> StackV {
        StackV { judgments: self.stack.deep_view(), rules: self.rules@ }
    }
}

/// The resting-state invariant: one more judgment than committed rules, the
/// top judgment being the currently open one.
pub open spec fn stack_wf(s: StackV) -> bool {
    s.judgments.len() == s.rules.len() + 1
}

/// The collapse loop: fold the accumulator through the opened premises,
/// last-in-first-out.  `judgments` and `rules` are the parallel stacks still
/// to fold; the answer is the single rewritten judgment, or `None` as soon
/// as one reduce step is stuck.
pub open spec fn collapse(judgments: Seq<ConfigV>, rules: Seq<Rule>, acc: ConfigV) -> Option<
    ConfigV,
>
    recommends
        judgments.len() == rules.len(),
    decreases rules.len(),
{
    if rules.len() == 0 {
        Some(acc)
    } else {
        match rule_reduce(rules.last(), judgments.last(), acc) {
            Some(acc2) => collapse(judgments.drop_last(), rules.drop_last(), acc2),
            None => None,
        }
    }
}

/// What applying `r` does to a resting stack: `None` when the application
/// fails (and the stack is to stay unchanged); otherwise the new stack.  A
/// congruence rule pushes its premise and records `r`; a base rule reduces
/// the top judgment and collapses the whole chain to a single judgment.
pub open spec fn apply_rule_spec(s: StackV, r: Rule) -> Option<StackV>
    recommends
        stack_wf(s),
{
    match rule_descend(r, s.judgments.last()) {
        None => None,
        Some(c) => if c is Dummy {
            match rule_reduce(r, s.judgments.last(), ConfigV::Dummy) {
                None => None,
                Some(acc) => match collapse(s.judgments.drop_last(), s.rules, acc) {
                    None => None,
                    Some(fin) => Some(StackV { judgments: seq![fin], rules: Seq::empty() }),
                },
            }
        } else {
            Some(StackV { judgments: s.judgments.push(c), rules: s.rules.push(r) })
        },
    }
}

/// The side-effect-free dry run: a congruence rule is applicable when its
/// pattern matches the top judgment; a base rule additionally needs its
/// single reduce step not to be stuck.
pub open spec fn can_apply_spec(s: StackV, r: Rule) -> bool {
    match rule_descend(r, s.judgments.last()) {
        None => false,
        Some(c) => if c is Dummy {
            rule_reduce(r, s.judgments.last(), ConfigV::Dummy) is Some
        } else {
            true
        },
    }
}

/// The subset of `rules` that the dry run accepts on the stack `s`, in
/// order.
pub open spec fn enabled_rules_spec(s: StackV, rules: Seq<Rule>) -> Seq<Rule>
    decreases rules.len(),
{
    if rules.len() == 0 {
        Seq::empty()
    } else if can_apply_spec(s, rules.last()) {
        enabled_rules_spec(s, rules.drop_last()).push(rules.last())
    } else {
        enabled_rules_spec(s, rules.drop_last())
    }
}

/// Undo: discard the top judgment and the most recently recorded rule; a
/// stack holding only its initial judgment stays as it is.
pub open spec fn pop_spec(s: StackV) -> StackV {
    if s.judgments.len() > 1 {
        StackV { judgments: s.judgments.drop_last(), rules: s.rules.drop_last() }
    } else {
        s
    }
}

/// The model of the built-in example program
/// `int x, y; x = 5; y = 7; while (x <= y) { x = x + 1 }`.
pub open spec fn example_program_v() -> PgmV {
    PgmV::Program(
        seq!["x"@, "y"@],
        StmtV::Sequence(
            Box::new(StmtV::Assign("x"@, Box::new(AExpV::Int(5)))),
            Box::new(
                StmtV::Sequence(
                    Box::new(StmtV::Assign("y"@, Box::new(AExpV::Int(7)))),
                    Box::new(
                        StmtV::While(
                            Box::new(
                                BExpV::LessThanEq(
                                    Box::new(AExpV::Id("x"@)),
                                    Box::new(AExpV::Id("y"@)),
                                ),
                            ),
                            Box::new(
                                BlockV::BlockStmt(
                                    Box::new(
                                        StmtV::Assign(
                                            "x"@,
                                            Box::new(
                                                AExpV::Plus(
                                                    Box::new(AExpV::Id("x"@)),
                                                    Box::new(AExpV::Int(1)),
                                                ),
                                            ),
                                        ),
                                    ),
                                ),
                            ),
                        ),
                    ),
                ),
            ),
        ),
    )
}

impl Stack {
    /// The resting-state invariant of this stack.
    pub open spec fn wf(&self) -> bool {
        stack_wf(self@)
    }

    /// The judgment stack, bottom first; the last entry is the focused one.
    pub fn judgments(&self) -> (r: &Vec<Configuration>)
        ensures
            r.deep_view() == self@.judgments,
    {
        &self.stack
    }

    /// The committed rules, in the order they were applied.
    pub fn applied_rules(&self) -> (r: &Vec<Rule>)
        ensures
            r@ == self@.rules,
    {
        &self.rules
    }

    /// A fresh derivation stack holding one initial judgment.
    pub fn with_judgment(c: Configuration) -> (r: Stack)
        ensures
            r@ == (StackV { judgments: seq![c.deep_view()], rules: Seq::empty() }),
            r.wf(),
    {
        let mut stack: Vec<Configuration> = Vec::new();
        stack.push(c);
        let r = Stack { stack, rules: Vec::new() };
        proof {
            assert(r@.judgments =~= seq![c.deep_view()]);
            assert(r@.rules =~= Seq::<Rule>::empty());
        }
        r
    }

    /// Parses `s` and answers a fresh derivation stack holding the program
    /// judgment, or nothing when the text is not a program.
    pub fn create_from_string(s: String) -> (r: Option<Stack>)
        ensures
            (match r {
                None => crate::parse::spec_parse(s@) is None,
                Some(st) => crate::parse::spec_parse(s@) matches Some(p) && st.wf() && st@ == (
                StackV { judgments: seq![ConfigV::PgmConf(p)], rules: Seq::empty() }),
            }),
    {
        match crate::parse::parse(s) {
            None => None,
            Some(pgm) => Some(
                Stack::with_judgment(Configuration::PgmConf(Box::new(pgm))),
            ),
        }
    }

    /// A fresh derivation stack loaded with the built-in example program
    /// `int x, y; x = 5; y = 7; while (x <= y) { x = x + 1 }`.
    pub fn new() -> (r: Stack)
        ensures
            r@ == (StackV {
                judgments: seq![ConfigV::PgmConf(example_program_v())],
                rules: Seq::empty(),
            }),
            r.wf(),
    {
        let variables: Vec<String> = vec!["x".to_owned(), "y".to_owned()];
        let assign_x = Stmt::Assign("x".to_owned(), Box::new(AExp::Int(5)));
        let assign_y = Stmt::Assign("y".to_owned(), Box::new(AExp::Int(7)));
        let evaluate_x = AExp::Id("x".to_owned());
        let evaluate_y = AExp::Id("y".to_owned());
        let add_to_x = AExp::Plus(Box::new(evaluate_x), Box::new(AExp::Int(1)));
        let add_to_x2 = Stmt::Assign("x".to_owned(), Box::new(add_to_x));
        let less_xy = BExp::LessThanEq(Box::new(AExp::Id("x".to_owned())), Box::new(evaluate_y));
        let while_xy = Stmt::While(
            Box::new(less_xy),
            Box::new(Block::BlockStmt(Box::new(add_to_x2))),
        );
        let program = Stmt::Sequence(
            Box::new(assign_x),
            Box::new(Stmt::Sequence(Box::new(assign_y), Box::new(while_xy))),
        );
        let pgm = Pgm::Program(variables, program);
        proof {
            reveal_with_fuel(stmt_view, 6);
            reveal_with_fuel(aexp_view, 4);
            reveal_with_fuel(bexp_view, 4);
            reveal_with_fuel(block_view, 4);
            match pgm@ {
                PgmV::Program(names, body) => {
                    assert(names =~= seq!["x"@, "y"@]);
                },
            }
            assert(pgm@ == example_program_v());
        }
        Stack::with_judgment(Configuration::PgmConf(Box::new(pgm)))
    }

    /// Side-effect-free dry run of `rule` against the top judgment.
    pub fn can_apply_rule(&self, rule: Rule) -> (r: bool)
        requires
            self.wf(),
        ensures
            r == can_apply_spec(self@, rule),
    {
        let nlen = self.stack.len();
        let top = self.stack[nlen - 1].clone();
        match rule.get_next_configuration(top) {
            Some(Configuration::Dummy) => {
                let bottom = self.stack[nlen - 1].clone();
                match rule.reduce_down(bottom, Configuration::Dummy) {
                    None => false,
                    Some(_x) => true,
                }
            },
            Some(_conf) => true,
            None => false,
        }
    }

    /// The rules of the catalogue whose dry run succeeds on the current
    /// stack, in catalogue order: exactly what a front end should offer.
    #[verifier::loop_isolation(false)]
    pub fn enabled_rules(&self) -> (r: Vec<Rule>)
        requires
            self.wf(),
        ensures
            r@ == enabled_rules_spec(self@, crate::rules::rule_catalogue()),
    {
        let all = Rule::list_of_rules();
        let mut out: Vec<Rule> = Vec::new();
        let mut i: usize = 0;
        while i < all.len()
            invariant
                i <= all@.len(),
                out@ == enabled_rules_spec(self@, all@.subrange(0, i as int)),
            decreases all@.len() - i,
        {
            let ghost prefix = all@.subrange(0, i as int + 1);
            proof {
                assert(prefix.drop_last() =~= all@.subrange(0, i as int));
                assert(prefix.last() == all@[i as int]);
            }
            if self.can_apply_rule(all[i]) {
                out.push(all[i]);
            }
            i += 1;
        }
        proof {
            assert(all@.subrange(0, all@.len() as int) =~= all@);
        }
        out
    }

    /// Attempt to apply `rule` to the top judgment.  On success the
    /// derivation either grows one premise deeper (congruence rule) or
    /// collapses to a single rewritten judgment (base rule reached).  On
    /// failure the stack is left exactly as it was.
    #[allow(non_snake_case)]
    #[verifier::loop_isolation(false)]
    pub fn applyRule(&mut self, rule: Rule) -> (ok: bool)
        requires
            old(self).wf(),
        ensures
            final(self).wf(),
            (match apply_rule_spec(old(self)@, rule) {
                None => !ok && *final(self) == *old(self),
                Some(sv) => ok && final(self)@ == sv,
            }),
    {
        let nlen = self.stack.len();
        let top = self.stack[nlen - 1].clone();
        proof {
            assert(top.deep_view() == self@.judgments.last());
        }
        match rule.get_next_configuration(top) {
            None => false,
            Some(Configuration::Dummy) => {
                let bottom = self.stack[nlen - 1].clone();
                proof {
                    assert(bottom.deep_view() == self@.judgments.last());
                    assert(rule_descend(rule, self@.judgments.last()) == Some(ConfigV::Dummy));
                }
                let first = rule.reduce_down(bottom, Configuration::Dummy);
                proof {
                    assert(first.deep_view() == rule_reduce(
                        rule,
                        old(self)@.judgments.last(),
                        ConfigV::Dummy,
                    ));
                }
                let mut acc = match first {
                    None => {
                        return false;
                    },
                    Some(a) => a,
                };
                let ghost j0 = self@.judgments.drop_last();
                let ghost r0 = self@.rules;
                let mut k = self.rules.len();
                proof {
                    assert(j0 =~= self@.judgments.subrange(0, k as int));
                    assert(r0 =~= self@.rules.subrange(0, k as int));
                }
                while k > 0
                    invariant
                        self == old(self),
                        self.wf(),
                        k <= self.rules@.len(),
                        nlen == self.stack@.len(),
                        collapse(j0, r0, first.unwrap().deep_view()) == collapse(
                            self@.judgments.subrange(0, k as int),
                            self@.rules.subrange(0, k as int),
                            acc.deep_view(),
                        ),
                    decreases k,
                {
                    k = k - 1;
                    let r = self.rules[k];
                    let below = self.stack[k].clone();
                    let ghost js = self@.judgments.subrange(0, k as int + 1);
                    let ghost rs = self@.rules.subrange(0, k as int + 1);
                    proof {
                        assert(js.last() == self@.judgments[k as int]);
                        assert(rs.last() == r);
                        assert(js.drop_last() =~= self@.judgments.subrange(0, k as int));
                        assert(rs.drop_last() =~= self@.rules.subrange(0, k as int));
                    }
                    let ghost acc_v = acc.deep_view();
                    match r.reduce_down(below, acc) {
                        None => {
                            proof {
                                assert(rule_reduce(r, js.last(), acc_v) is None);
                                assert(collapse(js, rs, acc_v) is None);
                                assert(collapse(j0, r0, first.unwrap().deep_view()) is None);
                                assert(apply_rule_spec(old(self)@, rule) is None);
                            }
                            return false;
                        },
                        Some(a) => {
                            acc = a;
                        },
                    }
                }
                proof {
                    assert(self@.judgments.subrange(0, 0) =~= Seq::<ConfigV>::empty());
                    assert(self@.rules.subrange(0, 0) =~= Seq::<Rule>::empty());
                }
                self.stack.clear();
                self.stack.push(acc);
                self.rules.clear();
                proof {
                    assert(self@.judgments =~= seq![
                        apply_rule_spec(old(self)@, rule).unwrap().judgments[0],
                    ]);
                    assert(self@.rules =~= Seq::<Rule>::empty());
                    assert(self@.judgments =~= apply_rule_spec(old(self)@, rule).unwrap().judgments);
                    assert(self@.rules =~= apply_rule_spec(old(self)@, rule).unwrap().rules);
                }
                true
            },
            Some(conf) => {
                self.stack.push(conf);
                self.rules.push(rule);
                proof {
                    assert(self@.judgments =~= old(self)@.judgments.push(
                        apply_rule_spec(old(self)@, rule).unwrap().judgments.last(),
                    ));
                    assert(self@.judgments =~= apply_rule_spec(old(self)@, rule).unwrap().judgments);
                    assert(self@.rules =~= apply_rule_spec(old(self)@, rule).unwrap().rules);
                }
                true
            },
        }
    }

    /// Undo: discard the top judgment and the most recently recorded rule;
    /// the initial judgment is never discarded.
    pub fn pop(&mut self)
        requires
            old(self).wf(),
        ensures
            final(self).wf(),
            final(self)@ == pop_spec(old(self)@),
    {
        if self.stack.len() > 1 {
            self.stack.pop();
            self.rules.pop();
            proof {
                assert(self@.judgments =~= pop_spec(old(self)@).judgments);
                assert(self@.rules =~= pop_spec(old(self)@).rules);
            }
        }
    }

    /// Reset to the single initial judgment, discarding all recorded rules.
    pub fn clear(&mut self)
        requires
            old(self).wf(),
        ensures
            final(self).wf(),
            final(self)@ == (StackV {
                judgments: seq![old(self)@.judgments[0]],
                rules: Seq::empty(),
            }),
    {
        self.stack.truncate(1);
        self.rules.clear();
        proof {
            assert(self@.judgments =~= seq![old(self)@.judgments[0]]);
            assert(self@.rules =~= Seq::<Rule>::empty());
        }
    }
}

impl Clone for Stack {
    /// Cloning preserves the stack's model exactly.
    fn clone(&self) -> (res: Self)
        ensures
            res@ == self@,
    {
        let n = self.stack.len();
        let mut stack2: Vec<Configuration> = Vec::new();
        let mut j: usize = 0;
        while j < n
            invariant
                n == self.stack.len(),
                0 <= j <= n,
                stack2@.len() == j,
                forall|k: int|
                    0 <= k < j as int ==> (#[trigger] stack2@[k]).deep_view()
                        == self.stack@[k].deep_view(),
            decreases n - j,
        {
            stack2.push(self.stack[j].clone());
            j += 1;
        }
        let m = self.rules.len();
        let mut rules2: Vec<Rule> = Vec::new();
        let mut k: usize = 0;
        while k < m
            invariant
                m == self.rules.len(),
                0 <= k <= m,
                rules2@ =~= self.rules@.subrange(0, k as int),
            decreases m - k,
        {
            rules2.push(self.rules[k]);
            k += 1;
        }
        let res = Stack { stack: stack2, rules: rules2 };
        proof {
            assert(res@.judgments =~= self@.judgments);
            assert(res@.rules =~= self@.rules);
        }
        res
    }
}

/// A rule that the dry run rejects cannot be applied: `applyRule` with the
/// same rule fails (and by `applyRule`'s contract then leaves the stack
/// unchanged).
pub proof fn lemma_can_apply_sound(s: StackV, r: Rule)
    requires
        !can_apply_spec(s, r),
    ensures
        apply_rule_spec(s, r) is None,
{
}

/// On a stack holding only its initial judgment the dry run is also
/// complete: a rule it accepts does apply.  (On a taller stack a later
/// collapse step can still be stuck, which the single-level dry run does
/// not attempt.)
pub proof fn lemma_can_apply_complete_on_initial(s: StackV, r: Rule)
    requires
        stack_wf(s),
        s.judgments.len() == 1,
        can_apply_spec(s, r),
    ensures
        apply_rule_spec(s, r) is Some,
{
    assert(s.judgments.drop_last() =~= Seq::<ConfigV>::empty());
}

/// Undo inverts a successful congruence application: applying a rule that
/// opened a premise and then undoing returns exactly the starting stack.
pub proof fn lemma_undo_inverse(s: StackV, r: Rule, s2: StackV)
    requires
        stack_wf(s),
        apply_rule_spec(s, r) == Some(s2),
        !(rule_descend(r, s.judgments.last()) matches Some(c) && c is Dummy),
    ensures
        stack_wf(s2),
        pop_spec(s2) == s,
{
    assert(s2.judgments.drop_last() =~= s.judgments);
    assert(s2.rules.drop_last() =~= s.rules);
    assert(pop_spec(s2) == s);
}

/// Applying the rules of `rs` in order, failing as soon as one application
/// fails.
pub open spec fn apply_seq_spec(s: StackV, rs: Seq<Rule>) -> Option<StackV>
    decreases rs.len(),
{
    if rs.len() == 0 {
        Some(s)
    } else {
        match apply_rule_spec(s, rs[0]) {
            None => None,
            Some(s1) => apply_seq_spec(s1, rs.subrange(1, rs.len() as int)),
        }
    }
}

/// Undoing `n` times.
pub open spec fn pop_n_spec(s: StackV, n: nat) -> StackV
    decreases n,
{
    if n == 0 {
        s
    } else {
        pop_spec(pop_n_spec(s, (n - 1) as nat))
    }
}

/// Every rule of `rs` applies in turn, and each opens a premise (no rule
/// collapses the stack).
pub open spec fn all_premise_steps(s: StackV, rs: Seq<Rule>) -> bool
    decreases rs.len(),
{
    rs.len() == 0 || {
        &&& (rule_descend(rs[0], s.judgments.last()) matches Some(c) && !(c is Dummy))
        &&& match apply_rule_spec(s, rs[0]) {
            None => false,
            Some(s1) => all_premise_steps(s1, rs.subrange(1, rs.len() as int)),
        }
    }
}

/// Undo is the inverse of rule application: after any sequence of
/// successful premise-opening applications, undoing as many times returns
/// exactly the starting stack — in particular, from a one-judgment stack it
/// restores the identical initial judgment.  (A base-rule application
/// collapses the stack and rewrites its bottom judgment; no stack pop can
/// invert that, so such steps are excluded here.)
pub proof fn lemma_undo_inverse_seq(s: StackV, rs: Seq<Rule>)
    requires
        stack_wf(s),
        all_premise_steps(s, rs),
    ensures
        apply_seq_spec(s, rs) is Some,
        pop_n_spec(apply_seq_spec(s, rs).unwrap(), rs.len()) == s,
    decreases rs.len(),
{
    if rs.len() == 0 {
    } else {
        let s1 = apply_rule_spec(s, rs[0]).unwrap();
        lemma_undo_inverse(s, rs[0], s1);
        lemma_undo_inverse_seq(s1, rs.subrange(1, rs.len() as int));
        let s2 = apply_seq_spec(s1, rs.subrange(1, rs.len() as int)).unwrap();
        assert(apply_seq_spec(s, rs) == Some(s2));
        assert(pop_n_spec(s2, (rs.len() - 1) as nat) == s1);
        assert(pop_n_spec(s2, rs.len()) == pop_spec(pop_n_spec(s2, (rs.len() - 1) as nat)));
    }
}

} // verus!
