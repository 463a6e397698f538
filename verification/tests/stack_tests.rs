use derivation_engine::ast::{AExp, Stmt};
use derivation_engine::judgment::Configuration;
use derivation_engine::rules::Rule;
use derivation_engine::stack::Stack;
use derivation_engine::state::State;

fn lit(n: i32) -> Box<AExp> {
    Box::new(AExp::Int(n))
}

fn plus(a: Box<AExp>, b: Box<AExp>) -> Box<AExp> {
    Box::new(AExp::Plus(a, b))
}

fn empty_env() -> State {
    State(Vec::new())
}

#[test]
fn test_apply_sum_axiom_on_stack() {
    // <3 + 4, []>: the sum axiom collapses the stack to <7, []>.
    let mut s = Stack::with_judgment(Configuration::AExpConf(plus(lit(3), lit(4)), empty_env()));
    assert!(s.applyRule(Rule::RewritePlus));
    assert_eq!(
        *s.judgments(),
        vec![Configuration::AExpConf(lit(7), empty_env())]
    );
    assert!(s.applied_rules().is_empty());
}

#[test]
fn test_congruence_then_collapse() {
    // <(1+1) + (2+2), []>: left congruence, then the sum axiom on the opened
    // premise, collapses to <2 + (2+2), []>; continuing symmetrically
    // eventually yields <6, []>.
    let initial = Configuration::AExpConf(
        plus(plus(lit(1), lit(1)), plus(lit(2), lit(2))),
        empty_env(),
    );
    let mut s = Stack::with_judgment(initial);

    assert!(s.applyRule(Rule::RewritePlusLeft));
    assert_eq!(s.judgments().len(), 2);
    assert_eq!(
        s.judgments()[1],
        Configuration::AExpConf(plus(lit(1), lit(1)), empty_env())
    );
    assert_eq!(*s.applied_rules(), vec![Rule::RewritePlusLeft]);

    assert!(s.applyRule(Rule::RewritePlus));
    assert_eq!(
        *s.judgments(),
        vec![Configuration::AExpConf(plus(lit(2), plus(lit(2), lit(2))), empty_env())]
    );

    assert!(s.applyRule(Rule::RewritePlusRight));
    assert!(s.applyRule(Rule::RewritePlus));
    assert_eq!(
        *s.judgments(),
        vec![Configuration::AExpConf(plus(lit(2), lit(4)), empty_env())]
    );

    assert!(s.applyRule(Rule::RewritePlus));
    assert_eq!(
        *s.judgments(),
        vec![Configuration::AExpConf(lit(6), empty_env())]
    );
}

#[test]
fn test_division_by_zero_leaves_stack_unmodified() {
    let mut s = Stack::with_judgment(Configuration::AExpConf(
        Box::new(AExp::Divide(lit(4), lit(0))),
        empty_env(),
    ));
    let before = s.clone();
    assert!(!s.can_apply_rule(Rule::RewriteDivide));
    assert!(!s.applyRule(Rule::RewriteDivide));
    assert_eq!(s, before);
}

#[test]
fn test_undo_inverse_after_premise_steps() {
    // Three premise-opening applications, then three undos, return the
    // stack to its one-judgment start with the identical initial judgment.
    let initial = Configuration::BExpConf(
        Box::new(derivation_engine::ast::BExp::Negation(Box::new(
            derivation_engine::ast::BExp::LessThanEq(
                plus(plus(lit(1), lit(1)), lit(2)),
                lit(9),
            ),
        ))),
        empty_env(),
    );
    let mut s = Stack::with_judgment(initial.clone());
    let start = s.clone();
    assert!(s.applyRule(Rule::RewriteNegate));
    assert!(s.applyRule(Rule::RewriteLessThanLeft));
    assert!(s.applyRule(Rule::RewritePlusLeft));
    assert_eq!(s.judgments().len(), 4);
    s.pop();
    s.pop();
    s.pop();
    assert_eq!(s.judgments().len(), 1);
    assert_eq!(s.judgments()[0], initial);
    assert_eq!(s, start);
}

#[test]
fn test_pop_keeps_initial_judgment() {
    let mut s = Stack::with_judgment(Configuration::AExpConf(lit(7), empty_env()));
    let before = s.clone();
    s.pop();
    assert_eq!(s, before);
}

#[test]
fn test_clear_resets_to_initial_judgment() {
    let initial = Configuration::AExpConf(plus(plus(lit(1), lit(1)), lit(2)), empty_env());
    let mut s = Stack::with_judgment(initial.clone());
    assert!(s.applyRule(Rule::RewritePlusLeft));
    assert!(s.applyRule(Rule::RewritePlusLeft));
    assert_eq!(s.judgments().len(), 3);
    s.clear();
    assert_eq!(*s.judgments(), vec![initial]);
    assert!(s.applied_rules().is_empty());
}

#[test]
fn test_can_apply_soundness() {
    // Whenever the dry run rejects a rule, applying it fails and leaves the
    // stack byte for byte unchanged.
    let samples = vec![
        Configuration::AExpConf(plus(lit(1), lit(2)), empty_env()),
        Configuration::AExpConf(Box::new(AExp::Divide(lit(4), lit(0))), empty_env()),
        Configuration::AExpConf(Box::new(AExp::Id("x".to_string())), empty_env()),
        Configuration::BExpConf(
            Box::new(derivation_engine::ast::BExp::Bool(true)),
            empty_env(),
        ),
        Configuration::StmtConf(
            Box::new(Stmt::Assign("x".to_string(), lit(5))),
            State(vec![("x".to_string(), 0)]),
        ),
        Configuration::PgmConf(Box::new(derivation_engine::ast::Pgm::Program(
            vec!["x".to_string()],
            Stmt::Assign("x".to_string(), lit(1)),
        ))),
    ];
    let mut all_rules = Rule::list_of_rules();
    all_rules.push(Rule::NoOp);
    for judgment in samples {
        for rule in &all_rules {
            let mut s = Stack::with_judgment(judgment.clone());
            if !s.can_apply_rule(*rule) {
                let before = s.clone();
                assert!(!s.applyRule(*rule));
                assert_eq!(s, before);
            } else {
                assert!(s.applyRule(*rule));
            }
        }
    }
}

#[test]
fn test_noop_never_applies() {
    let mut s = Stack::new();
    assert!(!s.can_apply_rule(Rule::NoOp));
    assert!(!s.applyRule(Rule::NoOp));
}

#[test]
fn test_new_holds_example_program() {
    let s = Stack::new();
    assert_eq!(s.judgments().len(), 1);
    assert!(s.applied_rules().is_empty());
    assert_eq!(
        s.judgments()[0].render(),
        "< int x, y ; \nx = 5 ; \ny = 7 ; \nwhile x <= y do \n x = x + 1 ;  \n end >"
    );
}

#[test]
fn test_create_from_string_parses_program() {
    let s = Stack::create_from_string("int x; x = 1 + 2 ;".to_string()).unwrap();
    assert_eq!(s.judgments().len(), 1);
    match &s.judgments()[0] {
        Configuration::PgmConf(p) => match &**p {
            derivation_engine::ast::Pgm::Program(names, body) => {
                assert_eq!(*names, vec!["x".to_string()]);
                match body {
                    Stmt::Assign(x, e) => {
                        assert_eq!(x, "x");
                        assert_eq!(**e, AExp::Plus(lit(1), lit(2)));
                    }
                    _ => panic!(),
                }
            }
        },
        _ => panic!(),
    }
}

#[test]
fn test_create_from_string_rejects_bad_text() {
    assert!(Stack::create_from_string("int ; x = 1 ;".to_string()).is_none());
}

#[test]
fn test_run_program_to_completion() {
    // int x; x = 1 + 2; runs to <{}, [x |-> 3]> by: program start,
    // assignment congruence with the sum axiom, then the assignment axiom.
    let mut s = Stack::create_from_string("int x; x = 1 + 2 ;".to_string()).unwrap();
    assert!(s.applyRule(Rule::RewriteTop));
    assert!(s.applyRule(Rule::RewriteAssignmentArith));
    assert!(s.applyRule(Rule::RewritePlus));
    assert!(s.applyRule(Rule::RewriteAssignmentInt));
    assert_eq!(
        *s.judgments(),
        vec![Configuration::StmtConf(
            Box::new(Stmt::StmtBlock(Box::new(derivation_engine::ast::Block::EmptyBlock))),
            State(vec![("x".to_string(), 3)])
        )]
    );
}

#[test]
fn test_enabled_rules_on_sum_judgment() {
    // The front end offers exactly the rules whose dry run succeeds.
    let s = Stack::with_judgment(Configuration::AExpConf(plus(lit(1), lit(2)), empty_env()));
    let enabled = s.enabled_rules();
    assert_eq!(
        enabled,
        vec![Rule::RewritePlusLeft, Rule::RewritePlusRight, Rule::RewritePlus]
    );
    for r in Rule::list_of_rules() {
        assert_eq!(enabled.contains(&r), s.can_apply_rule(r));
    }
}

#[test]
fn test_stack_render_shows_top_first() {
    let mut s = Stack::with_judgment(Configuration::AExpConf(
        plus(plus(lit(1), lit(1)), lit(2)),
        empty_env(),
    ));
    assert!(s.applyRule(Rule::RewritePlusLeft));
    assert_eq!(s.render(), "< 1 + 1, [] >\n---\n< 1 + 1 + 2, [] >");
}
