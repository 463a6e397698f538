use derivation_engine::ast::{AExp, BExp, Block, Pgm, Stmt};
use derivation_engine::judgment::Configuration;
use derivation_engine::rules::Rule;
use derivation_engine::state::State;

fn empty_env() -> State {
    State(Vec::new())
}

fn lit(n: i32) -> Box<AExp> {
    Box::new(AExp::Int(n))
}

#[test]
fn test_sum_axiom_round_trip() {
    // <3 + 4, []> under the sum axiom yields <7, []>.
    let bottom = Configuration::AExpConf(Box::new(AExp::Plus(lit(3), lit(4))), empty_env());
    let got = Rule::RewritePlus.reduce_down(bottom, Configuration::Dummy);
    assert_eq!(got, Some(Configuration::AExpConf(lit(7), empty_env())));
}

#[test]
fn test_sum_axiom_overflow_is_stuck() {
    let bottom = Configuration::AExpConf(
        Box::new(AExp::Plus(lit(i32::MAX), lit(1))),
        empty_env(),
    );
    assert_eq!(Rule::RewritePlus.reduce_down(bottom, Configuration::Dummy), None);
}

#[test]
fn test_division_axiom() {
    let bottom = Configuration::AExpConf(Box::new(AExp::Divide(lit(7), lit(2))), empty_env());
    let got = Rule::RewriteDivide.reduce_down(bottom, Configuration::Dummy);
    assert_eq!(got, Some(Configuration::AExpConf(lit(3), empty_env())));
}

#[test]
fn test_division_by_zero_is_stuck() {
    // reduce on <4 / 0, []> under the division axiom reports failure.
    let bottom = Configuration::AExpConf(Box::new(AExp::Divide(lit(4), lit(0))), empty_env());
    assert_eq!(Rule::RewriteDivide.reduce_down(bottom, Configuration::Dummy), None);
}

#[test]
fn test_division_truncates_toward_zero() {
    let bottom = Configuration::AExpConf(Box::new(AExp::Divide(lit(-7), lit(2))), empty_env());
    let got = Rule::RewriteDivide.reduce_down(bottom, Configuration::Dummy);
    assert_eq!(got, Some(Configuration::AExpConf(lit(-3), empty_env())));
}

#[test]
fn test_comparison_axiom_includes_equality() {
    let env = empty_env();
    let bottom = Configuration::BExpConf(Box::new(BExp::LessThanEq(lit(3), lit(3))), env);
    let got = Rule::RewriteLessThan.reduce_down(bottom, Configuration::Dummy);
    assert_eq!(
        got,
        Some(Configuration::BExpConf(Box::new(BExp::Bool(true)), empty_env()))
    );
    let bottom2 = Configuration::BExpConf(Box::new(BExp::LessThanEq(lit(4), lit(3))), empty_env());
    let got2 = Rule::RewriteLessThan.reduce_down(bottom2, Configuration::Dummy);
    assert_eq!(
        got2,
        Some(Configuration::BExpConf(Box::new(BExp::Bool(false)), empty_env()))
    );
}

#[test]
fn test_negation_axioms() {
    let neg_true = Configuration::BExpConf(
        Box::new(BExp::Negation(Box::new(BExp::Bool(true)))),
        empty_env(),
    );
    assert_eq!(
        Rule::RewriteNegateTrue.reduce_down(neg_true, Configuration::Dummy),
        Some(Configuration::BExpConf(Box::new(BExp::Bool(false)), empty_env()))
    );
    let neg_false = Configuration::BExpConf(
        Box::new(BExp::Negation(Box::new(BExp::Bool(false)))),
        empty_env(),
    );
    assert_eq!(
        Rule::RewriteNegateFalse.reduce_down(neg_false, Configuration::Dummy),
        Some(Configuration::BExpConf(Box::new(BExp::Bool(true)), empty_env()))
    );
}

#[test]
fn test_variable_lookup_axiom() {
    let env = State(vec![("x".to_string(), 41)]);
    let bottom = Configuration::AExpConf(Box::new(AExp::Id("x".to_string())), env);
    let got = Rule::RewriteVariableLookup.reduce_down(bottom, Configuration::Dummy);
    assert_eq!(
        got,
        Some(Configuration::AExpConf(lit(41), State(vec![("x".to_string(), 41)])))
    );
}

#[test]
fn test_variable_lookup_unbound_is_stuck() {
    let bottom = Configuration::AExpConf(Box::new(AExp::Id("z".to_string())), empty_env());
    assert_eq!(
        Rule::RewriteVariableLookup.get_next_configuration(bottom),
        None
    );
}

#[test]
fn test_environment_update() {
    // update([("x",0)], "x", 5) yields [("x",5)].
    let env = State(vec![("x".to_string(), 0)]);
    assert_eq!(env.substitute("x".to_string(), 5), State(vec![("x".to_string(), 5)]));
    // Updating an absent name leaves the environment unchanged.
    let env2 = State(vec![("x".to_string(), 0)]);
    assert_eq!(env2.substitute("y".to_string(), 7), State(vec![("x".to_string(), 0)]));
}

#[test]
fn test_environment_lookup() {
    let env = State(vec![("x".to_string(), 1), ("y".to_string(), 2)]);
    assert_eq!(env.lookup(&"x".to_string()), Some(1));
    assert_eq!(env.lookup(&"y".to_string()), Some(2));
    assert_eq!(env.lookup(&"z".to_string()), None);
}

#[test]
fn test_create_state_binds_zero() {
    let env = State::create_state(vec!["a".to_string(), "b".to_string()]);
    assert_eq!(env, State(vec![("a".to_string(), 0), ("b".to_string(), 0)]));
}

#[test]
fn test_assignment_axiom_updates_environment() {
    let env = State(vec![("x".to_string(), 0)]);
    let bottom = Configuration::StmtConf(
        Box::new(Stmt::Assign("x".to_string(), lit(5))),
        env,
    );
    let got = Rule::RewriteAssignmentInt.reduce_down(bottom, Configuration::Dummy);
    assert_eq!(
        got,
        Some(Configuration::StmtConf(
            Box::new(Stmt::StmtBlock(Box::new(Block::EmptyBlock))),
            State(vec![("x".to_string(), 5)])
        ))
    );
}

#[test]
fn test_assignment_axiom_unbound_is_stuck() {
    let bottom = Configuration::StmtConf(
        Box::new(Stmt::Assign("z".to_string(), lit(5))),
        empty_env(),
    );
    assert_eq!(
        Rule::RewriteAssignmentInt.reduce_down(bottom, Configuration::Dummy),
        None
    );
}

#[test]
fn test_loop_unrolling() {
    // while (x<=y) { x = x+1 } rewrites to
    // if (x<=y) { {x=x+1} while(x<=y){x=x+1} } else {} with the same
    // environment.
    let guard = || {
        Box::new(BExp::LessThanEq(
            Box::new(AExp::Id("x".to_string())),
            Box::new(AExp::Id("y".to_string())),
        ))
    };
    let body = || {
        Box::new(Block::BlockStmt(Box::new(Stmt::Assign(
            "x".to_string(),
            Box::new(AExp::Plus(Box::new(AExp::Id("x".to_string())), lit(1))),
        ))))
    };
    let env = State(vec![("x".to_string(), 0), ("y".to_string(), 3)]);
    let bottom = Configuration::StmtConf(Box::new(Stmt::While(guard(), body())), env);
    let got = Rule::RewriteLoop.reduce_down(bottom, Configuration::Dummy);
    let expected = Configuration::StmtConf(
        Box::new(Stmt::IfThenElse(
            guard(),
            Box::new(Block::BlockStmt(Box::new(Stmt::Sequence(
                Box::new(Stmt::StmtBlock(body())),
                Box::new(Stmt::While(guard(), body())),
            )))),
            Box::new(Block::EmptyBlock),
        )),
        State(vec![("x".to_string(), 0), ("y".to_string(), 3)]),
    );
    assert_eq!(got, Some(expected));
}

#[test]
fn test_congruence_splices_left_operand() {
    // The discharged premise replaces the left operand, the sibling stays.
    let bottom = Configuration::AExpConf(
        Box::new(AExp::Plus(Box::new(AExp::Plus(lit(1), lit(1))), lit(9))),
        empty_env(),
    );
    let top = Configuration::AExpConf(lit(2), empty_env());
    let got = Rule::RewritePlusLeft.reduce_down(bottom, top);
    assert_eq!(
        got,
        Some(Configuration::AExpConf(
            Box::new(AExp::Plus(lit(2), lit(9))),
            empty_env()
        ))
    );
}

#[test]
fn test_congruence_adopts_premise_environment() {
    // The environment produced by the premise flows upward.
    let bottom = Configuration::StmtConf(
        Box::new(Stmt::Sequence(
            Box::new(Stmt::Assign("x".to_string(), lit(5))),
            Box::new(Stmt::Assign("y".to_string(), lit(6))),
        )),
        State(vec![("x".to_string(), 0)]),
    );
    let top = Configuration::StmtConf(
        Box::new(Stmt::StmtBlock(Box::new(Block::EmptyBlock))),
        State(vec![("x".to_string(), 5)]),
    );
    let got = Rule::RewriteSequence.reduce_down(bottom, top);
    assert_eq!(
        got,
        Some(Configuration::StmtConf(
            Box::new(Stmt::Sequence(
                Box::new(Stmt::StmtBlock(Box::new(Block::EmptyBlock))),
                Box::new(Stmt::Assign("y".to_string(), lit(6))),
            )),
            State(vec![("x".to_string(), 5)])
        ))
    );
}

#[test]
fn test_conditional_axioms() {
    let mk = |guard: bool| {
        Configuration::StmtConf(
            Box::new(Stmt::IfThenElse(
                Box::new(BExp::Bool(guard)),
                Box::new(Block::BlockStmt(Box::new(Stmt::Assign("x".to_string(), lit(1))))),
                Box::new(Block::EmptyBlock),
            )),
            State(vec![("x".to_string(), 0)]),
        )
    };
    let taken = Rule::RewriteConditionalTrue.reduce_down(mk(true), Configuration::Dummy);
    assert_eq!(
        taken,
        Some(Configuration::StmtConf(
            Box::new(Stmt::StmtBlock(Box::new(Block::BlockStmt(Box::new(Stmt::Assign(
                "x".to_string(),
                lit(1)
            )))))),
            State(vec![("x".to_string(), 0)])
        ))
    );
    let skipped = Rule::RewriteConditionalFalse.reduce_down(mk(false), Configuration::Dummy);
    assert_eq!(
        skipped,
        Some(Configuration::StmtConf(
            Box::new(Stmt::StmtBlock(Box::new(Block::EmptyBlock))),
            State(vec![("x".to_string(), 0)])
        ))
    );
    // The true-axiom refuses a false guard, and the other way round.
    assert_eq!(Rule::RewriteConditionalTrue.reduce_down(mk(false), Configuration::Dummy), None);
    assert_eq!(Rule::RewriteConditionalFalse.reduce_down(mk(true), Configuration::Dummy), None);
}

#[test]
fn test_empty_block_axiom() {
    let bottom = Configuration::StmtConf(
        Box::new(Stmt::Sequence(
            Box::new(Stmt::StmtBlock(Box::new(Block::EmptyBlock))),
            Box::new(Stmt::Assign("x".to_string(), lit(1))),
        )),
        State(vec![("x".to_string(), 0)]),
    );
    let got = Rule::RewriteEmptyBlock.reduce_down(bottom, Configuration::Dummy);
    assert_eq!(
        got,
        Some(Configuration::StmtConf(
            Box::new(Stmt::Assign("x".to_string(), lit(1))),
            State(vec![("x".to_string(), 0)])
        ))
    );
}

#[test]
fn test_program_start_axiom() {
    let bottom = Configuration::PgmConf(Box::new(Pgm::Program(
        vec!["x".to_string(), "y".to_string()],
        Stmt::Assign("x".to_string(), lit(1)),
    )));
    let got = Rule::RewriteTop.reduce_down(bottom, Configuration::Dummy);
    assert_eq!(
        got,
        Some(Configuration::StmtConf(
            Box::new(Stmt::Assign("x".to_string(), lit(1))),
            State(vec![("x".to_string(), 0), ("y".to_string(), 0)])
        ))
    );
}

#[test]
fn test_rule_on_wrong_shape_is_no_match() {
    // A sum rule applied to a non-sum term gives no match.
    let bottom = Configuration::AExpConf(lit(7), empty_env());
    assert_eq!(Rule::RewritePlus.reduce_down(bottom, Configuration::Dummy), None);
    let conf = Configuration::AExpConf(lit(7), empty_env());
    assert_eq!(Rule::RewritePlusLeft.get_next_configuration(conf), None);
}

#[test]
fn test_list_of_rules_catalogue() {
    let rules = Rule::list_of_rules();
    assert_eq!(rules.len(), 23);
    assert_eq!(rules[0], Rule::RewriteVariableLookup);
    assert_eq!(rules[22], Rule::RewriteTop);
    assert!(!rules.contains(&Rule::NoOp));
}

#[test]
fn test_rule_descriptions_and_labels() {
    assert_eq!(
        Rule::RewritePlus.get_description(),
        " rl o < I1 + I2,Sigma > => < I1 +Int I2,Sigma > ."
    );
    assert_eq!(
        Rule::RewriteLoop.get_description(),
        "rl o < while (B) S,Sigma > => < if (B) {S while (B) S} else {},Sigma > ."
    );
    assert_eq!(Rule::RewritePlus.get_label(), "sum");
    assert_eq!(Rule::RewriteLoop.get_label(), "loop unrolling");
}

#[test]
fn test_render_judgment() {
    let env = State(vec![("x".to_string(), 5), ("y".to_string(), -7)]);
    let conf = Configuration::AExpConf(
        Box::new(AExp::Plus(Box::new(AExp::Id("x".to_string())), lit(2))),
        env,
    );
    assert_eq!(conf.render(), "< x + 2, [x |-> 5, y |-> -7] >");
    let pgm = Configuration::PgmConf(Box::new(Pgm::Program(
        vec!["x".to_string()],
        Stmt::Assign("x".to_string(), lit(1)),
    )));
    assert_eq!(pgm.render(), "< int x ; \nx = 1 ;  >");
}

#[test]
fn test_duplicate_names_update_all_and_lookup_first() {
    // Two bindings with the same name: lookup answers the first, update
    // replaces every binding for the name.
    let env = State(vec![("x".to_string(), 1), ("x".to_string(), 2)]);
    assert_eq!(env.lookup(&"x".to_string()), Some(1));
    assert_eq!(
        env.substitute("x".to_string(), 9),
        State(vec![("x".to_string(), 9), ("x".to_string(), 9)])
    );
}
