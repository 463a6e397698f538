use derivation_engine::ast::{AExp, Pgm, Stmt};
use derivation_engine::parse::{aexpr, parse, seq_list, stmt};

#[test]
fn test_arith1() {
    match aexpr("1") {
        Some((_, AExp::Int(1))) => {}
        _ => panic!(),
    };
}

#[test]
fn test_arith2() {
    match aexpr("1 + 2") {
        Some((_, AExp::Plus(x, y))) => match (*x, *y) {
            (AExp::Int(1), AExp::Int(2)) => {}
            _ => panic!(),
        },
        _ => panic!(),
    };
}

#[test]
fn test_arith3() {
    match aexpr("1 + 2 + 3") {
        Some((_, AExp::Plus(x, y))) => match (*x, *y) {
            (AExp::Plus(x, y), AExp::Int(3)) => match (*x, *y) {
                (AExp::Int(1), AExp::Int(2)) => {}
                _ => panic!(),
            },
            _ => panic!(),
        },
        _ => panic!(),
    };
}

#[test]
fn test_arith4() {
    match aexpr("1 / 3 + (2 + x ) + 3 / 1") {
        Some((_, AExp::Plus(x, y))) => {
            match *y {
                AExp::Divide(x, y) => match (*x, *y) {
                    (AExp::Int(3), AExp::Int(1)) => {}
                    _ => panic!(),
                },
                _ => panic!(),
            }
            match *x {
                AExp::Plus(x, y) => {
                    match *y {
                        AExp::Plus(x, y) => match (*x, *y) {
                            (AExp::Int(2), AExp::Id(z)) if z == "x" => {}
                            _ => panic!(),
                        },
                        _ => panic!(),
                    }
                    match *x {
                        AExp::Divide(x, y) => match (*x, *y) {
                            (AExp::Int(1), AExp::Int(3)) => {}
                            _ => panic!(),
                        },
                        _ => panic!(),
                    }
                }
                _ => panic!(),
            }
        }
        _ => panic!(),
    }
}

#[test]
fn test_stmt2() {
    match seq_list("x = 1 ; x = 1; ") {
        (_, Some(Stmt::Sequence(s1, s2))) => {
            match *s1 {
                Stmt::Assign(v, n) => {
                    if v == "x" {
                        match *n {
                            AExp::Int(1) => {}
                            _ => panic!(),
                        }
                    }
                }
                _ => panic!(),
            }
            match *s2 {
                Stmt::Assign(v, n) => {
                    if v == "x" {
                        match *n {
                            AExp::Int(1) => {}
                            _ => panic!(),
                        }
                    }
                }
                _ => panic!(),
            }
        }
        _ => panic!(),
    };
}

#[test]
fn test_stmt1() {
    match stmt("x = 1 ; ") {
        Some((_, Stmt::Assign(v, n))) => {
            if v == "x" {
                match *n {
                    AExp::Int(1) => {}
                    _ => panic!(),
                }
            }
        }
        _ => panic!(),
    };
}

#[test]
fn test_pgm1() {
    match parse("int x, y; x = 1 ; ".to_string()) {
        Some(Pgm::Program(v, s)) if v == vec!["x".to_string(), "y".to_string()] => match s {
            Stmt::Assign(v, n) => {
                if v == "x" {
                    match *n {
                        AExp::Int(1) => {}
                        _ => panic!(),
                    }
                }
            }
            _ => panic!(),
        },
        _ => panic!(),
    };
}

#[test]
fn test_parse_deterministic() {
    let text = "int x, y;\n  x = x + 1;\n while(x <= y) { y = y / 2 ; }";
    let first = parse(text.to_string());
    let second = parse(text.to_string());
    assert!(first.is_some());
    assert_eq!(first, second);
}

#[test]
fn test_precedence_div_before_sum() {
    // "1 / 3 + 2" parses as (1/3)+2, never 1/(3+2).
    match aexpr("1 / 3 + 2") {
        Some((_, AExp::Plus(x, y))) => {
            match *x {
                AExp::Divide(a, b) => match (*a, *b) {
                    (AExp::Int(1), AExp::Int(3)) => {}
                    _ => panic!(),
                },
                _ => panic!(),
            }
            match *y {
                AExp::Int(2) => {}
                _ => panic!(),
            }
        }
        _ => panic!(),
    }
}

#[test]
fn test_parse_rejects_leftover_input() {
    assert_eq!(parse("int x; x = 1 ; }".to_string()), None);
}

#[test]
fn test_parse_rejects_empty_input() {
    assert_eq!(parse("".to_string()), None);
}

#[test]
fn test_parse_rejects_missing_declaration() {
    assert_eq!(parse("x = 1 ;".to_string()), None);
}

#[test]
fn test_parse_rejects_huge_literal() {
    // A literal beyond the machine integer is a parse failure, not a panic.
    assert_eq!(parse("int x; x = 99999999999 ;".to_string()), None);
    // The largest machine integer itself is accepted.
    match parse("int x; x = 2147483647 ;".to_string()) {
        Some(Pgm::Program(_, Stmt::Assign(_, n))) => match *n {
            AExp::Int(2147483647) => {}
            _ => panic!(),
        },
        _ => panic!(),
    }
}

#[test]
fn test_parse_full_program_shape() {
    match parse("int x; while(x <= y) { x = x + 1 ; }".to_string()) {
        Some(Pgm::Program(v, Stmt::While(b, blk))) => {
            assert_eq!(v, vec!["x".to_string()]);
            match *b {
                derivation_engine::ast::BExp::LessThanEq(a1, a2) => match (*a1, *a2) {
                    (AExp::Id(x), AExp::Id(y)) => {
                        assert_eq!(x, "x");
                        assert_eq!(y, "y");
                    }
                    _ => panic!(),
                },
                _ => panic!(),
            }
            match *blk {
                derivation_engine::ast::Block::BlockStmt(s) => match *s {
                    Stmt::Assign(x, _) => assert_eq!(x, "x"),
                    _ => panic!(),
                },
                _ => panic!(),
            }
        }
        _ => panic!(),
    }
}

#[test]
fn test_parse_empty_body_is_empty_block() {
    match parse("int x;".to_string()) {
        Some(Pgm::Program(v, Stmt::StmtBlock(b))) => {
            assert_eq!(v, vec!["x".to_string()]);
            match *b {
                derivation_engine::ast::Block::EmptyBlock => {}
                _ => panic!(),
            }
        }
        _ => panic!(),
    }
}

#[test]
fn test_seq_list_empty_input() {
    assert_eq!(seq_list(""), (0, None));
}
