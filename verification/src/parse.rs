//! Recursive-descent parser turning program source text into the abstract
//! syntax the engine consumes.
//!
//! The grammar, in precedence order and whitespace-tolerant around
//! terminals:
//! - atom: parenthesized expression, integer literal, or identifier;
//! - division level: atoms left-folded over `/`;
//! - sum level: division-level terms left-folded over `+`;
//! - boolean comparison: `<expr> <= <expr>`;
//! - boolean atom: comparison, parenthesized boolean, `!`-prefixed boolean,
//!   or the literals `true` / `false`;
//! - boolean conjunction: one boolean atom left-folded over `&&` with
//!   comparison-only right operands;
//! - block: `{` statements `}`; statement: assignment `<id> = <expr> ;`,
//!   `if <bool> <block> else <block>`, or `while <bool> <block>`;
//! - program: `int <id>(, <id>)* ;` followed by a statement sequence.
//!
//! The top-level entry point demands that the whole input is consumed; any
//! leftover input or failing branch yields overall failure, with no partial
//! result.  An integer literal beyond the machine integer range is likewise
//! a parse failure.
//!
//! The grammar is stated twice: as spec functions over `Seq<char>` (the
//! reference semantics, below) and as executable functions proved to return
//! exactly what the spec functions say.  Both sides place each parser at a
//! cursor position and answer the position after what was consumed.

use vstd::prelude::*;

use crate::ast::{AExp, AExpV, BExp, BExpV, Block, BlockV, Pgm, PgmV, Stmt, StmtV};

verus! {

/// What one parser step answers, seen abstractly: the new cursor position
/// and the model of the parsed value.
pub open spec fn step_view<T: DeepView>(r: Option<(usize, T)>) -> Option<(int, T::V)> {
    match r {
        None => None,
        Some((j, t)) => Some((j as int, t.deep_view())),
    }
}

/// Whitespace, as the grammar skips it.
pub open spec fn is_space_char(c: char) -> bool {
    c == ' ' || c == '\t' || c == '\r' || c == '\n'
}

/// ASCII letters, the only identifier characters.
pub open spec fn is_alpha_char(c: char) -> bool {
    ('a' <= c && c <= 'z') || ('A' <= c && c <= 'Z')
}

/// ASCII digits.
pub open spec fn is_digit_char(c: char) -> bool {
    '0' <= c && c <= '9'
}

/// First position at or after `i` holding no whitespace.
pub open spec fn spec_skip_ws(s: Seq<char>, i: int) -> int
    decreases s.len() - i,
{
    if 0 <= i < s.len() && is_space_char(s[i]) {
        spec_skip_ws(s, i + 1)
    } else {
        i
    }
}

/// End of the run of letters starting at `i`.
pub open spec fn alpha_end(s: Seq<char>, i: int) -> int
    decreases s.len() - i,
{
    if 0 <= i < s.len() && is_alpha_char(s[i]) {
        alpha_end(s, i + 1)
    } else {
        i
    }
}

/// End of the run of digits starting at `i`.
pub open spec fn digit_end(s: Seq<char>, i: int) -> int
    decreases s.len() - i,
{
    if 0 <= i < s.len() && is_digit_char(s[i]) {
        digit_end(s, i + 1)
    } else {
        i
    }
}

/// Numeric value of one digit.
pub open spec fn digit_val(c: char) -> int {
    c as int - '0' as int
}

/// Value of the digit run `s[i..j)`, most significant digit first.
pub open spec fn digits_val(s: Seq<char>, i: int, j: int) -> int
    decreases j - i,
{
    if i < j {
        digits_val(s, i, j - 1) * 10 + digit_val(s[j - 1])
    } else {
        0
    }
}

/// The literal `t` occurs in `s` at position `i`.
pub open spec fn spec_tag(s: Seq<char>, i: int, t: Seq<char>) -> bool {
    0 <= i && i + t.len() <= s.len() && s.subrange(i, i + t.len()) == t
}

/// Integer literal: whitespace, one or more digits, whitespace.  A value
/// beyond the machine integer is no literal.
pub open spec fn spec_int(s: Seq<char>, i: int) -> Option<(int, AExpV)> {
    let j = spec_skip_ws(s, i);
    let k = digit_end(s, j);
    if k > j {
        let v = digits_val(s, j, k);
        if v <= i32::MAX {
            Some((spec_skip_ws(s, k), AExpV::Int(v as i32)))
        } else {
            None
        }
    } else {
        None
    }
}

/// Identifier: whitespace, one or more letters, whitespace; the name is the
/// letter run.
pub open spec fn spec_ident(s: Seq<char>, i: int) -> Option<(int, Seq<char>)> {
    let j = spec_skip_ws(s, i);
    let k = alpha_end(s, j);
    if k > j && 0 <= j {
        Some((spec_skip_ws(s, k), s.subrange(j, k)))
    } else {
        None
    }
}

/// Identifier as an arithmetic atom.
pub open spec fn spec_var(s: Seq<char>, i: int) -> Option<(int, AExpV)> {
    match spec_ident(s, i) {
        Some((j, name)) => Some((j, AExpV::Id(name))),
        None => None,
    }
}

/// Parenthesized arithmetic expression: whitespace, `(`, expression, `)`,
/// whitespace.
pub open spec fn spec_parenth(s: Seq<char>, i: int) -> Option<(int, AExpV)>
    decreases s.len() - i, 0int,
{
    let j = spec_skip_ws(s, i);
    if i <= j && j < s.len() && s[j] == '(' {
        match spec_aexpr(s, j + 1) {
            Some((q, e)) => if spec_tag(s, q, ")"@) {
                Some((spec_skip_ws(s, q + 1), e))
            } else {
                None
            },
            None => None,
        }
    } else {
        None
    }
}

/// Arithmetic atom: parenthesized expression, integer literal, or
/// identifier, tried in that order.
pub open spec fn spec_not_bin(s: Seq<char>, i: int) -> Option<(int, AExpV)>
    decreases s.len() - i, 1int,
{
    match spec_parenth(s, i) {
        Some(r) => Some(r),
        None => match spec_int(s, i) {
            Some(r) => Some(r),
            None => spec_var(s, i),
        },
    }
}

/// Zero or more `/`-prefixed atoms, left-folded onto `acc`.
pub open spec fn spec_div_more(s: Seq<char>, i: int, acc: AExpV) -> (int, AExpV)
    decreases s.len() - i, 0int,
{
    if 0 <= i && i < s.len() && s[i] == '/' {
        match spec_not_bin(s, i + 1) {
            Some((j, e)) => if i < j && j <= s.len() {
                spec_div_more(s, j, AExpV::Divide(Box::new(acc), Box::new(e)))
            } else {
                (i, acc)
            },
            None => (i, acc),
        }
    } else {
        (i, acc)
    }
}

/// Division level: one atom followed by zero or more `/`-prefixed atoms,
/// left-associative.
pub open spec fn spec_div(s: Seq<char>, i: int) -> Option<(int, AExpV)>
    decreases s.len() - i, 2int,
{
    match spec_not_bin(s, i) {
        Some((j, e)) => if i < j && j <= s.len() {
            Some(spec_div_more(s, j, e))
        } else {
            None
        },
        None => None,
    }
}

/// Zero or more `+`-prefixed division-level terms, left-folded onto `acc`.
pub open spec fn spec_plus_more(s: Seq<char>, i: int, acc: AExpV) -> (int, AExpV)
    decreases s.len() - i, 0int,
{
    if 0 <= i && i < s.len() && s[i] == '+' {
        match spec_div(s, i + 1) {
            Some((j, e)) => if i < j && j <= s.len() {
                spec_plus_more(s, j, AExpV::Plus(Box::new(acc), Box::new(e)))
            } else {
                (i, acc)
            },
            None => (i, acc),
        }
    } else {
        (i, acc)
    }
}

/// Sum level: one division-level term followed by zero or more `+`-prefixed
/// division-level terms, left-associative.
pub open spec fn spec_plus(s: Seq<char>, i: int) -> Option<(int, AExpV)>
    decreases s.len() - i, 3int,
{
    match spec_div(s, i) {
        Some((j, e)) => if i < j && j <= s.len() {
            Some(spec_plus_more(s, j, e))
        } else {
            None
        },
        None => None,
    }
}

/// Arithmetic expression: the sum level.
pub open spec fn spec_aexpr(s: Seq<char>, i: int) -> Option<(int, AExpV)>
    decreases s.len() - i, 4int,
{
    spec_plus(s, i)
}

/// Comparison: `<expr> <= <expr>`.
pub open spec fn spec_ltexp(s: Seq<char>, i: int) -> Option<(int, BExpV)>
    decreases s.len() - i, 5int,
{
    match spec_aexpr(s, i) {
        Some((j, e1)) => if i < j && j + 2 <= s.len() && spec_tag(s, j, "<="@) {
            match spec_aexpr(s, j + 2) {
                Some((q, e2)) => Some((q, BExpV::LessThanEq(Box::new(e1), Box::new(e2)))),
                None => None,
            }
        } else {
            None
        },
        None => None,
    }
}

/// The literal `true`, whitespace-tolerant.
pub open spec fn spec_true(s: Seq<char>, i: int) -> Option<(int, BExpV)> {
    let j = spec_skip_ws(s, i);
    if spec_tag(s, j, "true"@) {
        Some((spec_skip_ws(s, j + 4), BExpV::Bool(true)))
    } else {
        None
    }
}

/// The literal `false`, whitespace-tolerant.
pub open spec fn spec_false(s: Seq<char>, i: int) -> Option<(int, BExpV)> {
    let j = spec_skip_ws(s, i);
    if spec_tag(s, j, "false"@) {
        Some((spec_skip_ws(s, j + 5), BExpV::Bool(false)))
    } else {
        None
    }
}

/// A boolean literal: `true`, else `false`.
pub open spec fn spec_bool_const(s: Seq<char>, i: int) -> Option<(int, BExpV)> {
    match spec_true(s, i) {
        Some(r) => Some(r),
        None => spec_false(s, i),
    }
}

/// Negation: whitespace, `!`, whitespace, boolean expression.
pub open spec fn spec_not(s: Seq<char>, i: int) -> Option<(int, BExpV)>
    decreases s.len() - i, 0int,
{
    let j = spec_skip_ws(s, i);
    if i <= j && j < s.len() && s[j] == '!' {
        let p = spec_skip_ws(s, j + 1);
        if j < p && p <= s.len() {
            match spec_bexp(s, p) {
                Some((q, b)) => Some((q, BExpV::Negation(Box::new(b)))),
                None => None,
            }
        } else {
            None
        }
    } else {
        None
    }
}

/// Parenthesized boolean expression: `(` (no leading whitespace skipped),
/// whitespace-tolerant body, `)`.
pub open spec fn spec_bexp_parens(s: Seq<char>, i: int) -> Option<(int, BExpV)>
    decreases s.len() - i, 0int,
{
    if 0 <= i && i < s.len() && s[i] == '(' {
        let p = spec_skip_ws(s, i + 1);
        if i < p && p <= s.len() {
            match spec_bexp(s, p) {
                Some((q, b)) => {
                    let q2 = spec_skip_ws(s, q);
                    if spec_tag(s, q2, ")"@) {
                        Some((q2 + 1, b))
                    } else {
                        None
                    }
                },
                None => None,
            }
        } else {
            None
        }
    } else {
        None
    }
}

/// Zero or more `&&`-prefixed comparisons, left-folded onto `acc`; the
/// right-hand side of `&&` may only be a comparison.
pub open spec fn spec_and_more(s: Seq<char>, i: int, acc: BExpV) -> (int, BExpV)
    decreases s.len() - i, 0int,
{
    if i + 2 <= s.len() && spec_tag(s, i, "&&"@) {
        match spec_ltexp(s, i + 2) {
            Some((j, b)) => if i < j && j <= s.len() {
                spec_and_more(s, j, BExpV::And(Box::new(acc), Box::new(b)))
            } else {
                (i, acc)
            },
            None => (i, acc),
        }
    } else {
        (i, acc)
    }
}

/// Boolean expression: a comparison, parenthesized boolean, negation, or
/// literal (tried in that order), then zero or more `&&`-conjuncts.
pub open spec fn spec_bexp(s: Seq<char>, i: int) -> Option<(int, BExpV)>
    decreases s.len() - i, 6int,
{
    let head = match spec_ltexp(s, i) {
        Some(r) => Some(r),
        None => match spec_bexp_parens(s, i) {
            Some(r) => Some(r),
            None => match spec_not(s, i) {
                Some(r) => Some(r),
                None => spec_bool_const(s, i),
            },
        },
    };
    match head {
        Some((j, b)) => if i <= j && j <= s.len() {
            Some(spec_and_more(s, j, b))
        } else {
            None
        },
        None => None,
    }
}

/// `{`, whitespace-tolerant on both sides; answers the position after.
pub open spec fn spec_open_bracket(s: Seq<char>, i: int) -> Option<int> {
    let j = spec_skip_ws(s, i);
    if i <= j && j < s.len() && s[j] == '{' {
        Some(spec_skip_ws(s, j + 1))
    } else {
        None
    }
}

/// `}`, whitespace-tolerant on both sides; answers the position after.
pub open spec fn spec_closed_bracket(s: Seq<char>, i: int) -> Option<int> {
    let j = spec_skip_ws(s, i);
    if i <= j && j < s.len() && s[j] == '}' {
        Some(spec_skip_ws(s, j + 1))
    } else {
        None
    }
}

/// `;`, whitespace-tolerant on both sides; answers the position after.
pub open spec fn spec_semicolon(s: Seq<char>, i: int) -> Option<int> {
    let j = spec_skip_ws(s, i);
    if i <= j && j < s.len() && s[j] == ';' {
        Some(spec_skip_ws(s, j + 1))
    } else {
        None
    }
}

/// Assignment statement: `<id> = <expr> ;`.
pub open spec fn spec_assign(s: Seq<char>, i: int) -> Option<(int, StmtV)>
    decreases s.len() - i, 0int,
{
    match spec_ident(s, i) {
        Some((j, name)) => if i < j && j + 1 <= s.len() && spec_tag(s, j, "="@) {
            match spec_aexpr(s, j + 1) {
                Some((q, e)) => match spec_semicolon(s, q) {
                    Some(t) => Some((t, StmtV::Assign(name, Box::new(e)))),
                    None => None,
                },
                None => None,
            }
        } else {
            None
        },
        None => None,
    }
}

/// Conditional statement: `if <bool> <block> else <block>`, the keywords
/// matched exactly at the cursor.
pub open spec fn spec_ifthenelse(s: Seq<char>, i: int) -> Option<(int, StmtV)>
    decreases s.len() - i, 0int,
{
    if i + 2 <= s.len() && spec_tag(s, i, "if"@) {
        match spec_bexp(s, i + 2) {
            Some((j, b)) => if i < j && j <= s.len() {
                match spec_block(s, j) {
                    Some((q, b1)) => if i < q && q + 4 <= s.len() && spec_tag(s, q, "else"@) {
                        match spec_block(s, q + 4) {
                            Some((t, b2)) => Some(
                                (
                                    t,
                                    StmtV::IfThenElse(
                                        Box::new(b),
                                        Box::new(b1),
                                        Box::new(b2),
                                    ),
                                ),
                            ),
                            None => None,
                        }
                    } else {
                        None
                    },
                    None => None,
                }
            } else {
                None
            },
            None => None,
        }
    } else {
        None
    }
}

/// Loop statement: `while <bool> <block>`.
pub open spec fn spec_while(s: Seq<char>, i: int) -> Option<(int, StmtV)>
    decreases s.len() - i, 0int,
{
    if i + 5 <= s.len() && spec_tag(s, i, "while"@) {
        match spec_bexp(s, i + 5) {
            Some((j, b)) => if i < j && j <= s.len() {
                match spec_block(s, j) {
                    Some((q, blk)) => Some((q, StmtV::While(Box::new(b), Box::new(blk)))),
                    None => None,
                }
            } else {
                None
            },
            None => None,
        }
    } else {
        None
    }
}

/// Statement: assignment, conditional, or loop, tried in that order.
pub open spec fn spec_stmt(s: Seq<char>, i: int) -> Option<(int, StmtV)>
    decreases s.len() - i, 1int,
{
    match spec_assign(s, i) {
        Some(r) => Some(r),
        None => match spec_ifthenelse(s, i) {
            Some(r) => Some(r),
            None => spec_while(s, i),
        },
    }
}

/// Further statements, folded onto `acc` by sequencing, left to right.
pub open spec fn spec_seq_more(s: Seq<char>, i: int, acc: StmtV) -> (int, StmtV)
    decreases s.len() - i, 2int,
{
    match spec_stmt(s, i) {
        Some((j, st)) => if i < j && j <= s.len() {
            spec_seq_more(s, j, StmtV::Sequence(Box::new(acc), Box::new(st)))
        } else {
            (i, acc)
        },
        None => (i, acc),
    }
}

/// Zero or more statements folded by sequencing: nothing parsed means no
/// statement.
pub open spec fn spec_seq_list(s: Seq<char>, i: int) -> (int, Option<StmtV>)
    decreases s.len() - i, 3int,
{
    match spec_stmt(s, i) {
        Some((j, st)) => if i < j && j <= s.len() {
            let (q, folded) = spec_seq_more(s, j, st);
            (q, Some(folded))
        } else {
            (i, None)
        },
        None => (i, None),
    }
}

/// Block: `{` statements `}`; an empty body is the empty-block marker.
pub open spec fn spec_block(s: Seq<char>, i: int) -> Option<(int, BlockV)>
    decreases s.len() - i, 0int,
{
    match spec_open_bracket(s, i) {
        Some(j) => if i < j && j <= s.len() {
            let (q, body) = spec_seq_list(s, j);
            match spec_closed_bracket(s, q) {
                Some(t) => match body {
                    Some(st) => Some((t, BlockV::BlockStmt(Box::new(st)))),
                    None => Some((t, BlockV::EmptyBlock)),
                },
                None => None,
            }
        } else {
            None
        },
        None => None,
    }
}

/// Further `,`-separated identifiers appended to `acc`; a comma not
/// followed by an identifier is left unconsumed.
pub open spec fn spec_idents_more(s: Seq<char>, i: int, acc: Seq<Seq<char>>) -> (int, Seq<
    Seq<char>,
>)
    decreases s.len() - i,
{
    if 0 <= i && i < s.len() && s[i] == ',' {
        match spec_ident(s, i + 1) {
            Some((j, name)) => if i < j && j <= s.len() {
                spec_idents_more(s, j, acc.push(name))
            } else {
                (i, acc)
            },
            None => (i, acc),
        }
    } else {
        (i, acc)
    }
}

/// Program: `int <id>(, <id>)* ;` followed by a statement sequence; an
/// empty sequence yields an empty-block body.
pub open spec fn spec_pgm(s: Seq<char>, i: int) -> Option<(int, PgmV)> {
    if spec_tag(s, i, "int"@) {
        match spec_ident(s, i + 3) {
            Some((j, first)) => if i < j && j <= s.len() {
                let (q, names) = spec_idents_more(s, j, seq![first]);
                match spec_semicolon(s, q) {
                    Some(t) => if i < t && t <= s.len() {
                        let (u, body) = spec_seq_list(s, t);
                        let stmt = match body {
                            Some(st) => st,
                            None => StmtV::StmtBlock(Box::new(BlockV::EmptyBlock)),
                        };
                        Some((u, PgmV::Program(names, stmt)))
                    } else {
                        None
                    },
                    None => None,
                }
            } else {
                None
            },
            None => None,
        }
    } else {
        None
    }
}

/// The whole input as one program: leading and trailing whitespace allowed,
/// everything else must be consumed.
pub open spec fn spec_parse(s: Seq<char>) -> Option<PgmV> {
    let j = spec_skip_ws(s, 0);
    match spec_pgm(s, j) {
        Some((q, p)) => if spec_skip_ws(s, q) == s.len() {
            Some(p)
        } else {
            None
        },
        None => None,
    }
}

/// Skipping whitespace never moves backwards nor past the end.
proof fn lemma_skip_ws_bounds(s: Seq<char>, i: int)
    requires
        0 <= i <= s.len(),
    ensures
        i <= spec_skip_ws(s, i) <= s.len(),
    decreases s.len() - i,
{
    if i < s.len() && is_space_char(s[i]) {
        lemma_skip_ws_bounds(s, i + 1);
    }
}

/// A digit run holds only digits and stays within bounds.
proof fn lemma_digit_end_digits(s: Seq<char>, i: int)
    ensures
        i <= digit_end(s, i),
        0 <= i <= s.len() ==> digit_end(s, i) <= s.len(),
        forall|m: int| i <= m < digit_end(s, i) ==> is_digit_char(s[m]),
    decreases s.len() - i,
{
    if 0 <= i < s.len() && is_digit_char(s[i]) {
        lemma_digit_end_digits(s, i + 1);
    }
}

/// A letter run stays within bounds.
proof fn lemma_alpha_end_bounds(s: Seq<char>, i: int)
    ensures
        i <= alpha_end(s, i),
        0 <= i <= s.len() ==> alpha_end(s, i) <= s.len(),
    decreases s.len() - i,
{
    if 0 <= i < s.len() && is_alpha_char(s[i]) {
        lemma_alpha_end_bounds(s, i + 1);
    }
}

/// The value of a digit run only grows as the run is extended.
proof fn lemma_digits_val_grows(s: Seq<char>, i: int, j1: int, j2: int)
    requires
        i <= j1 <= j2,
        digits_val(s, i, j1) >= 0,
        forall|m: int| j1 <= m < j2 ==> is_digit_char(#[trigger] s[m]),
    ensures
        digits_val(s, i, j2) >= digits_val(s, i, j1),
    decreases j2 - j1,
{
    if j1 < j2 {
        lemma_digits_val_grows(s, i, j1, j2 - 1);
    }
}

/// Whitespace, exactly as the grammar skips it.
fn is_space(c: char) -> (r: bool)
    ensures
        r == is_space_char(c),
{
    c == ' ' || c == '\t' || c == '\r' || c == '\n'
}

/// ASCII letter.
fn is_alpha(c: char) -> (r: bool)
    ensures
        r == is_alpha_char(c),
{
    ('a' <= c && c <= 'z') || ('A' <= c && c <= 'Z')
}

/// ASCII digit.
fn is_digit(c: char) -> (r: bool)
    ensures
        r == is_digit_char(c),
{
    '0' <= c && c <= '9'
}

/// Advances the cursor past whitespace.
fn skip_ws_at(s: &str, n: usize, i: usize) -> (r: usize)
    requires
        n == s@.len(),
        i <= n,
    ensures
        r == spec_skip_ws(s@, i as int),
        i <= r <= n,
{
    let mut j = i;
    while j < n && is_space(s.get_char(j))
        invariant
            n == s@.len(),
            i <= j <= n,
            spec_skip_ws(s@, i as int) == spec_skip_ws(s@, j as int),
        decreases n - j,
    {
        j += 1;
    }
    j
}

/// Tests whether the literal `t` occurs at the cursor.
fn tag_at(s: &str, n: usize, i: usize, t: &str) -> (r: bool)
    requires
        n == s@.len(),
        i <= n,
    ensures
        r == spec_tag(s@, i as int, t@),
{
    let tn = t.unicode_len();
    if n - i < tn {
        return false;
    }
    let mut k: usize = 0;
    while k < tn
        invariant
            n == s@.len(),
            tn == t@.len(),
            i + tn <= n,
            k <= tn,
            forall|m: int| 0 <= m < k as int ==> s@[i + m] == t@[m],
        decreases tn - k,
    {
        if s.get_char(i + k) != t.get_char(k) {
            proof {
                assert(s@.subrange(i as int, i + t@.len()) != t@) by {
                    assert(s@.subrange(i as int, i + t@.len())[k as int] != t@[k as int]);
                }
            }
            return false;
        }
        k += 1;
    }
    proof {
        assert(s@.subrange(i as int, i + t@.len()) =~= t@);
    }
    true
}

/// Integer literal.
#[verifier::loop_isolation(false)]
fn int_at(s: &str, n: usize, i: usize) -> (r: Option<(usize, AExp)>)
    requires
        n == s@.len(),
        i <= n,
    ensures
        step_view(r) == spec_int(s@, i as int),
        r matches Some((j, _x)) ==> i < j <= n,
{
    let j = skip_ws_at(s, n, i);
    proof {
        lemma_digit_end_digits(s@, j as int);
    }
    let mut k = j;
    let mut v: u64 = 0;
    while k < n && is_digit(s.get_char(k))
        invariant
            n == s@.len(),
            j <= k <= n,
            digit_end(s@, j as int) == digit_end(s@, k as int),
            v == digits_val(s@, j as int, k as int),
            v <= 0x7fff_ffff,
        decreases n - k,
    {
        let c = s.get_char(k);
        let d = (c as u32) - ('0' as u32);
        let v2 = v * 10 + (d as u64);
        proof {
            assert(digits_val(s@, j as int, k as int + 1) == v * 10 + digit_val(s@[k as int]));
        }
        if v2 > 0x7fff_ffff {
            proof {
                let kend = digit_end(s@, j as int);
                lemma_digit_end_digits(s@, j as int);
                lemma_digit_end_digits(s@, k as int + 1);
                assert(digit_end(s@, k as int) == digit_end(s@, k as int + 1));
                assert(k + 1 <= kend);
                assert(digits_val(s@, j as int, k as int + 1) == v2);
                lemma_digits_val_grows(s@, j as int, k as int + 1, kend);
                assert(digits_val(s@, j as int, kend) > 0x7fff_ffff);
            }
            return None;
        }
        v = v2;
        k += 1;
    }
    proof {
        assert(digit_end(s@, k as int) == k);
    }
    if k == j {
        return None;
    }
    let p = skip_ws_at(s, n, k);
    Some((p, AExp::Int(v as i32)))
}

/// Identifier: the run of letters at the cursor.
fn ident_at(s: &str, n: usize, i: usize) -> (r: Option<(usize, String)>)
    requires
        n == s@.len(),
        i <= n,
    ensures
        step_view(r) == spec_ident(s@, i as int),
        r matches Some((j, _x)) ==> i < j <= n,
{
    let j = skip_ws_at(s, n, i);
    proof {
        lemma_alpha_end_bounds(s@, j as int);
    }
    let mut k = j;
    while k < n && is_alpha(s.get_char(k))
        invariant
            n == s@.len(),
            j <= k <= n,
            alpha_end(s@, j as int) == alpha_end(s@, k as int),
        decreases n - k,
    {
        k += 1;
    }
    proof {
        assert(alpha_end(s@, k as int) == k);
    }
    if k == j {
        return None;
    }
    let name = s.substring_char(j, k).to_owned();
    let p = skip_ws_at(s, n, k);
    Some((p, name))
}

/// Identifier as an arithmetic atom.
fn var_at(s: &str, n: usize, i: usize) -> (r: Option<(usize, AExp)>)
    requires
        n == s@.len(),
        i <= n,
    ensures
        step_view(r) == spec_var(s@, i as int),
        r matches Some((j, _x)) ==> i < j <= n,
{
    match ident_at(s, n, i) {
        Some((j, name)) => Some((j, AExp::Id(name))),
        None => None,
    }
}

/// Parenthesized arithmetic expression.
fn parenth_at(s: &str, n: usize, i: usize) -> (r: Option<(usize, AExp)>)
    requires
        n == s@.len(),
        i <= n,
    ensures
        step_view(r) == spec_parenth(s@, i as int),
        r matches Some((j, _x)) ==> i < j <= n,
    decreases n - i, 0int,
{
    let j = skip_ws_at(s, n, i);
    if j < n && s.get_char(j) == '(' {
        match aexpr_at(s, n, j + 1) {
            Some((q, e)) => if tag_at(s, n, q, ")") {
                proof {
                    reveal_strlit(")");
                }
                let p = skip_ws_at(s, n, q + 1);
                Some((p, e))
            } else {
                None
            },
            None => None,
        }
    } else {
        None
    }
}

/// Arithmetic atom: parenthesized expression, integer literal, or
/// identifier, tried in that order.
fn not_bin_at(s: &str, n: usize, i: usize) -> (r: Option<(usize, AExp)>)
    requires
        n == s@.len(),
        i <= n,
    ensures
        step_view(r) == spec_not_bin(s@, i as int),
        r matches Some((j, _x)) ==> i < j <= n,
    decreases n - i, 1int,
{
    match parenth_at(s, n, i) {
        Some(r) => Some(r),
        None => match int_at(s, n, i) {
            Some(r) => Some(r),
            None => var_at(s, n, i),
        },
    }
}

/// Division level: atoms left-folded over `/`.
#[verifier::loop_isolation(false)]
fn div_at(s: &str, n: usize, i: usize) -> (r: Option<(usize, AExp)>)
    requires
        n == s@.len(),
        i <= n,
    ensures
        step_view(r) == spec_div(s@, i as int),
        r matches Some((j, _x)) ==> i < j <= n,
    decreases n - i, 2int,
{
    match not_bin_at(s, n, i) {
        None => None,
        Some((j0, e0)) => {
            let ghost e0v = e0.deep_view();
            let mut pos = j0;
            let mut acc = e0;
            while pos < n && s.get_char(pos) == '/'
                invariant
                    i < pos <= n,
                    spec_div_more(s@, j0 as int, e0v) == spec_div_more(
                        s@,
                        pos as int,
                        acc.deep_view(),
                    ),
                decreases n - pos,
            {
                match not_bin_at(s, n, pos + 1) {
                    None => {
                        return Some((pos, acc));
                    },
                    Some((j2, e2)) => {
                        acc = AExp::Divide(Box::new(acc), Box::new(e2));
                        pos = j2;
                    },
                }
            }
            Some((pos, acc))
        },
    }
}

/// Sum level: division-level terms left-folded over `+`.
#[verifier::loop_isolation(false)]
fn plus_at(s: &str, n: usize, i: usize) -> (r: Option<(usize, AExp)>)
    requires
        n == s@.len(),
        i <= n,
    ensures
        step_view(r) == spec_plus(s@, i as int),
        r matches Some((j, _x)) ==> i < j <= n,
    decreases n - i, 3int,
{
    match div_at(s, n, i) {
        None => None,
        Some((j0, e0)) => {
            let ghost e0v = e0.deep_view();
            let mut pos = j0;
            let mut acc = e0;
            while pos < n && s.get_char(pos) == '+'
                invariant
                    i < pos <= n,
                    spec_plus_more(s@, j0 as int, e0v) == spec_plus_more(
                        s@,
                        pos as int,
                        acc.deep_view(),
                    ),
                decreases n - pos,
            {
                match div_at(s, n, pos + 1) {
                    None => {
                        return Some((pos, acc));
                    },
                    Some((j2, e2)) => {
                        acc = AExp::Plus(Box::new(acc), Box::new(e2));
                        pos = j2;
                    },
                }
            }
            Some((pos, acc))
        },
    }
}

/// Arithmetic expression: the sum level.
fn aexpr_at(s: &str, n: usize, i: usize) -> (r: Option<(usize, AExp)>)
    requires
        n == s@.len(),
        i <= n,
    ensures
        step_view(r) == spec_aexpr(s@, i as int),
        r matches Some((j, _x)) ==> i < j <= n,
    decreases n - i, 4int,
{
    plus_at(s, n, i)
}

/// Comparison: `<expr> <= <expr>`.
fn ltexp_at(s: &str, n: usize, i: usize) -> (r: Option<(usize, BExp)>)
    requires
        n == s@.len(),
        i <= n,
    ensures
        step_view(r) == spec_ltexp(s@, i as int),
        r matches Some((j, _x)) ==> i < j <= n,
    decreases n - i, 5int,
{
    match aexpr_at(s, n, i) {
        None => None,
        Some((j, e1)) => if tag_at(s, n, j, "<=") {
            proof {
                reveal_strlit("<=");
            }
            match aexpr_at(s, n, j + 2) {
                Some((q, e2)) => Some((q, BExp::LessThanEq(Box::new(e1), Box::new(e2)))),
                None => None,
            }
        } else {
            None
        },
    }
}

/// The literal `true`, whitespace-tolerant.
fn parse_true_at(s: &str, n: usize, i: usize) -> (r: Option<(usize, BExp)>)
    requires
        n == s@.len(),
        i <= n,
    ensures
        step_view(r) == spec_true(s@, i as int),
        r matches Some((j, _x)) ==> i < j <= n,
{
    let j = skip_ws_at(s, n, i);
    if tag_at(s, n, j, "true") {
        proof {
            reveal_strlit("true");
        }
        let p = skip_ws_at(s, n, j + 4);
        Some((p, BExp::Bool(true)))
    } else {
        None
    }
}

/// The literal `false`, whitespace-tolerant.
fn parse_false_at(s: &str, n: usize, i: usize) -> (r: Option<(usize, BExp)>)
    requires
        n == s@.len(),
        i <= n,
    ensures
        step_view(r) == spec_false(s@, i as int),
        r matches Some((j, _x)) ==> i < j <= n,
{
    let j = skip_ws_at(s, n, i);
    if tag_at(s, n, j, "false") {
        proof {
            reveal_strlit("false");
        }
        let p = skip_ws_at(s, n, j + 5);
        Some((p, BExp::Bool(false)))
    } else {
        None
    }
}

/// A boolean literal.
fn bool_const_at(s: &str, n: usize, i: usize) -> (r: Option<(usize, BExp)>)
    requires
        n == s@.len(),
        i <= n,
    ensures
        step_view(r) == spec_bool_const(s@, i as int),
        r matches Some((j, _x)) ==> i < j <= n,
{
    match parse_true_at(s, n, i) {
        Some(r) => Some(r),
        None => parse_false_at(s, n, i),
    }
}

/// Negation: `!` followed by a boolean expression.
fn not_at(s: &str, n: usize, i: usize) -> (r: Option<(usize, BExp)>)
    requires
        n == s@.len(),
        i <= n,
    ensures
        step_view(r) == spec_not(s@, i as int),
        r matches Some((j, _x)) ==> i < j <= n,
    decreases n - i, 0int,
{
    let j = skip_ws_at(s, n, i);
    if j < n && s.get_char(j) == '!' {
        let p = skip_ws_at(s, n, j + 1);
        match bexp_at(s, n, p) {
            Some((q, b)) => Some((q, BExp::Negation(Box::new(b)))),
            None => None,
        }
    } else {
        None
    }
}

/// Parenthesized boolean expression: the `(` must stand exactly at the
/// cursor.
fn bexp_parens_at(s: &str, n: usize, i: usize) -> (r: Option<(usize, BExp)>)
    requires
        n == s@.len(),
        i <= n,
    ensures
        step_view(r) == spec_bexp_parens(s@, i as int),
        r matches Some((j, _x)) ==> i < j <= n,
    decreases n - i, 0int,
{
    if i < n && s.get_char(i) == '(' {
        let p = skip_ws_at(s, n, i + 1);
        match bexp_at(s, n, p) {
            Some((q, b)) => {
                let q2 = skip_ws_at(s, n, q);
                if tag_at(s, n, q2, ")") {
                    proof {
                        reveal_strlit(")");
                    }
                    Some((q2 + 1, b))
                } else {
                    None
                }
            },
            None => None,
        }
    } else {
        None
    }
}

/// Boolean expression: one boolean atom, then `&&`-conjuncts whose right
/// operands must be comparisons.
#[verifier::loop_isolation(false)]
fn bexp_at(s: &str, n: usize, i: usize) -> (r: Option<(usize, BExp)>)
    requires
        n == s@.len(),
        i <= n,
    ensures
        step_view(r) == spec_bexp(s@, i as int),
        r matches Some((j, _x)) ==> i < j <= n,
    decreases n - i, 6int,
{
    let head = match ltexp_at(s, n, i) {
        Some(r) => Some(r),
        None => match bexp_parens_at(s, n, i) {
            Some(r) => Some(r),
            None => match not_at(s, n, i) {
                Some(r) => Some(r),
                None => bool_const_at(s, n, i),
            },
        },
    };
    match head {
        None => None,
        Some((j0, b0)) => {
            let ghost b0v = b0.deep_view();
            let mut pos = j0;
            let mut acc = b0;
            while tag_at(s, n, pos, "&&")
                invariant
                    i < pos <= n,
                    spec_and_more(s@, j0 as int, b0v) == spec_and_more(
                        s@,
                        pos as int,
                        acc.deep_view(),
                    ),
                decreases n - pos,
            {
                proof {
                    reveal_strlit("&&");
                }
                match ltexp_at(s, n, pos + 2) {
                    None => {
                        return Some((pos, acc));
                    },
                    Some((j2, b2)) => {
                        acc = BExp::And(Box::new(acc), Box::new(b2));
                        pos = j2;
                    },
                }
            }
            Some((pos, acc))
        },
    }
}

/// `{`, whitespace-tolerant.
fn open_bracket_at(s: &str, n: usize, i: usize) -> (r: Option<usize>)
    requires
        n == s@.len(),
        i <= n,
    ensures
        match r {
            Some(j) => spec_open_bracket(s@, i as int) == Some(j as int) && i < j <= n,
            None => spec_open_bracket(s@, i as int) is None,
        },
{
    let j = skip_ws_at(s, n, i);
    if j < n && s.get_char(j) == '{' {
        Some(skip_ws_at(s, n, j + 1))
    } else {
        None
    }
}

/// `}`, whitespace-tolerant.
fn closed_bracket_at(s: &str, n: usize, i: usize) -> (r: Option<usize>)
    requires
        n == s@.len(),
        i <= n,
    ensures
        match r {
            Some(j) => spec_closed_bracket(s@, i as int) == Some(j as int) && i < j <= n,
            None => spec_closed_bracket(s@, i as int) is None,
        },
{
    let j = skip_ws_at(s, n, i);
    if j < n && s.get_char(j) == '}' {
        Some(skip_ws_at(s, n, j + 1))
    } else {
        None
    }
}

/// `;`, whitespace-tolerant.
fn semicolon_at(s: &str, n: usize, i: usize) -> (r: Option<usize>)
    requires
        n == s@.len(),
        i <= n,
    ensures
        match r {
            Some(j) => spec_semicolon(s@, i as int) == Some(j as int) && i < j <= n,
            None => spec_semicolon(s@, i as int) is None,
        },
{
    let j = skip_ws_at(s, n, i);
    if j < n && s.get_char(j) == ';' {
        Some(skip_ws_at(s, n, j + 1))
    } else {
        None
    }
}

/// Assignment statement: `<id> = <expr> ;`.
fn assign_at(s: &str, n: usize, i: usize) -> (r: Option<(usize, Stmt)>)
    requires
        n == s@.len(),
        i <= n,
    ensures
        step_view(r) == spec_assign(s@, i as int),
        r matches Some((j, _x)) ==> i < j <= n,
    decreases n - i, 0int,
{
    match ident_at(s, n, i) {
        None => None,
        Some((j, name)) => if tag_at(s, n, j, "=") {
            proof {
                reveal_strlit("=");
            }
            match aexpr_at(s, n, j + 1) {
                Some((q, e)) => match semicolon_at(s, n, q) {
                    Some(t) => Some((t, Stmt::Assign(name, Box::new(e)))),
                    None => None,
                },
                None => None,
            }
        } else {
            None
        },
    }
}

/// Conditional statement: `if <bool> <block> else <block>`.
fn ifthenelse_at(s: &str, n: usize, i: usize) -> (r: Option<(usize, Stmt)>)
    requires
        n == s@.len(),
        i <= n,
    ensures
        step_view(r) == spec_ifthenelse(s@, i as int),
        r matches Some((j, _x)) ==> i < j <= n,
    decreases n - i, 0int,
{
    if tag_at(s, n, i, "if") {
        proof {
            reveal_strlit("if");
        }
        match bexp_at(s, n, i + 2) {
            None => None,
            Some((j, b)) => match block_at(s, n, j) {
                None => None,
                Some((q, b1)) => if tag_at(s, n, q, "else") {
                    proof {
                        reveal_strlit("else");
                    }
                    match block_at(s, n, q + 4) {
                        Some((t, b2)) => Some(
                            (
                                t,
                                Stmt::IfThenElse(Box::new(b), Box::new(b1), Box::new(b2)),
                            ),
                        ),
                        None => None,
                    }
                } else {
                    None
                },
            },
        }
    } else {
        None
    }
}

/// Loop statement: `while <bool> <block>`.
fn while_at(s: &str, n: usize, i: usize) -> (r: Option<(usize, Stmt)>)
    requires
        n == s@.len(),
        i <= n,
    ensures
        step_view(r) == spec_while(s@, i as int),
        r matches Some((j, _x)) ==> i < j <= n,
    decreases n - i, 0int,
{
    if tag_at(s, n, i, "while") {
        proof {
            reveal_strlit("while");
        }
        match bexp_at(s, n, i + 5) {
            None => None,
            Some((j, b)) => match block_at(s, n, j) {
                Some((q, blk)) => Some((q, Stmt::While(Box::new(b), Box::new(blk)))),
                None => None,
            },
        }
    } else {
        None
    }
}

/// Statement: assignment, conditional, or loop, tried in that order.
fn stmt_at(s: &str, n: usize, i: usize) -> (r: Option<(usize, Stmt)>)
    requires
        n == s@.len(),
        i <= n,
    ensures
        step_view(r) == spec_stmt(s@, i as int),
        r matches Some((j, _x)) ==> i < j <= n,
    decreases n - i, 1int,
{
    match assign_at(s, n, i) {
        Some(r) => Some(r),
        None => match ifthenelse_at(s, n, i) {
            Some(r) => Some(r),
            None => while_at(s, n, i),
        },
    }
}

/// Zero or more statements folded by sequencing, left to right.
#[verifier::loop_isolation(false)]
fn seq_list_at(s: &str, n: usize, i: usize) -> (r: (usize, Option<Stmt>))
    requires
        n == s@.len(),
        i <= n,
    ensures
        (r.0 as int, r.1.deep_view()) == spec_seq_list(s@, i as int),
        i <= r.0 <= n,
    decreases n - i, 3int,
{
    match stmt_at(s, n, i) {
        None => (i, None),
        Some((j0, st0)) => {
            let ghost st0v = st0.deep_view();
            let mut pos = j0;
            let mut acc = st0;
            loop
                invariant
                    n == s@.len(),
                    i < pos <= n,
                    spec_seq_more(s@, j0 as int, st0v) == spec_seq_more(
                        s@,
                        pos as int,
                        acc.deep_view(),
                    ),
                decreases n - pos,
            {
                match stmt_at(s, n, pos) {
                    None => {
                        return (pos, Some(acc));
                    },
                    Some((j2, st2)) => {
                        acc = Stmt::Sequence(Box::new(acc), Box::new(st2));
                        pos = j2;
                    },
                }
            }
        },
    }
}

/// Block: `{` statements `}`.
fn block_at(s: &str, n: usize, i: usize) -> (r: Option<(usize, Block)>)
    requires
        n == s@.len(),
        i <= n,
    ensures
        step_view(r) == spec_block(s@, i as int),
        r matches Some((j, _x)) ==> i < j <= n,
    decreases n - i, 0int,
{
    match open_bracket_at(s, n, i) {
        None => None,
        Some(j) => {
            let (q, body) = seq_list_at(s, n, j);
            match closed_bracket_at(s, n, q) {
                Some(t) => match body {
                    Some(st) => Some((t, Block::BlockStmt(Box::new(st)))),
                    None => Some((t, Block::EmptyBlock)),
                },
                None => None,
            }
        },
    }
}

/// Program: `int <id>(, <id>)* ;` followed by a statement sequence.
fn pgm_at(s: &str, n: usize, i: usize) -> (r: Option<(usize, Pgm)>)
    requires
        n == s@.len(),
        i <= n,
    ensures
        step_view(r) == spec_pgm(s@, i as int),
        r matches Some((j, _x)) ==> i <= j <= n,
{
    if tag_at(s, n, i, "int") {
        proof {
            reveal_strlit("int");
        }
        match ident_at(s, n, i + 3) {
            None => None,
            Some((j0, first)) => {
                let ghost firstv = first.deep_view();
                let mut names: Vec<String> = Vec::new();
                names.push(first);
                let mut pos = j0;
                proof {
                    assert(names.deep_view() =~= seq![firstv]);
                }
                loop
                    invariant
                        n == s@.len(),
                        i < pos <= n,
                        spec_idents_more(s@, j0 as int, seq![firstv]) == spec_idents_more(
                            s@,
                            pos as int,
                            names.deep_view(),
                        ),
                    ensures
                        n == s@.len(),
                        i < pos <= n,
                        spec_idents_more(s@, j0 as int, seq![firstv]) == (
                            pos as int,
                            names.deep_view(),
                        ),
                    decreases n - pos,
                {
                    if !(pos < n && s.get_char(pos) == ',') {
                        break;
                    }
                    match ident_at(s, n, pos + 1) {
                        None => {
                            break;
                        },
                        Some((j2, name)) => {
                            let ghost prev = names.deep_view();
                            names.push(name);
                            proof {
                                assert(names.deep_view() =~= prev.push(name.deep_view()));
                            }
                            pos = j2;
                        },
                    }
                }
                match semicolon_at(s, n, pos) {
                    None => None,
                    Some(t) => {
                        let (u, body) = seq_list_at(s, n, t);
                        let stmt = match body {
                            Some(st) => st,
                            None => {
                                let st = Stmt::StmtBlock(Box::new(Block::EmptyBlock));
                                proof {
                                    assert(crate::ast::block_view(Block::EmptyBlock)
                                        == BlockV::EmptyBlock);
                                    assert(st.deep_view() == StmtV::StmtBlock(
                                        Box::new(BlockV::EmptyBlock),
                                    ));
                                }
                                st
                            },
                        };
                        Some((u, Pgm::Program(names, stmt)))
                    },
                }
            },
        }
    } else {
        None
    }
}

/// Parsing is deterministic: the parse of a program is a function of the
/// program text alone, so two texts with the same characters parse to
/// structurally identical programs.  (Together with `parse`'s contract,
/// which pins its answer to `spec_parse` of the input's characters, this
/// says that parsing the same text twice yields identical syntax trees.)
pub proof fn lemma_parse_deterministic(s1: Seq<char>, s2: Seq<char>)
    requires
        s1 == s2,
    ensures
        spec_parse(s1) == spec_parse(s2),
{
}

/// Parses one whole program: leading and trailing whitespace allowed,
/// everything else must be consumed; any failure yields `None`, with no
/// partial result.
pub fn parse(input: String) -> (r: Option<Pgm>)
    ensures
        r.deep_view() == spec_parse(input@),
{
    let s = input.as_str();
    let n = s.unicode_len();
    let j = skip_ws_at(s, n, 0);
    match pgm_at(s, n, j) {
        None => None,
        Some((q, p)) => {
            let e = skip_ws_at(s, n, q);
            if e == n {
                Some(p)
            } else {
                None
            }
        },
    }
}

/// Parses an arithmetic expression at the start of `input`, answering the
/// position after it.
pub fn aexpr(input: &str) -> (r: Option<(usize, AExp)>)
    ensures
        step_view(r) == spec_aexpr(input@, 0),
{
    let n = input.unicode_len();
    aexpr_at(input, n, 0)
}

/// Parses one statement at the start of `input`.
pub fn stmt(input: &str) -> (r: Option<(usize, Stmt)>)
    ensures
        step_view(r) == spec_stmt(input@, 0),
{
    let n = input.unicode_len();
    stmt_at(input, n, 0)
}

/// Parses a statement sequence at the start of `input`; no statement at all
/// gives `None` as the folded statement.
pub fn seq_list(input: &str) -> (r: (usize, Option<Stmt>))
    ensures
        (r.0 as int, r.1.deep_view()) == spec_seq_list(input@, 0),
{
    let n = input.unicode_len();
    seq_list_at(input, n, 0)
}

} // verus!
