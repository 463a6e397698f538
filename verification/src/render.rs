//! Textual rendering of terms, environments, judgments and the derivation
//! stack, for the front end to display.
//!
//! Each rendering is pinned exactly by a spec function over the value's
//! model; a judgment renders as `< term, environment >` (the environment as
//! `[name |-> value, ...]`), a program judgment as `< program >`, and the
//! stack as its judgments top to bottom.

use vstd::prelude::*;

use crate::ast::{AExp, AExpV, BExp, BExpV, Block, BlockV, Pgm, PgmV, Stmt, StmtV};
use crate::judgment::{ConfigV, Configuration};
use crate::stack::{Stack, StackV};
use crate::state::State;

verus! {

/// The character of one decimal digit.
pub open spec fn digit_char(d: nat) -> char {
    if d == 0 {
        '0'
    } else if d == 1 {
        '1'
    } else if d == 2 {
        '2'
    } else if d == 3 {
        '3'
    } else if d == 4 {
        '4'
    } else if d == 5 {
        '5'
    } else if d == 6 {
        '6'
    } else if d == 7 {
        '7'
    } else if d == 8 {
        '8'
    } else {
        '9'
    }
}

/// Decimal digits of `n`, most significant first.
pub open spec fn dec_digits(n: nat) -> Seq<char>
    decreases n,
{
    if n < 10 {
        seq![digit_char(n)]
    } else {
        dec_digits(n / 10).push(digit_char(n % 10))
    }
}

/// Decimal rendering of an integer, with a leading minus sign when
/// negative.
pub open spec fn dec_int(i: int) -> Seq<char> {
    if i < 0 {
        seq!['-'] + dec_digits((-i) as nat)
    } else {
        dec_digits(i as nat)
    }
}

/// Rendering of an arithmetic expression.
pub open spec fn render_aexp(e: AExpV) -> Seq<char>
    decreases e,
{
    match e {
        AExpV::Plus(a1, a2) => render_aexp(*a1) + " + "@ + render_aexp(*a2),
        AExpV::Divide(a1, a2) => render_aexp(*a1) + " / "@ + render_aexp(*a2),
        AExpV::Id(x) => x,
        AExpV::Int(n) => dec_int(n as int),
    }
}

/// Rendering of a boolean expression.
pub open spec fn render_bexp(b: BExpV) -> Seq<char>
    decreases b,
{
    match b {
        BExpV::LessThanEq(a1, a2) => render_aexp(*a1) + " <= "@ + render_aexp(*a2),
        BExpV::Negation(b1) => "!("@ + render_bexp(*b1) + ")"@,
        BExpV::And(b1, b2) => render_bexp(*b1) + " && "@ + render_bexp(*b2),
        BExpV::Bool(v) => if v {
            "true"@
        } else {
            "false"@
        },
    }
}

/// Rendering of a statement.
pub open spec fn render_stmt(s: StmtV) -> Seq<char>
    decreases s,
{
    match s {
        StmtV::StmtBlock(b) => render_block(*b),
        StmtV::Assign(x, a) => x + " = "@ + render_aexp(*a) + " ; "@,
        StmtV::Sequence(s1, s2) => render_stmt(*s1) + "\n"@ + render_stmt(*s2),
        StmtV::IfThenElse(b, b1, b2) => "if "@ + render_bexp(*b) + " then\n "@ + render_block(*b1)
            + " \n else "@ + render_block(*b2) + " \n end"@,
        StmtV::While(b, blk) => "while "@ + render_bexp(*b) + " do \n "@ + render_block(*blk)
            + " \n end"@,
    }
}

/// Rendering of a block.
pub open spec fn render_block(b: BlockV) -> Seq<char>
    decreases b,
{
    match b {
        BlockV::EmptyBlock => "{}"@,
        BlockV::BlockStmt(s) => render_stmt(*s),
    }
}

/// The declared names from position `i` on, joined by commas.
pub open spec fn render_names_from(names: Seq<Seq<char>>, i: int) -> Seq<char>
    decreases names.len() - i,
{
    if i < 0 || i >= names.len() {
        Seq::empty()
    } else if i == names.len() - 1 {
        names[i]
    } else {
        names[i] + ", "@ + render_names_from(names, i + 1)
    }
}

/// Rendering of a program: its declaration line, then its body.
pub open spec fn render_pgm(p: PgmV) -> Seq<char> {
    match p {
        PgmV::Program(names, s) => "int "@ + render_names_from(names, 0) + " ; \n"@ + render_stmt(
            s,
        ),
    }
}

/// The environment's bindings from position `i` on, each as
/// `name |-> value`, joined by commas.
pub open spec fn render_bindings_from(env: Seq<(Seq<char>, i32)>, i: int) -> Seq<char>
    decreases env.len() - i,
{
    if i < 0 || i >= env.len() {
        Seq::empty()
    } else if i == env.len() - 1 {
        env[i].0 + " |-> "@ + dec_int(env[i].1 as int)
    } else {
        env[i].0 + " |-> "@ + dec_int(env[i].1 as int) + ", "@ + render_bindings_from(env, i + 1)
    }
}

/// Rendering of an environment as `[name |-> value, ...]`.
pub open spec fn render_state(env: Seq<(Seq<char>, i32)>) -> Seq<char> {
    "["@ + render_bindings_from(env, 0) + "]"@
}

/// Rendering of a judgment as `< term, environment >`, or `< program >`
/// for the program judgment; the no-payload marker renders as `<>`.
pub open spec fn render_config(c: ConfigV) -> Seq<char> {
    match c {
        ConfigV::AExpConf(a, sigma) => "< "@ + render_aexp(a) + ", "@ + render_state(sigma)
            + " >"@,
        ConfigV::BExpConf(b, sigma) => "< "@ + render_bexp(b) + ", "@ + render_state(sigma)
            + " >"@,
        ConfigV::StmtConf(s, sigma) => "< "@ + render_stmt(s) + ", "@ + render_state(sigma)
            + " >"@,
        ConfigV::PgmConf(p) => "< "@ + render_pgm(p) + " >"@,
        ConfigV::Dummy => "<>"@,
    }
}

/// The judgments from position `i` down to the bottom, top first, separated
/// by rule lines.
pub open spec fn render_judgments_down(js: Seq<ConfigV>, i: int) -> Seq<char>
    decreases i + 1,
{
    if i < 0 || i >= js.len() {
        Seq::empty()
    } else if i == 0 {
        render_config(js[0])
    } else {
        render_config(js[i]) + "\n---\n"@ + render_judgments_down(js, i - 1)
    }
}

/// Rendering of the whole stack: its judgments, top to bottom.
pub open spec fn render_stack(s: StackV) -> Seq<char> {
    render_judgments_down(s.judgments, s.judgments.len() - 1)
}

/// One decimal digit as text.
fn digit_str(d: u32) -> (r: &'static str)
    requires
        d < 10,
    ensures
        r@ == seq![digit_char(d as nat)],
{
    proof {
        reveal_strlit("0");
        reveal_strlit("1");
        reveal_strlit("2");
        reveal_strlit("3");
        reveal_strlit("4");
        reveal_strlit("5");
        reveal_strlit("6");
        reveal_strlit("7");
        reveal_strlit("8");
        reveal_strlit("9");
    }
    let r = if d == 0 {
        "0"
    } else if d == 1 {
        "1"
    } else if d == 2 {
        "2"
    } else if d == 3 {
        "3"
    } else if d == 4 {
        "4"
    } else if d == 5 {
        "5"
    } else if d == 6 {
        "6"
    } else if d == 7 {
        "7"
    } else if d == 8 {
        "8"
    } else {
        "9"
    };
    proof {
        assert(r@ =~= seq![digit_char(d as nat)]);
    }
    r
}

/// Decimal rendering of a machine natural.
fn u32_dec(n: u32) -> (r: String)
    ensures
        r@ == dec_digits(n as nat),
    decreases n,
{
    if n < 10 {
        digit_str(n).to_owned()
    } else {
        let mut s = u32_dec(n / 10);
        s.append(digit_str(n % 10));
        proof {
            assert(s@ =~= dec_digits((n / 10) as nat).push(digit_char((n % 10) as nat)));
        }
        s
    }
}

/// Decimal rendering of a machine integer.
fn i32_dec(i: i32) -> (r: String)
    ensures
        r@ == dec_int(i as int),
{
    if i < 0 {
        let m = (-(i as i64)) as u32;
        let mut s = "-".to_owned();
        s.append(u32_dec(m).as_str());
        proof {
            reveal_strlit("-");
            assert(s@ =~= dec_int(i as int));
        }
        s
    } else {
        u32_dec(i as u32)
    }
}

impl AExp {
    /// Renders the expression as text.
    pub fn render(&self) -> (r: String)
        ensures
            r@ == render_aexp(self@),
        decreases *self,
    {
        match self {
            AExp::Plus(a1, a2) => {
                let mut s = a1.render();
                s.append(" + ");
                s.append(a2.render().as_str());
                s
            },
            AExp::Divide(a1, a2) => {
                let mut s = a1.render();
                s.append(" / ");
                s.append(a2.render().as_str());
                s
            },
            AExp::Id(x) => x.clone(),
            AExp::Int(n) => i32_dec(*n),
        }
    }
}

impl BExp {
    /// Renders the expression as text.
    pub fn render(&self) -> (r: String)
        ensures
            r@ == render_bexp(self@),
        decreases *self,
    {
        match self {
            BExp::LessThanEq(a1, a2) => {
                let mut s = a1.render();
                s.append(" <= ");
                s.append(a2.render().as_str());
                s
            },
            BExp::Negation(b) => {
                let mut s = "!(".to_owned();
                s.append(b.render().as_str());
                s.append(")");
                s
            },
            BExp::And(b1, b2) => {
                let mut s = b1.render();
                s.append(" && ");
                s.append(b2.render().as_str());
                s
            },
            BExp::Bool(v) => if *v {
                "true".to_owned()
            } else {
                "false".to_owned()
            },
        }
    }
}

impl Stmt {
    /// Renders the statement as text.
    pub fn render(&self) -> (r: String)
        ensures
            r@ == render_stmt(self@),
        decreases *self,
    {
        match self {
            Stmt::StmtBlock(b) => b.render(),
            Stmt::Assign(x, a) => {
                let mut s = x.clone();
                s.append(" = ");
                s.append(a.render().as_str());
                s.append(" ; ");
                s
            },
            Stmt::Sequence(s1, s2) => {
                let mut s = s1.render();
                s.append("\n");
                s.append(s2.render().as_str());
                s
            },
            Stmt::IfThenElse(b, b1, b2) => {
                let mut s = "if ".to_owned();
                s.append(b.render().as_str());
                s.append(" then\n ");
                s.append(b1.render().as_str());
                s.append(" \n else ");
                s.append(b2.render().as_str());
                s.append(" \n end");
                s
            },
            Stmt::While(b, blk) => {
                let mut s = "while ".to_owned();
                s.append(b.render().as_str());
                s.append(" do \n ");
                s.append(blk.render().as_str());
                s.append(" \n end");
                s
            },
        }
    }
}

impl Block {
    /// Renders the block as text.
    pub fn render(&self) -> (r: String)
        ensures
            r@ == render_block(self@),
        decreases *self,
    {
        match self {
            Block::EmptyBlock => "{}".to_owned(),
            Block::BlockStmt(s) => s.render(),
        }
    }
}

/// The declared names from position `i` on, joined by commas.
fn render_names(names: &Vec<String>, i: usize) -> (r: String)
    requires
        i <= names@.len(),
    ensures
        r@ == render_names_from(names.deep_view(), i as int),
    decreases names@.len() - i,
{
    if i >= names.len() {
        String::new()
    } else if i == names.len() - 1 {
        names[i].clone()
    } else {
        let mut s = names[i].clone();
        s.append(", ");
        s.append(render_names(names, i + 1).as_str());
        s
    }
}

impl Pgm {
    /// Renders the program: its declaration line, then its body.
    pub fn render(&self) -> (r: String)
        ensures
            r@ == render_pgm(self@),
    {
        match self {
            Pgm::Program(names, s) => {
                let mut out = "int ".to_owned();
                out.append(render_names(names, 0).as_str());
                out.append(" ; \n");
                out.append(s.render().as_str());
                out
            },
        }
    }
}

/// The environment's bindings from position `i` on, joined by commas.
fn render_bindings(env: &Vec<(String, i32)>, i: usize) -> (r: String)
    requires
        i <= env@.len(),
    ensures
        r@ == render_bindings_from(env.deep_view(), i as int),
    decreases env@.len() - i,
{
    if i >= env.len() {
        String::new()
    } else {
        let mut s = env[i].0.clone();
        s.append(" |-> ");
        s.append(i32_dec(env[i].1).as_str());
        if i == env.len() - 1 {
            s
        } else {
            s.append(", ");
            s.append(render_bindings(env, i + 1).as_str());
            s
        }
    }
}

impl State {
    /// Renders the environment as `[name |-> value, ...]`.
    pub fn render(&self) -> (r: String)
        ensures
            r@ == render_state(self@),
    {
        let mut s = "[".to_owned();
        s.append(render_bindings(&self.0, 0).as_str());
        s.append("]");
        s
    }
}

impl Configuration {
    /// Renders the judgment as `< term, environment >`, or `< program >`.
    pub fn render(&self) -> (r: String)
        ensures
            r@ == render_config(self@),
    {
        match self {
            Configuration::AExpConf(a, sigma) => {
                let mut s = "< ".to_owned();
                s.append(a.render().as_str());
                s.append(", ");
                s.append(sigma.render().as_str());
                s.append(" >");
                s
            },
            Configuration::BExpConf(b, sigma) => {
                let mut s = "< ".to_owned();
                s.append(b.render().as_str());
                s.append(", ");
                s.append(sigma.render().as_str());
                s.append(" >");
                s
            },
            Configuration::StmtConf(st, sigma) => {
                let mut s = "< ".to_owned();
                s.append(st.render().as_str());
                s.append(", ");
                s.append(sigma.render().as_str());
                s.append(" >");
                s
            },
            Configuration::PgmConf(p) => {
                let mut s = "< ".to_owned();
                s.append(p.render().as_str());
                s.append(" >");
                s
            },
            Configuration::Dummy => "<>".to_owned(),
        }
    }
}

/// The judgments from position `i` down to the bottom, top first.
fn render_judgments(js: &Vec<Configuration>, i: usize) -> (r: String)
    requires
        i < js@.len() || js@.len() == 0,
    ensures
        r@ == render_judgments_down(js.deep_view(), i as int),
    decreases i,
{
    if js.len() == 0 {
        String::new()
    } else if i == 0 {
        js[0].render()
    } else {
        let mut s = js[i].render();
        s.append("\n---\n");
        s.append(render_judgments(js, i - 1).as_str());
        s
    }
}

impl Stack {
    /// Renders the judgment stack, top judgment first, the judgments
    /// separated by rule lines.
    pub fn render(&self) -> (r: String)
        ensures
            r@ == render_stack(self@),
    {
        let js = self.judgments();
        if js.len() == 0 {
            String::new()
        } else {
            render_judgments(js, js.len() - 1)
        }
    }
}

} // verus!
