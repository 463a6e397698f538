//! Abstract syntax for the small imperative language: arithmetic
//! expressions, boolean expressions, statements, blocks and whole programs.
//!
//! Each executable syntax type has a mathematical model (its *view*): the
//! same tree shape with variable names abstracted to `Seq<char>`.  All
//! contracts in this crate speak about those views.

use vstd::prelude::*;

verus! {

/// Arithmetic expression.
#[derive(Debug, PartialEq)]
pub enum AExp {
    Plus(Box<AExp>, Box<AExp>),
    Divide(Box<AExp>, Box<AExp>),
    Id(String),
    Int(i32),
}

/// Boolean expression.
#[derive(Debug, PartialEq)]
pub enum BExp {
    LessThanEq(Box<AExp>, Box<AExp>),
    Negation(Box<BExp>),
    And(Box<BExp>, Box<BExp>),
    Bool(bool),
}

/// Statement.
#[derive(Debug, PartialEq)]
pub enum Stmt {
    StmtBlock(Box<Block>),
    Assign(String, Box<AExp>),
    Sequence(Box<Stmt>, Box<Stmt>),
    IfThenElse(Box<BExp>, Box<Block>, Box<Block>),
    While(Box<BExp>, Box<Block>),
}

/// Block: empty, or a block wrapping one statement.
#[derive(Debug, PartialEq)]
pub enum Block {
    EmptyBlock,
    BlockStmt(Box<Stmt>),
}

/// Whole program: declared variable names plus one statement body.
#[derive(Debug, PartialEq)]
pub enum Pgm {
    Program(Vec<String>, Stmt),
}

/// Mathematical model of an arithmetic expression.
pub enum AExpV {
    Plus(Box<AExpV>, Box<AExpV>),
    Divide(Box<AExpV>, Box<AExpV>),
    Id(Seq<char>),
    Int(i32),
}

/// Mathematical model of a boolean expression.
pub enum BExpV {
    LessThanEq(Box<AExpV>, Box<AExpV>),
    Negation(Box<BExpV>),
    And(Box<BExpV>, Box<BExpV>),
    Bool(bool),
}

/// Mathematical model of a statement.
pub enum StmtV {
    StmtBlock(Box<BlockV>),
    Assign(Seq<char>, Box<AExpV>),
    Sequence(Box<StmtV>, Box<StmtV>),
    IfThenElse(Box<BExpV>, Box<BlockV>, Box<BlockV>),
    While(Box<BExpV>, Box<BlockV>),
}

/// Mathematical model of a block.
pub enum BlockV {
    EmptyBlock,
    BlockStmt(Box<StmtV>),
}

/// Mathematical model of a program.
pub enum PgmV {
    Program(Seq<Seq<char>>, StmtV),
}

pub open spec fn aexp_view(e: AExp) -> AExpV
    decreases e,
{
    match e {
        AExp::Plus(a1, a2) => AExpV::Plus(Box::new(aexp_view(*a1)), Box::new(aexp_view(*a2))),
        AExp::Divide(a1, a2) => AExpV::Divide(Box::new(aexp_view(*a1)), Box::new(aexp_view(*a2))),
        AExp::Id(x) => AExpV::Id(x@),
        AExp::Int(n) => AExpV::Int(n),
    }
}

pub open spec fn bexp_view(e: BExp) -> BExpV
    decreases e,
{
    match e {
        BExp::LessThanEq(a1, a2) => BExpV::LessThanEq(
            Box::new(aexp_view(*a1)),
            Box::new(aexp_view(*a2)),
        ),
        BExp::Negation(b) => BExpV::Negation(Box::new(bexp_view(*b))),
        BExp::And(b1, b2) => BExpV::And(Box::new(bexp_view(*b1)), Box::new(bexp_view(*b2))),
        BExp::Bool(b) => BExpV::Bool(b),
    }
}

pub open spec fn stmt_view(s: Stmt) -> StmtV
    decreases s,
{
    match s {
        Stmt::StmtBlock(b) => StmtV::StmtBlock(Box::new(block_view(*b))),
        Stmt::Assign(x, a) => StmtV::Assign(x@, Box::new(aexp_view(*a))),
        Stmt::Sequence(s1, s2) => StmtV::Sequence(
            Box::new(stmt_view(*s1)),
            Box::new(stmt_view(*s2)),
        ),
        Stmt::IfThenElse(b, b1, b2) => StmtV::IfThenElse(
            Box::new(bexp_view(*b)),
            Box::new(block_view(*b1)),
            Box::new(block_view(*b2)),
        ),
        Stmt::While(b, blk) => StmtV::While(Box::new(bexp_view(*b)), Box::new(block_view(*blk))),
    }
}

pub open spec fn block_view(b: Block) -> BlockV
    decreases b,
{
    match b {
        Block::EmptyBlock => BlockV::EmptyBlock,
        Block::BlockStmt(s) => BlockV::BlockStmt(Box::new(stmt_view(*s))),
    }
}

pub open spec fn pgm_view(p: Pgm) -> PgmV {
    match p {
        Pgm::Program(xs, s) => PgmV::Program(xs.deep_view(), stmt_view(s)),
    }
}

impl View for AExp {
    type V = AExpV;

    open spec fn view(&self) -> AExpV {
        aexp_view(*self)
    }
}

impl DeepView for AExp {
    type V = AExpV;

    open spec fn deep_view(&self) -> AExpV {
        aexp_view(*self)
    }
}

impl View for BExp {
    type V = BExpV;

    open spec fn view(&self) -> BExpV {
        bexp_view(*self)
    }
}

impl DeepView for BExp {
    type V = BExpV;

    open spec fn deep_view(&self) -> BExpV {
        bexp_view(*self)
    }
}

impl View for Stmt {
    type V = StmtV;

    open spec fn view(&self) -> StmtV {
        stmt_view(*self)
    }
}

impl DeepView for Stmt {
    type V = StmtV;

    open spec fn deep_view(&self) -> StmtV {
        stmt_view(*self)
    }
}

impl View for Block {
    type V = BlockV;

    open spec fn view(&self) -> BlockV {
        block_view(*self)
    }
}

impl DeepView for Block {
    type V = BlockV;

    open spec fn deep_view(&self) -> BlockV {
        block_view(*self)
    }
}

impl View for Pgm {
    type V = PgmV;

    open spec fn view(&self) -> PgmV {
        pgm_view(*self)
    }
}

impl DeepView for Pgm {
    type V = PgmV;

    open spec fn deep_view(&self) -> PgmV {
        pgm_view(*self)
    }
}

impl Clone for AExp {
    /// Cloning preserves the tree exactly.
    fn clone(&self) -> (res: Self)
        ensures
            res == *self,
        decreases *self,
    {
        match self {
            AExp::Plus(a1, a2) => AExp::Plus(
                Box::new((**a1).clone()),
                Box::new((**a2).clone()),
            ),
            AExp::Divide(a1, a2) => AExp::Divide(
                Box::new((**a1).clone()),
                Box::new((**a2).clone()),
            ),
            AExp::Id(x) => AExp::Id(x.clone()),
            AExp::Int(n) => AExp::Int(*n),
        }
    }
}

impl Clone for BExp {
    /// Cloning preserves the tree exactly.
    fn clone(&self) -> (res: Self)
        ensures
            res == *self,
        decreases *self,
    {
        match self {
            BExp::LessThanEq(a1, a2) => BExp::LessThanEq(
                Box::new((**a1).clone()),
                Box::new((**a2).clone()),
            ),
            BExp::Negation(b) => BExp::Negation(Box::new((**b).clone())),
            BExp::And(b1, b2) => BExp::And(
                Box::new((**b1).clone()),
                Box::new((**b2).clone()),
            ),
            BExp::Bool(b) => BExp::Bool(*b),
        }
    }
}

impl Clone for Stmt {
    /// Cloning preserves the tree exactly.
    fn clone(&self) -> (res: Self)
        ensures
            res == *self,
        decreases *self,
    {
        match self {
            Stmt::StmtBlock(b) => Stmt::StmtBlock(Box::new((**b).clone())),
            Stmt::Assign(x, a) => Stmt::Assign(x.clone(), Box::new((**a).clone())),
            Stmt::Sequence(s1, s2) => Stmt::Sequence(
                Box::new((**s1).clone()),
                Box::new((**s2).clone()),
            ),
            Stmt::IfThenElse(b, b1, b2) => Stmt::IfThenElse(
                Box::new((**b).clone()),
                Box::new((**b1).clone()),
                Box::new((**b2).clone()),
            ),
            Stmt::While(b, blk) => Stmt::While(
                Box::new((**b).clone()),
                Box::new((**blk).clone()),
            ),
        }
    }
}

impl Clone for Block {
    /// Cloning preserves the tree exactly.
    fn clone(&self) -> (res: Self)
        ensures
            res == *self,
        decreases *self,
    {
        match self {
            Block::EmptyBlock => Block::EmptyBlock,
            Block::BlockStmt(s) => Block::BlockStmt(Box::new((**s).clone())),
        }
    }
}

impl Clone for Pgm {
    /// Cloning preserves the program's model exactly.
    fn clone(&self) -> (res: Self)
        ensures
            res@ == self@,
    {
        let res = match self {
            Pgm::Program(xs, s) => Pgm::Program(clone_names(xs), s.clone()),
        };
        proof {
            assert(res@ == self@) by {
                match *self {
                    Pgm::Program(xs, s) => {
                        match res {
                            Pgm::Program(xs2, s2) => {
                                assert(xs2.deep_view() =~= xs.deep_view());
                            },
                        }
                    },
                }
            }
        }
        res
    }
}

/// Clones a list of variable names, preserving it exactly.
pub(crate) fn clone_names(xs: &Vec<String>) -> (res: Vec<String>)
    ensures
        res@ == xs@,
{
    let mut out: Vec<String> = Vec::new();
    let mut i: usize = 0;
    while i < xs.len()
        invariant
            i <= xs.len(),
            out@ =~= xs@.subrange(0, i as int),
        decreases xs.len() - i,
    {
        out.push(xs[i].clone());
        i += 1;
    }
    proof {
        assert(out@ =~= xs@);
    }
    out
}

} // verus!
