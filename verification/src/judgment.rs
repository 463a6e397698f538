//! Judgments (configurations): a term paired with the ambient environment,
//! the bare program, or the content-free marker meaning "premise satisfied,
//! no payload".

use vstd::prelude::*;

use crate::ast::{AExp, AExpV, BExp, BExpV, Pgm, PgmV, Stmt, StmtV};
use crate::ast::{aexp_view, bexp_view, pgm_view, stmt_view};
use crate::state::State;

verus! {

/// One point in a derivation: a term with its environment, a whole program,
/// or the no-payload marker used while a base rule's premise is discharged.
#[derive(Debug, PartialEq)]
pub enum Configuration {
    AExpConf(Box<AExp>, State),
    BExpConf(Box<BExp>, State),
    StmtConf(Box<Stmt>, State),
    PgmConf(Box<Pgm>),
    Dummy,
}

/// Mathematical model of a judgment.
pub enum ConfigV {
    AExpConf(AExpV, Seq<(Seq<char>, i32)>),
    BExpConf(BExpV, Seq<(Seq<char>, i32)>),
    StmtConf(StmtV, Seq<(Seq<char>, i32)>),
    PgmConf(PgmV),
    Dummy,
}

pub open spec fn config_view(c: Configuration) -> ConfigV {
    match c {
        Configuration::AExpConf(a, sigma) => ConfigV::AExpConf(aexp_view(*a), sigma@),
        Configuration::BExpConf(b, sigma) => ConfigV::BExpConf(bexp_view(*b), sigma@),
        Configuration::StmtConf(s, sigma) => ConfigV::StmtConf(stmt_view(*s), sigma@),
        Configuration::PgmConf(p) => ConfigV::PgmConf(pgm_view(*p)),
        Configuration::Dummy => ConfigV::Dummy,
    }
}

impl View for Configuration {
    type V = ConfigV;

    open spec fn view(&self) -> ConfigV {
        config_view(*self)
    }
}

impl DeepView for Configuration {
    type V = ConfigV;

    open spec fn deep_view(&self) -> ConfigV {
        config_view(*self)
    }
}

impl Clone for Configuration {
    /// Cloning preserves the judgment's model exactly.
    fn clone(&self) -> (res: Self)
        ensures
            res@ == self@,
    {
        match self {
            Configuration::AExpConf(a, sigma) => Configuration::AExpConf(
                Box::new((**a).clone()),
                sigma.clone(),
            ),
            Configuration::BExpConf(b, sigma) => Configuration::BExpConf(
                Box::new((**b).clone()),
                sigma.clone(),
            ),
            Configuration::StmtConf(s, sigma) => Configuration::StmtConf(
                Box::new((**s).clone()),
                sigma.clone(),
            ),
            Configuration::PgmConf(p) => Configuration::PgmConf(Box::new((**p).clone())),
            Configuration::Dummy => Configuration::Dummy,
        }
    }
}

} // verus!
