//! `cert`: the TLS certificates the broker holds.
use vstd::prelude::*;
use crate::columns::ColumnSet;
use crate::plan::{CommandPlan, PlanView, get_value, get_value_view};
use crate::text::{owned, concat2};
use crate::commands::{list_view, list_all};

verus! {

/// A `cert` command.
pub enum CertCommand {
    List,
    Get { id: String },
}

/// What a `cert` command does.
pub open spec fn cert_plan(cmd: CertCommand) -> PlanView {
    match cmd {
        CertCommand::List => list_view("/ssl_certs"@, ColumnSet::CertList),
        CertCommand::Get { id } => get_value_view("/ssl_certs/"@ + id@),
    }
}

impl CertCommand {
    /// The plan of this command.
    pub fn plan(&self) -> (r: CommandPlan)
        ensures
            r@ == cert_plan(*self),
    {
        match self {
            CertCommand::List => list_all(owned("/ssl_certs"), ColumnSet::CertList),
            CertCommand::Get { id } => get_value(concat2("/ssl_certs/", id.as_str())),
        }
    }
}

} // verus!
