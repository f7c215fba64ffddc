//! `alarm`: the alarms the broker raised.
use vstd::prelude::*;
use crate::cli::PaginationArgs;
use crate::client::query_view;
use crate::columns::ColumnSet;
use crate::plan::{CommandPlan, PlanView};
use crate::text::owned;
use crate::commands::{paged_view, delete_view, handle_paginated_list, handle_delete};

verus! {

/// An `alarm` command.
pub enum AlarmCommand {
    /// List alarms: only the active ones, or only the cleared ones, or all.
    List { pagination: PaginationArgs, activated: bool, deactivated: bool },
    /// Clear every alarm.
    Clear,
}

/// The filter of an alarm listing; `activated` wins over `deactivated`.
pub open spec fn alarm_query(activated: bool, deactivated: bool) -> Seq<(Seq<char>, Seq<char>)> {
    if activated {
        seq![("activated"@, "true"@)]
    } else if deactivated {
        seq![("activated"@, "false"@)]
    } else {
        Seq::empty()
    }
}

/// What an `alarm` command does.
pub open spec fn alarm_plan(cmd: AlarmCommand) -> PlanView {
    match cmd {
        AlarmCommand::List { pagination, activated, deactivated } => paged_view(
            "/alarms"@,
            alarm_query(activated, deactivated),
            pagination,
            ColumnSet::AlarmList,
            None,
        ),
        AlarmCommand::Clear => delete_view("/alarms"@, "All alarms cleared"@),
    }
}

impl AlarmCommand {
    /// The plan of this command.
    pub fn plan(&self) -> (r: CommandPlan)
        ensures
            r@ == alarm_plan(*self),
    {
        match self {
            AlarmCommand::List { pagination, activated, deactivated } => {
                let mut query: Vec<(String, String)> = Vec::new();
                if *activated {
                    query.push((owned("activated"), owned("true")));
                } else if *deactivated {
                    query.push((owned("activated"), owned("false")));
                }
                assert(query_view(query@) =~= alarm_query(*activated, *deactivated));
                handle_paginated_list(owned("/alarms"), query, *pagination, ColumnSet::AlarmList, None)
            },
            AlarmCommand::Clear => handle_delete(owned("/alarms"), owned("All alarms cleared")),
        }
    }
}

} // verus!
