//! `slow-sub`: the slow subscription records.
use vstd::prelude::*;
use crate::columns::ColumnSet;
use crate::plan::{CommandPlan, HttpMethod, MethodView, PlanView, get_value, get_value_view};
use crate::text::owned;
use crate::commands::{list_view, upsert_view, delete_view, list_all, handle_create_or_update, handle_delete};

verus! {

/// A `slow-sub` command.
pub enum SlowSubCommand {
    /// Show the settings, or replace them from a file.
    Config { file: Option<String> },
    List,
    Clear,
}

/// What a `slow-sub` command does.
pub open spec fn slow_sub_plan(cmd: SlowSubCommand) -> PlanView {
    match cmd {
        SlowSubCommand::Config { file } => match file {
            Some(f) => upsert_view(
                MethodView::Put,
                "/slow_subscriptions/settings"@,
                f@,
                "Slow subscriptions config updated"@,
            ),
            None => get_value_view("/slow_subscriptions/settings"@),
        },
        SlowSubCommand::List => list_view("/slow_subscriptions"@, ColumnSet::SlowSubList),
        SlowSubCommand::Clear => delete_view("/slow_subscriptions"@, "Slow subscription records cleared"@),
    }
}

impl SlowSubCommand {
    /// The plan of this command.
    pub fn plan(&self) -> (r: CommandPlan)
        ensures
            r@ == slow_sub_plan(*self),
    {
        match self {
            SlowSubCommand::Config { file } => match file {
                Some(f) => handle_create_or_update(
                    HttpMethod::Put,
                    owned("/slow_subscriptions/settings"),
                    f.clone(),
                    owned("Slow subscriptions config updated"),
                ),
                None => get_value(owned("/slow_subscriptions/settings")),
            },
            SlowSubCommand::List => list_all(owned("/slow_subscriptions"), ColumnSet::SlowSubList),
            SlowSubCommand::Clear => handle_delete(
                owned("/slow_subscriptions"),
                owned("Slow subscription records cleared"),
            ),
        }
    }
}

} // verus!
