//! `subscription`: the subscriptions of all clients.
use vstd::prelude::*;
use crate::cli::PaginationArgs;
use crate::client::query_view;
use crate::columns::ColumnSet;
use crate::plan::{CommandPlan, PlanView};
use crate::text::owned;
use crate::commands::{paged_view, opt_pair, opt_view, push_opt, handle_paginated_list};

verus! {

/// A `subscription` command.
pub enum SubscriptionCommand {
    /// List subscriptions, of one client or one topic when given.
    List { pagination: PaginationArgs, clientid: Option<String>, topic: Option<String> },
}

/// What a `subscription` command does.
pub open spec fn subscription_plan(cmd: SubscriptionCommand) -> PlanView {
    match cmd {
        SubscriptionCommand::List { pagination, clientid, topic } => paged_view(
            "/subscriptions"@,
            opt_pair("clientid"@, opt_view(clientid)) + opt_pair("topic"@, opt_view(topic)),
            pagination,
            ColumnSet::SubscriptionList,
            None,
        ),
    }
}

impl SubscriptionCommand {
    /// The plan of this command.
    pub fn plan(&self) -> (r: CommandPlan)
        ensures
            r@ == subscription_plan(*self),
    {
        match self {
            SubscriptionCommand::List { pagination, clientid, topic } => {
                let mut query: Vec<(String, String)> = Vec::new();
                push_opt(&mut query, "clientid", clientid);
                push_opt(&mut query, "topic", topic);
                assert(query_view(query@) =~= opt_pair("clientid"@, opt_view(*clientid)) + opt_pair(
                    "topic"@,
                    opt_view(*topic),
                ));
                handle_paginated_list(owned("/subscriptions"), query, *pagination, ColumnSet::SubscriptionList, None)
            },
        }
    }
}

} // verus!
