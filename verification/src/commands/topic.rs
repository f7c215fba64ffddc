//! `topic`: the topics the broker routes.
use vstd::prelude::*;
use crate::cli::PaginationArgs;
use crate::client::query_view;
use crate::columns::ColumnSet;
use crate::plan::{CommandPlan, PlanView, get_value, get_value_view};
use crate::text::{owned, concat2, url_escaped, urlencoding_simple};
use crate::commands::{paged_view, opt_pair, opt_view, push_opt, handle_paginated_list};

verus! {

/// A `topic` command.
pub enum TopicCommand {
    /// List topics, matching a topic filter when given.
    List { pagination: PaginationArgs, topic: Option<String> },
    /// Show one topic.
    Get { topic: String },
}

/// What a `topic` command does; a topic in a path has `/`, `#` and `+` escaped.
pub open spec fn topic_plan(cmd: TopicCommand) -> PlanView {
    match cmd {
        TopicCommand::List { pagination, topic } => paged_view(
            "/topics"@,
            opt_pair("topic"@, opt_view(topic)),
            pagination,
            ColumnSet::TopicList,
            None,
        ),
        TopicCommand::Get { topic } => get_value_view("/topics/"@ + url_escaped(topic@)),
    }
}

impl TopicCommand {
    /// The plan of this command.
    pub fn plan(&self) -> (r: CommandPlan)
        ensures
            r@ == topic_plan(*self),
    {
        match self {
            TopicCommand::List { pagination, topic } => {
                let mut query: Vec<(String, String)> = Vec::new();
                push_opt(&mut query, "topic", topic);
                assert(query_view(query@) =~= opt_pair("topic"@, opt_view(*topic)));
                handle_paginated_list(owned("/topics"), query, *pagination, ColumnSet::TopicList, None)
            },
            TopicCommand::Get { topic } => {
                let escaped = urlencoding_simple(topic.as_str());
                get_value(concat2("/topics/", escaped.as_str()))
            },
        }
    }
}

} // verus!
