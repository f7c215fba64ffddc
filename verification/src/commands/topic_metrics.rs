//! `topic-metrics`: the per-topic message counters.
use vstd::prelude::*;
use crate::columns::ColumnSet;
use crate::json::{JsonValue, JsonView, members_view};
use crate::plan::{BodyView, CommandPlan, HttpMethod, MethodView, PlanView, RequestBody, get_value, get_value_view};
use crate::text::{owned, concat2, concat3};
use crate::commands::{
    list_view, delete_view, confirm_view, list_all, handle_delete, push_member, json_object,
    send_and_confirm,
};

verus! {

/// A `topic-metrics` command.
pub enum TopicMetricsCommand {
    List,
    Get { topic: String },
    /// Start counting the messages of a topic.
    Register { topic: String },
    /// Stop counting the messages of a topic.
    Deregister { topic: String },
}

/// What a `topic-metrics` command does.
pub open spec fn topic_metrics_plan(cmd: TopicMetricsCommand) -> PlanView {
    match cmd {
        TopicMetricsCommand::List => list_view("/topic-metrics"@, ColumnSet::TopicMetricsList),
        TopicMetricsCommand::Get { topic } => get_value_view("/topic-metrics/"@ + topic@),
        TopicMetricsCommand::Register { topic } => confirm_view(
            MethodView::Post,
            "/topic-metrics"@,
            BodyView::Json(JsonView::Object(seq![("topic"@, JsonView::Str(topic@))])),
            "Topic metrics registered for '"@ + topic@ + "'"@,
        ),
        TopicMetricsCommand::Deregister { topic } => delete_view(
            "/topic-metrics/"@ + topic@,
            "Topic metrics deregistered for '"@ + topic@ + "'"@,
        ),
    }
}

impl TopicMetricsCommand {
    /// The plan of this command.
    pub fn plan(&self) -> (r: CommandPlan)
        ensures
            r@ == topic_metrics_plan(*self),
    {
        match self {
            TopicMetricsCommand::List => list_all(owned("/topic-metrics"), ColumnSet::TopicMetricsList),
            TopicMetricsCommand::Get { topic } => get_value(concat2("/topic-metrics/", topic.as_str())),
            TopicMetricsCommand::Register { topic } => {
                let mut m: Vec<(String, JsonValue)> = Vec::new();
                push_member(&mut m, "topic", topic.as_str());
                assert(members_view(m@) =~= seq![("topic"@, JsonView::Str(topic@))]);
                let body = json_object(m);
                send_and_confirm(
                    HttpMethod::Post,
                    owned("/topic-metrics"),
                    RequestBody::Json(body),
                    concat3("Topic metrics registered for '", topic.as_str(), "'"),
                )
            },
            TopicMetricsCommand::Deregister { topic } => handle_delete(
                concat2("/topic-metrics/", topic.as_str()),
                concat3("Topic metrics deregistered for '", topic.as_str(), "'"),
            ),
        }
    }
}

} // verus!
