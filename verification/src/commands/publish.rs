//! `publish` and `publish-batch`: messages sent through the broker.
use vstd::prelude::*;
use crate::json::{JsonValue, JsonView, members_view};
use crate::plan::{BodyView, CommandPlan, HttpMethod, MethodView, PlanView, RequestBody};
use crate::text::{decimal, owned, concat3, u64_to_decimal};
use crate::commands::{confirm_view, push_member, push_value, json_object, send_and_confirm};

verus! {

/// The message of a `publish`.
pub struct PublishArgs {
    /// The topic to publish to.
    pub topic: String,
    /// The payload.
    pub payload: String,
    /// The QoS level (0, 1 or 2).
    pub qos: u8,
    /// Whether the broker retains the message.
    pub retain: bool,
}

/// The body of a `publish`.
pub open spec fn publish_body(a: PublishArgs) -> JsonView {
    JsonView::Object(
        seq![
            ("payload"@, JsonView::Str(a.payload@)),
            ("qos"@, JsonView::Number(decimal(a.qos as nat))),
            ("retain"@, JsonView::Bool(a.retain)),
            ("topic"@, JsonView::Str(a.topic@)),
        ],
    )
}

/// What `publish` does.
pub open spec fn publish_plan(a: PublishArgs) -> PlanView {
    confirm_view(
        MethodView::Post,
        "/publish"@,
        BodyView::Json(publish_body(a)),
        "Published to '"@ + a.topic@ + "'"@,
    )
}

/// What `publish-batch` does with the messages in `file`.
pub open spec fn publish_batch_plan(file: Seq<char>) -> PlanView {
    confirm_view(MethodView::Post, "/publish/bulk"@, BodyView::InputFile(file), "Batch publish completed"@)
}

impl PublishArgs {
    /// The plan of `publish`.
    pub fn plan(&self) -> (r: CommandPlan)
        ensures
            r@ == publish_plan(*self),
    {
        let mut m: Vec<(String, JsonValue)> = Vec::new();
        push_member(&mut m, "payload", self.payload.as_str());
        push_value(&mut m, "qos", JsonValue::Number(u64_to_decimal(self.qos as u64)));
        push_value(&mut m, "retain", JsonValue::Bool(self.retain));
        push_member(&mut m, "topic", self.topic.as_str());
        assert(members_view(m@) =~= publish_body(*self)->Object_0);
        let body = json_object(m);
        send_and_confirm(
            HttpMethod::Post,
            owned("/publish"),
            RequestBody::Json(body),
            concat3("Published to '", self.topic.as_str(), "'"),
        )
    }
}

/// The plan of `publish-batch`, whose messages are read from `file`.
pub fn execute_batch(file: &str) -> (r: CommandPlan)
    ensures
        r@ == publish_batch_plan(file@),
{
    send_and_confirm(
        HttpMethod::Post,
        owned("/publish/bulk"),
        RequestBody::InputFile(owned(file)),
        owned("Batch publish completed"),
    )
}

} // verus!
