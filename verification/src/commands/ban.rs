//! `ban`: the banned clients, users and addresses.
use vstd::prelude::*;
use crate::cli::PaginationArgs;
use crate::columns::ColumnSet;
use crate::error::AppError;
use crate::json::{JsonValue, JsonView, members_view};
use crate::plan::{BodyView, CommandPlan, HttpMethod, MethodView, PlanView, Render, RenderView, RequestBody, call, call_view};
use crate::text::{owned, concat3, concat4, concat5, split_once_char};
use crate::commands::{
    paged_view, delete_view, opt_member, opt_view, paged_list, handle_delete, push_member,
    push_opt_member, json_object,
};

verus! {

/// A `ban` command.
pub enum BanCommand {
    List { pagination: PaginationArgs },
    /// Ban `who`, a client id, user name or address as `as_type` says.
    Create { who: String, as_type: String, reason: Option<String>, until: Option<String> },
    /// Lift a ban; the target is written `<as>/<who>`.
    Delete { target: String },
    Clear,
}

/// The body that creates a ban.
pub open spec fn ban_create_body(
    who: Seq<char>,
    as_type: Seq<char>,
    reason: Option<Seq<char>>,
    until: Option<Seq<char>>,
) -> JsonView {
    JsonView::Object(
        seq![("as"@, JsonView::Str(as_type))] + opt_member("reason"@, reason) + opt_member("until"@, until) + seq![
            ("who"@, JsonView::Str(who)),
        ],
    )
}

/// The message of a ban target without `/`.
pub open spec fn ban_target_message() -> Seq<char> {
    "Target must be in format <as>/<who>, e.g. clientid/myclient"@
}

/// What a `ban` command does; nothing for a target without `/`.
pub open spec fn ban_plan(cmd: BanCommand) -> Option<PlanView> {
    match cmd {
        BanCommand::List { pagination } => Some(
            paged_view("/banned"@, Seq::empty(), pagination, ColumnSet::BanList, None),
        ),
        BanCommand::Create { who, as_type, reason, until } => Some(
            call_view(
                MethodView::Post,
                "/banned"@,
                BodyView::Json(ban_create_body(who@, as_type@, opt_view(reason), opt_view(until))),
                RenderView::SuccessIfNull("Banned "@ + as_type@ + " '"@ + who@ + "'"@),
            ),
        ),
        BanCommand::Delete { target } => if target@.contains('/') {
            Some(delete_view("/banned/"@ + target@, "Ban on '"@ + target@ + "' removed"@))
        } else {
            None
        },
        BanCommand::Clear => Some(delete_view("/banned"@, "All bans cleared"@)),
    }
}

impl BanCommand {
    /// The plan of this command; an error for a target without `/`.
    pub fn plan(&self) -> (r: Result<CommandPlan, AppError>)
        ensures
            r is Ok <==> ban_plan(*self) is Some,
            r is Ok ==> r->Ok_0@ == ban_plan(*self)->0,
            r is Err ==> r->Err_0 is Other && r->Err_0->Other_0@ == ban_target_message(),
    {
        match self {
            BanCommand::List { pagination } => Ok(paged_list(owned("/banned"), *pagination, ColumnSet::BanList)),
            BanCommand::Create { who, as_type, reason, until } => {
                let mut m: Vec<(String, JsonValue)> = Vec::new();
                push_member(&mut m, "as", as_type.as_str());
                push_opt_member(&mut m, "reason", reason);
                push_opt_member(&mut m, "until", until);
                push_member(&mut m, "who", who.as_str());
                assert(members_view(m@) =~= ban_create_body(who@, as_type@, opt_view(*reason), opt_view(*until))->Object_0);
                let body = json_object(m);
                Ok(call(
                    HttpMethod::Post,
                    owned("/banned"),
                    RequestBody::Json(body),
                    Render::SuccessIfNull(concat5("Banned ", as_type.as_str(), " '", who.as_str(), "'")),
                ))
            },
            BanCommand::Delete { target } => match split_once_char(target.as_str(), '/') {
                Some((kind, who)) => {
                    let path = concat4("/banned/", kind.as_str(), "/", who.as_str());
                    proof {
                        reveal_strlit("/");
                        assert("/"@ =~= seq!['/']);
                        assert(target@.contains('/')) by {
                            assert(target@[kind@.len() as int] == '/');
                        }
                    }
                    assert(path@ =~= "/banned/"@ + target@);
                    Ok(handle_delete(path, concat3("Ban on '", target.as_str(), "' removed")))
                },
                None => Err(AppError::Other(owned("Target must be in format <as>/<who>, e.g. clientid/myclient"))),
            },
            BanCommand::Clear => Ok(handle_delete(owned("/banned"), owned("All bans cleared"))),
        }
    }
}

} // verus!
