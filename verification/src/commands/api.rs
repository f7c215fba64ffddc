//! `api`: a raw request to any path of the management interface.
use vstd::prelude::*;
use crate::error::AppError;
use crate::plan::{BodyView, CommandPlan, HttpMethod, MethodView, PlanView, Render, RenderView, RequestBody, call, call_view};
use crate::text::{str_eq, concat2};
use crate::commands::clone_opt;

verus! {

/// The request of `api`.
pub struct ApiArgs {
    /// The HTTP method (`GET`, `POST`, `PUT`, `DELETE`, or any other token).
    pub method: String,
    /// The path, such as `/topics`.
    pub path: String,
    /// The body, as JSON text.
    pub data: Option<String>,
    /// A file whose contents are the body (when `data` is not given).
    pub file: Option<String>,
}

/// A character that may stand in an HTTP method: a `tchar` of RFC 9110, that is a digit, an
/// ASCII letter, or one of ``!#$%&'*+-.^_`|~``.
pub open spec fn is_method_char(c: char) -> bool {
    ||| '0' <= c <= '9'
    ||| 'A' <= c <= 'Z'
    ||| 'a' <= c <= 'z'
    ||| c == '!' || c == '#' || c == '$' || c == '%' || c == '&' || c == '\'' || c == '*'
    ||| c == '+' || c == '-' || c == '.' || c == '^' || c == '_' || c == '`' || c == '|' || c == '~'
}

/// The text of a valid HTTP method: one or more method characters (case matters).
pub open spec fn is_method_token(s: Seq<char>) -> bool {
    s.len() > 0 && forall|i: int| 0 <= i < s.len() ==> is_method_char(#[trigger] s[i])
}

/// The method a valid method text names.
pub open spec fn method_named(t: Seq<char>) -> MethodView {
    if t == "GET"@ {
        MethodView::Get
    } else if t == "POST"@ {
        MethodView::Post
    } else if t == "PUT"@ {
        MethodView::Put
    } else if t == "DELETE"@ {
        MethodView::Delete
    } else {
        MethodView::Other(t)
    }
}

/// The body of an `api` request: the JSON text when given, else the file when given, else none.
pub open spec fn api_body(a: ApiArgs) -> BodyView {
    match a.data {
        Some(d) => BodyView::JsonText(d@),
        None => match a.file {
            Some(f) => BodyView::InputFile(f@),
            None => BodyView::Empty,
        },
    }
}

/// What `api` does; nothing when the method text is not a valid method.
pub open spec fn api_plan(a: ApiArgs) -> Option<PlanView> {
    if is_method_token(a.method@) {
        Some(call_view(method_named(a.method@), a.path@, api_body(a), RenderView::Value))
    } else {
        None
    }
}

/// The message for a method text that is not a valid method.
pub open spec fn invalid_method_message(m: Seq<char>) -> Seq<char> {
    "Invalid HTTP method: "@ + m
}

/// `str::parse::<reqwest::Method>` (`http::Method::from_bytes`), read back with `as_str`: it
/// accepts exactly the non-empty texts of method characters, and a method reads back as the text
/// it was parsed from.
#[verifier::external_body]
fn parse_method(s: &str) -> (r: Option<String>)
    ensures
        r is Some <==> is_method_token(s@),
        r is Some ==> r->0@ == s@,
{
    match s.parse::<reqwest::Method>() {
        Ok(m) => Some(m.as_str().to_string()),
        Err(_) => None,
    }
}

impl ApiArgs {
    /// The plan of this request; an error when the method text is not a valid method.
    pub fn plan(&self) -> (r: Result<CommandPlan, AppError>)
        ensures
            r is Ok <==> api_plan(*self) is Some,
            r is Ok ==> r->Ok_0@ == api_plan(*self)->0,
            r is Err ==> r->Err_0 is Other && r->Err_0->Other_0@ == invalid_method_message(self.method@),
    {
        let text = match parse_method(self.method.as_str()) {
            Some(t) => t,
            None => {
                return Err(AppError::Other(concat2("Invalid HTTP method: ", self.method.as_str())));
            },
        };
        let method = if str_eq(text.as_str(), "GET") {
            HttpMethod::Get
        } else if str_eq(text.as_str(), "POST") {
            HttpMethod::Post
        } else if str_eq(text.as_str(), "PUT") {
            HttpMethod::Put
        } else if str_eq(text.as_str(), "DELETE") {
            HttpMethod::Delete
        } else {
            HttpMethod::Other(text)
        };
        let body = match &self.data {
            Some(d) => RequestBody::JsonText(d.clone()),
            None => match clone_opt(&self.file) {
                Some(f) => RequestBody::InputFile(f),
                None => RequestBody::Empty,
            },
        };
        Ok(call(method, self.path.clone(), body, Render::Value))
    }
}

} // verus!
