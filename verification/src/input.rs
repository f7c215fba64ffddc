//! How an input file (or standard input) becomes a request body: JSON first, then YAML.
use vstd::prelude::*;
use crate::error::AppError;
use crate::json::JsonValue;
use crate::text::{str_eq, concat3};

verus! {

/// Whether an input path stands for standard input (`-`).
pub fn reads_stdin(path: &str) -> (r: bool)
    ensures
        r == (path@ == "-"@),
{
    str_eq(path, "-")
}

/// How an input is named in messages: `stdin` for `-`, else its path.
pub open spec fn input_name(path: Seq<char>) -> Seq<char> {
    if path == "-"@ {
        "stdin"@
    } else {
        path
    }
}

/// The error for an input that is neither JSON nor YAML.
pub open spec fn unparsable_message(path: Seq<char>) -> Seq<char> {
    "Could not parse '"@ + input_name(path) + "' as JSON or YAML"@
}

/// The value of an input read from `path`, given its reading as JSON and as YAML (each `None`
/// where the text is not one): the JSON reading when there is one, else the YAML reading, else
/// an invalid-input error naming the input.
pub fn read_input_value(path: &str, as_json: Option<JsonValue>, as_yaml: Option<JsonValue>) -> (r: Result<
    JsonValue,
    AppError,
>)
    ensures
        as_json is Some ==> r == Ok::<JsonValue, AppError>(as_json->0),
        as_json is None && as_yaml is Some ==> r == Ok::<JsonValue, AppError>(as_yaml->0),
        as_json is None && as_yaml is None ==> r is Err && r->Err_0 is InvalidInput
            && r->Err_0->InvalidInput_0@ == unparsable_message(path@),
{
    match as_json {
        Some(v) => Ok(v),
        None => match as_yaml {
            Some(v) => Ok(v),
            None => {
                let name: &str = if reads_stdin(path) { "stdin" } else { path };
                Err(AppError::InvalidInput(concat3("Could not parse '", name, "' as JSON or YAML")))
            },
        },
    }
}

} // verus!
