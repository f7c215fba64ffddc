//! Laws of the configuration's text and of the errors the tool reports.
use vstd::prelude::*;
use crate::config::{ContextConfig, context_row, joined_path, use_context_missing_message, delete_context_missing_message, no_auth_message};
use crate::error::{AppError, message_text, hint_text};
use crate::input::{input_name, unparsable_message};
use crate::text::{decimal, padded};

verus! {

/// A `get-contexts` line marks the current context with `*` in a four-character column, then
/// shows the name padded to 20 characters, the URL, and `(api-key)` for a context with an API key,
/// else `(dashboard)`.
pub proof fn law_context_line(name: Seq<char>, ctx: ContextConfig, current: Seq<char>)
    ensures
        context_row(name, ctx, current) == (if name == current {
            "*   "@
        } else {
            "    "@
        }) + " "@ + padded(name, 20) + " "@ + ctx.url@ + if ctx.api_key is Some {
            " (api-key)"@
        } else {
            " (dashboard)"@
        },
{
    reveal_strlit("*");
    reveal_strlit("");
    reveal_strlit("*   ");
    reveal_strlit("    ");
    reveal_strlit(" (");
    reveal_strlit(")");
    reveal_strlit("api-key");
    reveal_strlit("dashboard");
    reveal_strlit(" (api-key)");
    reveal_strlit(" (dashboard)");
    assert(padded("*"@, 4) =~= "*   "@);
    assert(padded(""@, 4) =~= "    "@);
    let rest = " "@ + padded(name, 20) + " "@ + ctx.url@;
    assert(rest + " ("@ + "api-key"@ + ")"@ =~= rest + " (api-key)"@);
    assert(rest + " ("@ + "dashboard"@ + ")"@ =~= rest + " (dashboard)"@);
    let m = if name == current { "*   "@ } else { "    "@ };
    assert(m + rest + " ("@ + "api-key"@ + ")"@ =~= m + " "@ + padded(name, 20) + " "@ + ctx.url@ + " (api-key)"@);
    assert(m + rest + " ("@ + "dashboard"@ + ")"@ =~= m + " "@ + padded(name, 20) + " "@ + ctx.url@
        + " (dashboard)"@);
}

/// A file inside a directory: the name alone for no directory, the directory and the name with
/// one `/` between them otherwise.
pub proof fn law_joined_path(dir: Seq<char>, name: Seq<char>)
    ensures
        dir.len() == 0 ==> joined_path(dir, name) == name,
        dir.len() > 0 && dir.last() == '/' ==> joined_path(dir, name) == dir + name,
        dir.len() > 0 && dir.last() != '/' ==> joined_path(dir, name) == dir + "/"@ + name,
{
    reveal_strlit("/");
    assert("/"@ =~= seq!['/']);
}

/// The messages of the configuration's refusals name the context.
pub proof fn law_context_messages(name: Seq<char>)
    ensures
        use_context_missing_message(name) == "Context '"@ + name
            + "' not found. Use `emqxctl config get-contexts` to see available contexts."@,
        delete_context_missing_message(name) == "Context '"@ + name + "' not found."@,
        no_auth_message(name) == "Context '"@ + name
            + "' has no valid auth configuration. Provide api_key+api_secret or username+password."@,
{
}

/// An input that cannot be read is named `stdin` when it is standard input (`-`), else by its path.
pub proof fn law_unparsable_input(path: Seq<char>)
    ensures
        path == "-"@ ==> unparsable_message(path) == "Could not parse 'stdin' as JSON or YAML"@,
        path != "-"@ ==> unparsable_message(path) == "Could not parse '"@ + path + "' as JSON or YAML"@,
{
    reveal_strlit("Could not parse '");
    reveal_strlit("' as JSON or YAML");
    reveal_strlit("Could not parse 'stdin' as JSON or YAML");
    reveal_strlit("stdin");
    assert("Could not parse '"@ + "stdin"@ + "' as JSON or YAML"@ =~= "Could not parse 'stdin' as JSON or YAML"@);
    assert(input_name(path) == if path == "-"@ { "stdin"@ } else { path });
}

/// What each error says: the API error its status, code and reason; the others the context, URL,
/// path or text they carry; any other failure its text alone.
pub proof fn law_error_messages(e: AppError)
    ensures
        e matches AppError::EmqxApi { status, code, reason } ==> message_text(e) == "EMQX API error ("@
            + decimal(status as nat) + "): ["@ + code@ + "] "@ + reason@,
        e matches AppError::ContextNotFound(n) ==> message_text(e) == "Context '"@ + n@ + "' not found"@,
        e matches AppError::AuthFailed { context } ==> message_text(e) == "Authentication failed for context '"@
            + context@ + "'"@,
        e matches AppError::ConnectionFailed { url } ==> message_text(e) == "Connection failed: "@ + url@,
        e matches AppError::Timeout { url } ==> message_text(e) == "Request timed out: "@ + url@,
        e matches AppError::InvalidConfig(t) ==> message_text(e) == "Invalid configuration: "@ + t@,
        e matches AppError::FileNotFound(t) ==> message_text(e) == "File not found: "@ + t@,
        e matches AppError::InvalidInput(t) ==> message_text(e) == "Invalid input: "@ + t@,
        e matches AppError::Other(t) ==> message_text(e) == t@,
        e is NoContext ==> message_text(e) == "No context set. Use `emqxctl config set-context` or --context"@,
{
}

/// Errors that a user can mend come with a hint: a missing context, no context, refused
/// credentials and an unreachable server (whose hint names the URL and asks to check the
/// `--context` configuration); the others have none.
pub proof fn law_error_hints(e: AppError)
    ensures
        hint_text(e) is Some <==> (e is ContextNotFound || e is NoContext || e is AuthFailed || e is ConnectionFailed),
        e matches AppError::ConnectionFailed { url } ==> hint_text(e) == Some(
            "Could not connect to "@ + url@
                + ". Check that:\n- The EMQX dashboard is running\n- The URL is correct (default port is 18083)\n- Network/firewall allows the connection\n- The --context configuration points at the right instance (see: emqxctl config get-contexts)"@,
        ),
        e matches AppError::ContextNotFound(n) ==> hint_text(e) == Some(
            "Available contexts can be listed with: emqxctl config get-contexts\nCreate one with: emqxctl config set-context "@
                + n@ + " --url <url> --api-key <key> --api-secret <secret>"@,
        ),
{
}

} // verus!
