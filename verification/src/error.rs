//! The errors the tool reports, with their messages and hints.
use vstd::prelude::*;
use crate::text::{decimal, concat2, concat3, owned, u64_to_decimal};

verus! {

/// An error the tool reports to the user.
#[derive(Debug, PartialEq)]
pub enum AppError {
    /// A context name that the configuration does not hold.
    ContextNotFound(String),
    /// No context was chosen by flag, environment or configuration.
    NoContext,
    /// The server answered with an error status.
    EmqxApi { status: u16, code: String, reason: String },
    /// The server refused the credentials of a context.
    AuthFailed { context: String },
    /// The server could not be reached.
    ConnectionFailed { url: String },
    /// The server did not answer in time.
    Timeout { url: String },
    /// The configuration is not usable.
    InvalidConfig(String),
    /// An input file does not exist.
    FileNotFound(String),
    /// An input could not be read as JSON or YAML.
    InvalidInput(String),
    /// Any other failure, shown as its message alone.
    Other(String),
}

/// The message shown for an error (its `Display` text in the command-line tool).
pub open spec fn message_text(e: AppError) -> Seq<char> {
    match e {
        AppError::ContextNotFound(n) => "Context '"@ + n@ + "' not found"@,
        AppError::NoContext => "No context set. Use `emqxctl config set-context` or --context"@,
        AppError::EmqxApi { status, code, reason } => "EMQX API error ("@ + decimal(status as nat)
            + "): ["@ + code@ + "] "@ + reason@,
        AppError::AuthFailed { context } => "Authentication failed for context '"@ + context@ + "'"@,
        AppError::ConnectionFailed { url } => "Connection failed: "@ + url@,
        AppError::Timeout { url } => "Request timed out: "@ + url@,
        AppError::InvalidConfig(s) => "Invalid configuration: "@ + s@,
        AppError::FileNotFound(s) => "File not found: "@ + s@,
        AppError::InvalidInput(s) => "Invalid input: "@ + s@,
        AppError::Other(s) => s@,
    }
}

/// The advice shown under an error, for the errors that have one.
pub open spec fn hint_text(e: AppError) -> Option<Seq<char>> {
    match e {
        AppError::ContextNotFound(n) => Some(
            "Available contexts can be listed with: emqxctl config get-contexts\nCreate one with: emqxctl config set-context "@
                + n@ + " --url <url> --api-key <key> --api-secret <secret>"@,
        ),
        AppError::NoContext => Some(
            "Set a context with: emqxctl config set-context <name> --url <url> --api-key <key> --api-secret <secret>\nOr use --context <name> to specify one"@,
        ),
        AppError::AuthFailed { .. } => Some(
            "Check your credentials with: emqxctl config get-contexts\nUpdate with: emqxctl config set-context <name> --url <url> --api-key <key> --api-secret <secret>"@,
        ),
        AppError::ConnectionFailed { url } => Some(
            "Could not connect to "@ + url@
                + ". Check that:\n- The EMQX dashboard is running\n- The URL is correct (default port is 18083)\n- Network/firewall allows the connection\n- The --context configuration points at the right instance (see: emqxctl config get-contexts)"@,
        ),
        _ => None,
    }
}

impl AppError {
    /// The message shown for this error.
    pub fn message(&self) -> (r: String)
        ensures
            r@ == message_text(*self),
    {
        match self {
            AppError::ContextNotFound(n) => concat3("Context '", n.as_str(), "' not found"),
            AppError::NoContext => owned("No context set. Use `emqxctl config set-context` or --context"),
            AppError::EmqxApi { status, code, reason } => {
                let s = u64_to_decimal(*status as u64);
                let mut r = concat3("EMQX API error (", s.as_str(), "): [");
                r.append(code.as_str());
                r.append("] ");
                r.append(reason.as_str());
                r
            },
            AppError::AuthFailed { context } => concat3(
                "Authentication failed for context '",
                context.as_str(),
                "'",
            ),
            AppError::ConnectionFailed { url } => concat2("Connection failed: ", url.as_str()),
            AppError::Timeout { url } => concat2("Request timed out: ", url.as_str()),
            AppError::InvalidConfig(s) => concat2("Invalid configuration: ", s.as_str()),
            AppError::FileNotFound(s) => concat2("File not found: ", s.as_str()),
            AppError::InvalidInput(s) => concat2("Invalid input: ", s.as_str()),
            AppError::Other(s) => s.clone(),
        }
    }

    /// The advice shown under this error, if it has one.
    pub fn hint(&self) -> (r: Option<String>)
        ensures
            match r {
                Some(h) => hint_text(*self) == Some(h@),
                None => hint_text(*self) is None,
            },
    {
        match self {
            AppError::ContextNotFound(n) => Some(
                concat3(
                    "Available contexts can be listed with: emqxctl config get-contexts\nCreate one with: emqxctl config set-context ",
                    n.as_str(),
                    " --url <url> --api-key <key> --api-secret <secret>",
                ),
            ),
            AppError::NoContext => Some(
                owned(
                    "Set a context with: emqxctl config set-context <name> --url <url> --api-key <key> --api-secret <secret>\nOr use --context <name> to specify one",
                ),
            ),
            AppError::AuthFailed { .. } => Some(
                owned(
                    "Check your credentials with: emqxctl config get-contexts\nUpdate with: emqxctl config set-context <name> --url <url> --api-key <key> --api-secret <secret>",
                ),
            ),
            AppError::ConnectionFailed { url } => Some(
                concat3(
                    "Could not connect to ",
                    url.as_str(),
                    ". Check that:\n- The EMQX dashboard is running\n- The URL is correct (default port is 18083)\n- Network/firewall allows the connection\n- The --context configuration points at the right instance (see: emqxctl config get-contexts)",
                ),
            ),
            _ => None,
        }
    }
}

} // verus!
