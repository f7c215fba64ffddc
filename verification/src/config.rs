//! Connection profiles ("contexts"), the choice of the context a command runs
//! against, and the cached login tokens of dashboard contexts.
use vstd::prelude::*;
use crate::error::AppError;
use crate::sorted::{keys_sorted, entries_map, find_key, get_value, insert_entry, remove_entry};
use crate::text::{
    padded, trimmed_end, owned, concat3, concat2, pad_right, str_eq, trim_end_char,
};
use crate::clock::{unix_now, NOW_BOUND};

verus! {

/// One connection profile as the configuration file holds it.
#[derive(Debug, PartialEq)]
pub struct ContextConfig {
    pub url: String,
    pub api_key: Option<String>,
    pub api_secret: Option<String>,
    pub username: Option<String>,
    pub password: Option<String>,
}

/// The configuration file: every context by name, and the current one.
/// Contexts are kept sorted by name, each name once.
#[derive(Debug, PartialEq)]
pub struct Config {
    pub contexts: Vec<(String, ContextConfig)>,
    pub current_context: Option<String>,
}

/// How requests of a context authenticate.
#[derive(Debug, PartialEq)]
pub enum AuthMethod {
    /// An API key and secret, sent as HTTP basic authentication.
    ApiKey { key: String, secret: String },
    /// Dashboard credentials, exchanged for a bearer token at login.
    Dashboard { username: String, password: String },
}

/// The context a command runs against, ready for use.
#[derive(Debug, PartialEq)]
pub struct ResolvedContext {
    pub name: String,
    pub url: String,
    pub auth: AuthMethod,
}

/// A bearer token cached on disk with its expiry (Unix seconds).
#[derive(Debug, PartialEq)]
pub struct TokenCache {
    pub token: String,
    pub expires_at: i64,
}

/// Seconds a fresh login token is cached for.
pub const TOKEN_TTL_SECS: i64 = 7200;

/// The context chosen by the `--context` flag, then the `EMQXCTL_CONTEXT` variable (an empty
/// value chooses none), then the configuration's current context.
pub open spec fn chosen_context(
    explicit: Option<Seq<char>>,
    env_context: Option<Seq<char>>,
    current: Option<Seq<char>>,
) -> Option<Seq<char>> {
    match explicit {
        Some(n) => Some(n),
        None => match env_context {
            Some(e) => if e.len() > 0 {
                Some(e)
            } else {
                None
            },
            None => current,
        },
    }
}

/// The message for a context without usable credentials.
pub open spec fn no_auth_message(name: Seq<char>) -> Seq<char> {
    "Context '"@ + name
        + "' has no valid auth configuration. Provide api_key+api_secret or username+password."@
}

/// The path of `name` inside directory `dir`, as `PathBuf::join` forms it for a relative name.
pub open spec fn joined_path(dir: Seq<char>, name: Seq<char>) -> Seq<char> {
    if dir.len() == 0 {
        name
    } else if dir.last() == '/' {
        dir + name
    } else {
        dir + seq!['/'] + name
    }
}

/// The line `get-contexts` prints for one context.
pub open spec fn context_row(name: Seq<char>, ctx: ContextConfig, current: Seq<char>) -> Seq<char> {
    let marker = if name == current {
        "*"@
    } else {
        ""@
    };
    let auth_type = if ctx.api_key is Some {
        "api-key"@
    } else {
        "dashboard"@
    };
    padded(marker, 4) + " "@ + padded(name, 20) + " "@ + ctx.url@ + " ("@ + auth_type + ")"@
}

/// `lines` are what `get-contexts` prints for `c`: a heading and one line per context in name
/// order, the current one marked with `*`; or a note that there are none.
pub open spec fn lists_contexts(c: Config, lines: Seq<String>) -> bool {
    &&& c.contexts@.len() == 0 ==> lines.len() == 1 && lines[0]@ == "No contexts configured."@
    &&& c.contexts@.len() > 0 ==> {
        &&& lines.len() == c.contexts@.len() + 1
        &&& lines[0]@ == context_header()
        &&& forall|i: int| 0 <= i < c.contexts@.len() ==> #[trigger] lines[i + 1]@ == context_row(
            c.contexts@[i].0@,
            c.contexts@[i].1,
            match c.current_context {
                Some(n) => n@,
                None => ""@,
            },
        )
    }
}

/// The heading line of `get-contexts`.
pub open spec fn context_header() -> Seq<char> {
    padded(""@, 4) + " "@ + padded("NAME"@, 20) + " "@ + "URL"@
}

impl Config {
    /// Contexts are sorted by name and no name occurs twice.
    pub open spec fn wf(&self) -> bool {
        keys_sorted(self.contexts@)
    }

    /// The contexts as a map from name to profile.
    pub open spec fn context_map(&self) -> Map<Seq<char>, ContextConfig> {
        entries_map(self.contexts@)
    }

    /// The name of the current context, if one is set.
    pub open spec fn current_name(&self) -> Option<Seq<char>> {
        match self.current_context {
            Some(c) => Some(c@),
            None => None,
        }
    }

    /// A configuration with no contexts and no current context.
    pub fn empty() -> (r: Config)
        ensures
            r.wf(),
            r.context_map() == Map::<Seq<char>, ContextConfig>::empty(),
            r.current_context is None,
    {
        let r = Config { contexts: Vec::new(), current_context: None };
        assert(r.context_map() =~= Map::<Seq<char>, ContextConfig>::empty());
        r
    }

    /// A configuration from a list of contexts, where a later entry with the same name
    /// replaces an earlier one (as collecting them into a `BTreeMap` does).
    pub fn from_entries(entries: Vec<(String, ContextConfig)>, current_context: Option<String>) -> (r: Config)
        ensures
            r.wf(),
            r.current_context == current_context,
            forall|k: Seq<char>| #[trigger] r.context_map().contains_key(k) <==> last_with_key(entries@, k) is Some,
            forall|k: Seq<char>| #[trigger] r.context_map().contains_key(k) ==>
                r.context_map()[k] == entries@[last_with_key(entries@, k)->0].1,
    {
        let mut r = Config::empty();
        let ghost all = entries@;
        let mut rest = entries;
        let ghost mut done: int = 0;
        while rest.len() > 0
            invariant
                r.wf(),
                r.current_context is None,
                0 <= done <= all.len(),
                rest@ == all.subrange(done, all.len() as int),
                forall|k: Seq<char>| #[trigger] r.context_map().contains_key(k)
                    <==> last_with_key(all.take(done), k) is Some,
                forall|k: Seq<char>| #[trigger] r.context_map().contains_key(k) ==>
                    r.context_map()[k] == all[last_with_key(all.take(done), k)->0].1,
            decreases rest@.len(),
        {
            let (name, ctx) = rest.remove(0);
            let ghost n = name@;
            let ghost c = ctx;
            let ghost before = r.context_map();
            proof {
                assert(all[done] == (name, ctx));
                lemma_last_with_key_push(all, done);
            }
            insert_entry(&mut r.contexts, name, ctx);
            proof {
                assert(r.context_map() == before.insert(n, c));
                assert forall|k: Seq<char>| #[trigger] r.context_map().contains_key(k)
                    <==> last_with_key(all.take(done + 1), k) is Some by {
                    assert(last_with_key(all.take(done + 1), k) == if k == all[done].0@ {
                        Some(done)
                    } else {
                        last_with_key(all.take(done), k)
                    });
                }
                assert forall|k: Seq<char>| #[trigger] r.context_map().contains_key(k) implies
                    r.context_map()[k] == all[last_with_key(all.take(done + 1), k)->0].1 by {
                    assert(last_with_key(all.take(done + 1), k) == if k == all[done].0@ {
                        Some(done)
                    } else {
                        last_with_key(all.take(done), k)
                    });
                }
                done = done + 1;
            }
            assert(rest@ =~= all.subrange(done, all.len() as int));
        }
        assert(done == all.len());
        assert(all.take(done) =~= all);
        assert(all == entries@);
        let ghost m = r.context_map();
        r.current_context = current_context;
        assert(r.context_map() == m);
        assert forall|k: Seq<char>| #[trigger] r.context_map().contains_key(k)
            <==> last_with_key(entries@, k) is Some by {
            assert(all.take(done) == entries@);
        }
        assert forall|k: Seq<char>| #[trigger] r.context_map().contains_key(k) implies
            r.context_map()[k] == entries@[last_with_key(entries@, k)->0].1 by {
            assert(all.take(done) == entries@);
        }
        r
    }
}

impl Config {
    /// The profile of the context called `name`, if there is one.
    pub fn get_context(&self, name: &str) -> (r: Option<&ContextConfig>)
        requires
            self.wf(),
        ensures
            match r {
                Some(c) => self.context_map().contains_key(name@) && *c == self.context_map()[name@],
                None => !self.context_map().contains_key(name@),
            },
    {
        get_value(&self.contexts, name)
    }

    /// Stores a context under `name`, replacing one of the same name; a configuration without a
    /// current context makes it the current one (`config set-context`).
    pub fn set_context(&mut self, name: String, ctx: ContextConfig)
        requires
            old(self).wf(),
        ensures
            final(self).wf(),
            final(self).context_map() == old(self).context_map().insert(name@, ctx),
            final(self).current_context == match old(self).current_context {
                Some(c) => Some(c),
                None => Some(name),
            },
    {
        let keep = name.clone();
        insert_entry(&mut self.contexts, name, ctx);
        if self.current_context.is_none() {
            self.current_context = Some(keep);
        }
    }

    /// Makes `name` the current context; fails when there is no context of that name
    /// (`config use-context`).
    pub fn use_context(&mut self, name: &str) -> (r: Result<(), AppError>)
        requires
            old(self).wf(),
        ensures
            final(self).wf(),
            final(self).context_map() == old(self).context_map(),
            old(self).context_map().contains_key(name@) ==> r is Ok && final(self).current_name() == Some(
                name@,
            ),
            !old(self).context_map().contains_key(name@) ==> r is Err && r->Err_0 is Other
                && r->Err_0->Other_0@ == use_context_missing_message(name@)
                && final(self).current_context == old(self).current_context,
    {
        match find_key(&self.contexts, name) {
            Some(i) => {
                proof { crate::sorted::lemma_map_at(self.contexts@, i as int); }
                self.current_context = Some(owned(name));
                Ok(())
            },
            None => Err(AppError::Other(concat3(
                "Context '",
                name,
                "' not found. Use `emqxctl config get-contexts` to see available contexts.",
            ))),
        }
    }

    /// Removes the context `name`, and clears the current context when it was that one;
    /// fails when there is no context of that name (`config delete-context`).
    pub fn delete_context(&mut self, name: &str) -> (r: Result<(), AppError>)
        requires
            old(self).wf(),
        ensures
            final(self).wf(),
            final(self).context_map() == old(self).context_map().remove(name@),
            old(self).context_map().contains_key(name@) ==> r is Ok && final(self).current_name() == if old(
                self,
            ).current_name() == Some(name@) {
                None
            } else {
                old(self).current_name()
            },
            !old(self).context_map().contains_key(name@) ==> r is Err && r->Err_0 is Other
                && r->Err_0->Other_0@ == delete_context_missing_message(name@)
                && final(self).current_context == old(self).current_context,
    {
        let found = remove_entry(&mut self.contexts, name);
        if !found {
            return Err(AppError::Other(concat3("Context '", name, "' not found.")));
        }
        let is_current = match &self.current_context {
            Some(c) => str_eq(c.as_str(), name),
            None => false,
        };
        if is_current {
            self.current_context = None;
        }
        Ok(())
    }

    /// The lines `config get-contexts` prints: a heading and one line per context in name
    /// order, the current one marked with `*`; or a note that there are none.
    pub fn context_lines(&self) -> (r: Vec<String>)
        ensures
            lists_contexts(*self, r@),
    {
        let mut lines: Vec<String> = Vec::new();
        if self.contexts.len() == 0 {
            lines.push(owned("No contexts configured."));
            return lines;
        }
        let current: &str = match &self.current_context {
            Some(c) => c.as_str(),
            None => "",
        };
        let mut header = pad_right("", 4);
        header.append(" ");
        let name_col = pad_right("NAME", 20);
        header.append(name_col.as_str());
        header.append(" ");
        header.append("URL");
        lines.push(header);
        let mut i: usize = 0;
        while i < self.contexts.len()
            invariant
                i <= self.contexts@.len(),
                lines@.len() == i + 1,
                lines@[0]@ == context_header(),
                current@ == match self.current_context {
                    Some(c) => c@,
                    None => ""@,
                },
                forall|j: int| 0 <= j < i ==> #[trigger] lines@[j + 1]@ == context_row(
                    self.contexts@[j].0@,
                    self.contexts@[j].1,
                    current@,
                ),
            decreases self.contexts@.len() - i,
        {
            let name: &str = self.contexts[i].0.as_str();
            let ctx = &self.contexts[i].1;
            let marker: &str = if str_eq(name, current) { "*" } else { "" };
            let auth_type: &str = if ctx.api_key.is_some() { "api-key" } else { "dashboard" };
            let mut line = pad_right(marker, 4);
            line.append(" ");
            let padded_name = pad_right(name, 20);
            line.append(padded_name.as_str());
            line.append(" ");
            line.append(ctx.url.as_str());
            line.append(" (");
            line.append(auth_type);
            line.append(")");
            lines.push(line);
            i = i + 1;
        }
        lines
    }

    /// The line `config current-context` prints.
    pub fn current_context_line(&self) -> (r: String)
        ensures
            r@ == match self.current_context {
                Some(c) => c@,
                None => "No current context set."@,
            },
    {
        match &self.current_context {
            Some(c) => c.clone(),
            None => owned("No current context set."),
        }
    }

    /// The context a command runs against: chosen by `explicit` (the `--context` flag), then
    /// `env_context` (the `EMQXCTL_CONTEXT` variable, where an empty value chooses none), then the
    /// current context; its URL without trailing `/`, and API-key credentials in preference to
    /// dashboard credentials.
    pub fn resolve_context(&self, explicit: Option<&str>, env_context: Option<&str>) -> (r: Result<
        ResolvedContext,
        AppError,
    >)
        requires
            self.wf(),
        ensures
            ({
                let chosen = chosen_context(
                    match explicit {
                        Some(e) => Some(e@),
                        None => None,
                    },
                    match env_context {
                        Some(e) => Some(e@),
                        None => None,
                    },
                    self.current_name(),
                );
                match chosen {
                    None => r == Err::<ResolvedContext, AppError>(AppError::NoContext),
                    Some(name) => if !self.context_map().contains_key(name) {
                        r is Err && r->Err_0 is ContextNotFound && r->Err_0->ContextNotFound_0@ == name
                    } else {
                        let ctx = self.context_map()[name];
                        if ctx.api_key is Some && ctx.api_secret is Some {
                            r is Ok && r->Ok_0.name@ == name && r->Ok_0.url@ == trimmed_end(ctx.url@, '/')
                                && r->Ok_0.auth == AuthMethod::ApiKey {
                                key: ctx.api_key->0,
                                secret: ctx.api_secret->0,
                            }
                        } else if ctx.username is Some && ctx.password is Some {
                            r is Ok && r->Ok_0.name@ == name && r->Ok_0.url@ == trimmed_end(ctx.url@, '/')
                                && r->Ok_0.auth == AuthMethod::Dashboard {
                                username: ctx.username->0,
                                password: ctx.password->0,
                            }
                        } else {
                            r is Err && r->Err_0 is InvalidConfig && r->Err_0->InvalidConfig_0@
                                == no_auth_message(name)
                        }
                    },
                }
            }),
    {
        let name: String = match explicit {
            Some(n) => owned(n),
            None => match env_context {
                Some(e) => {
                    if e.unicode_len() > 0 {
                        owned(e)
                    } else {
                        return Err(AppError::NoContext);
                    }
                },
                None => match &self.current_context {
                    Some(c) => c.clone(),
                    None => {
                        return Err(AppError::NoContext);
                    },
                },
            },
        };
        let ctx = match self.get_context(name.as_str()) {
            Some(c) => c,
            None => {
                return Err(AppError::ContextNotFound(name));
            },
        };
        let url = trim_end_char(ctx.url.as_str(), '/');
        let auth = match (&ctx.api_key, &ctx.api_secret) {
            (Some(key), Some(secret)) => AuthMethod::ApiKey { key: key.clone(), secret: secret.clone() },
            _ => match (&ctx.username, &ctx.password) {
                (Some(u), Some(p)) => AuthMethod::Dashboard { username: u.clone(), password: p.clone() },
                _ => {
                    return Err(AppError::InvalidConfig(concat3(
                        "Context '",
                        name.as_str(),
                        "' has no valid auth configuration. Provide api_key+api_secret or username+password.",
                    )));
                },
            },
        };
        Ok(ResolvedContext { name, url, auth })
    }

    /// The configuration file inside the configuration directory.
    pub fn config_path(config_dir: &str) -> (r: String)
        ensures
            r@ == joined_path(config_dir@, "config.yaml"@),
    {
        join_path(config_dir, "config.yaml")
    }

    /// The token cache directory inside the configuration directory.
    pub fn cache_dir(config_dir: &str) -> (r: String)
        ensures
            r@ == joined_path(config_dir@, "cache"@),
    {
        join_path(config_dir, "cache")
    }

    /// The token cache file of a context inside the cache directory.
    pub fn token_cache_path(cache_dir: &str, context_name: &str) -> (r: String)
        ensures
            r@ == joined_path(cache_dir@, context_name@ + "_token"@),
    {
        let file = concat2(context_name, "_token");
        join_path(cache_dir, file.as_str())
    }

    /// A cached token that is still valid at `now`: its expiry lies in the future.
    pub fn fresh_token_at(cache: Option<TokenCache>, now: i64) -> (r: Option<TokenCache>)
        ensures
            r == match cache {
                Some(c) => if is_fresh(c, now) {
                    Some(c)
                } else {
                    None
                },
                None => None,
            },
    {
        match cache {
            Some(c) => {
                if c.expires_at > now {
                    Some(c)
                } else {
                    None
                }
            },
            None => None,
        }
    }

    /// A cached token that is still valid at the current time (the check of `load_token_cache`).
    /// The result depends on the clock: it is the cached token or nothing; a token that expired
    /// by the epoch is never kept, and one that outlasts every date the clock can show always is.
    pub fn fresh_token(cache: Option<TokenCache>) -> (r: Option<TokenCache>)
        ensures
            r is None || r == cache,
            cache is None ==> r is None,
            cache is Some && cache->0.expires_at <= 0 ==> r is None,
            cache is Some && cache->0.expires_at >= NOW_BOUND ==> r == cache,
    {
        let now = unix_now();
        Config::fresh_token_at(cache, now)
    }

    /// The expiry of a token obtained at `now`.
    pub fn token_expiry_at(now: i64) -> (r: i64)
        requires
            now <= i64::MAX - TOKEN_TTL_SECS,
        ensures
            r == now + TOKEN_TTL_SECS,
    {
        now + TOKEN_TTL_SECS
    }

    /// The expiry of a token obtained now: two hours ahead.
    pub fn token_expiry() -> (r: i64)
        ensures
            TOKEN_TTL_SECS <= r < NOW_BOUND + TOKEN_TTL_SECS,
    {
        let now = unix_now();
        Config::token_expiry_at(now)
    }
}

impl Default for Config {
    /// A configuration with no contexts and no current context.
    fn default() -> (r: Config)
        ensures
            r.wf(),
            r.context_map() == Map::<Seq<char>, ContextConfig>::empty(),
            r.current_context is None,
    {
        Config::empty()
    }
}

/// A cached token is usable at `now` while its expiry lies ahead.
pub open spec fn is_fresh(c: TokenCache, now: i64) -> bool {
    c.expires_at > now
}

/// The message when `use-context` names a missing context.
pub open spec fn use_context_missing_message(name: Seq<char>) -> Seq<char> {
    "Context '"@ + name + "' not found. Use `emqxctl config get-contexts` to see available contexts."@
}

/// The message when `delete-context` names a missing context.
pub open spec fn delete_context_missing_message(name: Seq<char>) -> Seq<char> {
    "Context '"@ + name + "' not found."@
}

/// `name` joined to `dir` with one `/` between them, as `PathBuf::join` joins a relative name.
pub fn join_path(dir: &str, name: &str) -> (r: String)
    ensures
        r@ == joined_path(dir@, name@),
{
    let n = dir.unicode_len();
    if n == 0 {
        owned(name)
    } else if dir.get_char(n - 1) == '/' {
        concat2(dir, name)
    } else {
        proof { reveal_strlit("/"); }
        let r = concat3(dir, "/", name);
        assert(r@ =~= dir@ + seq!['/'] + name@);
        r
    }
}

/// The position of the last entry with key `k`, if any.
pub open spec fn last_with_key<V>(e: Seq<(String, V)>, k: Seq<char>) -> Option<int>
    decreases e.len(),
{
    if e.len() == 0 {
        None
    } else if e.last().0@ == k {
        Some(e.len() - 1)
    } else {
        last_with_key(e.drop_last(), k)
    }
}

proof fn lemma_last_with_key_bounds<V>(e: Seq<(String, V)>, k: Seq<char>)
    ensures
        last_with_key(e, k) matches Some(i) ==> 0 <= i < e.len() && e[i].0@ == k,
    decreases e.len(),
{
    if e.len() > 0 && e.last().0@ != k {
        lemma_last_with_key_bounds(e.drop_last(), k);
    }
}

proof fn lemma_last_with_key_push<V>(all: Seq<(String, V)>, done: int)
    requires
        0 <= done < all.len(),
    ensures
        forall|k: Seq<char>| #[trigger] last_with_key(all.take(done + 1), k) == if k == all[done].0@ {
            Some(done)
        } else {
            last_with_key(all.take(done), k)
        },
        forall|k: Seq<char>| (#[trigger] last_with_key(all.take(done), k)) is Some ==> 0 <= last_with_key(
            all.take(done),
            k,
        )->0 < done,
{
    assert(all.take(done + 1).drop_last() =~= all.take(done));
    assert forall|k: Seq<char>| (#[trigger] last_with_key(all.take(done), k)) is Some implies 0
        <= last_with_key(all.take(done), k)->0 < done by {
        lemma_last_with_key_bounds(all.take(done), k);
    }
}

} // verus!
