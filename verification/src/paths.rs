//! Where the configuration, runtime files and voice profiles live, following
//! the XDG base directory variables with the usual fallbacks.
//!
//! Paths are Unix paths held as text; the environment is read by the caller
//! and handed over as an [`EnvDirs`].

use vstd::prelude::*;

use crate::text::{chars_of, owned, push_char, push_str};

verus! {

pub const APP_NAME: &'static str = "speake-rs";

/// The environment variables that decide the base directories; `None` where a
/// variable is unset (or not valid Unicode).
#[derive(Debug, Clone)]
pub struct EnvDirs {
    pub home: Option<String>,
    pub xdg_config_home: Option<String>,
    pub xdg_data_home: Option<String>,
    pub xdg_runtime_dir: Option<String>,
}

/// `rest` appended to `base` as `Path::join` does on Unix: an absolute `rest`
/// replaces `base`; otherwise one `/` separates them unless `base` is empty or
/// already ends with `/`.
pub open spec fn path_join(base: Seq<char>, rest: Seq<char>) -> Seq<char> {
    if rest.len() > 0 && rest[0] == '/' {
        rest
    } else if base.len() == 0 || base.last() == '/' {
        base + rest
    } else {
        base + seq!['/'] + rest
    }
}

pub open spec fn home_dir_of(env: EnvDirs) -> Seq<char> {
    match env.home {
        Some(h) => h@,
        None => "."@,
    }
}

pub open spec fn config_home_of(env: EnvDirs) -> Seq<char> {
    match env.xdg_config_home {
        Some(d) => d@,
        None => path_join(home_dir_of(env), ".config"@),
    }
}

pub open spec fn data_home_of(env: EnvDirs) -> Seq<char> {
    match env.xdg_data_home {
        Some(d) => d@,
        None => path_join(home_dir_of(env), ".local/share"@),
    }
}

pub open spec fn runtime_home_of(env: EnvDirs) -> Seq<char> {
    match env.xdg_runtime_dir {
        Some(d) => d@,
        None => "/tmp"@,
    }
}

pub open spec fn app_config_dir_of(env: EnvDirs) -> Seq<char> {
    path_join(config_home_of(env), APP_NAME@)
}

pub open spec fn app_data_dir_of(env: EnvDirs) -> Seq<char> {
    path_join(data_home_of(env), APP_NAME@)
}

pub open spec fn app_runtime_dir_of(env: EnvDirs) -> Seq<char> {
    path_join(runtime_home_of(env), APP_NAME@)
}

pub open spec fn config_path_of(env: EnvDirs) -> Seq<char> {
    path_join(app_config_dir_of(env), "config.toml"@)
}

pub open spec fn socket_path_of(env: EnvDirs) -> Seq<char> {
    path_join(app_runtime_dir_of(env), "daemon.sock"@)
}

pub open spec fn pid_path_of(env: EnvDirs) -> Seq<char> {
    path_join(app_runtime_dir_of(env), "daemon.pid"@)
}

pub open spec fn profiles_dir_of(env: EnvDirs) -> Seq<char> {
    path_join(app_data_dir_of(env), "voices"@)
}

/// `base` joined with `rest` (see [`path_join`]).
pub fn join_path(base: &str, rest: &str) -> (r: String)
    ensures
        r@ == path_join(base@, rest@),
{
    let r = chars_of(rest);
    if r.len() > 0 && r[0] == '/' {
        return owned(rest);
    }
    let b = chars_of(base);
    let mut out = owned(base);
    if b.len() > 0 && b[b.len() - 1] != '/' {
        push_char(&mut out, '/');
    }
    push_str(&mut out, rest);
    out
}

fn value_or(var: &Option<String>, fallback: &str) -> (r: String)
    ensures
        r@ == (match var {
            Some(v) => v@,
            None => fallback@,
        }),
{
    match var {
        Some(v) => v.clone(),
        None => owned(fallback),
    }
}

fn home_dir(env: &EnvDirs) -> (r: String)
    ensures
        r@ == home_dir_of(*env),
{
    value_or(&env.home, ".")
}

pub fn config_home(env: &EnvDirs) -> (r: String)
    ensures
        r@ == config_home_of(*env),
{
    match &env.xdg_config_home {
        Some(d) => d.clone(),
        None => join_path(home_dir(env).as_str(), ".config"),
    }
}

pub fn data_home(env: &EnvDirs) -> (r: String)
    ensures
        r@ == data_home_of(*env),
{
    match &env.xdg_data_home {
        Some(d) => d.clone(),
        None => join_path(home_dir(env).as_str(), ".local/share"),
    }
}

pub fn runtime_home(env: &EnvDirs) -> (r: String)
    ensures
        r@ == runtime_home_of(*env),
{
    value_or(&env.xdg_runtime_dir, "/tmp")
}

pub fn app_config_dir(env: &EnvDirs) -> (r: String)
    ensures
        r@ == app_config_dir_of(*env),
{
    join_path(config_home(env).as_str(), APP_NAME)
}

pub fn app_data_dir(env: &EnvDirs) -> (r: String)
    ensures
        r@ == app_data_dir_of(*env),
{
    join_path(data_home(env).as_str(), APP_NAME)
}

pub fn app_runtime_dir(env: &EnvDirs) -> (r: String)
    ensures
        r@ == app_runtime_dir_of(*env),
{
    join_path(runtime_home(env).as_str(), APP_NAME)
}

pub fn config_path(env: &EnvDirs) -> (r: String)
    ensures
        r@ == config_path_of(*env),
{
    join_path(app_config_dir(env).as_str(), "config.toml")
}

pub fn socket_path(env: &EnvDirs) -> (r: String)
    ensures
        r@ == socket_path_of(*env),
{
    join_path(app_runtime_dir(env).as_str(), "daemon.sock")
}

pub fn pid_path(env: &EnvDirs) -> (r: String)
    ensures
        r@ == pid_path_of(*env),
{
    join_path(app_runtime_dir(env).as_str(), "daemon.pid")
}

pub fn profiles_dir(env: &EnvDirs) -> (r: String)
    ensures
        r@ == profiles_dir_of(*env),
{
    join_path(app_data_dir(env).as_str(), "voices")
}

} // verus!
