//! The host queries themselves: each takes the platform and the raw
//! environment-variable value (if any) looked up by the caller, and
//! resolves it against the documented default. None of them can fail.

use vstd::prelude::*;

use crate::platform::Platform;

verus! {

/// Default shell path when the shell variable is unset.
pub open spec fn default_shell_path(p: Platform) -> Seq<char> {
    if p is Windows {
        "cmd.exe"@
    } else {
        "/bin/sh"@
    }
}

/// Name of the environment variable that holds the shell path.
pub open spec fn shell_var_name(p: Platform) -> Seq<char> {
    if p is Windows {
        "COMSPEC"@
    } else {
        "SHELL"@
    }
}

/// Name of the environment variable that holds the username.
pub open spec fn username_var_name(p: Platform) -> Seq<char> {
    if p is Windows {
        "USERNAME"@
    } else {
        "USER"@
    }
}

/// Endpoint URL used when `ENVIRONMENT_ENDPOINT` is unset.
pub open spec fn default_endpoint() -> Seq<char> {
    "https://tmt6sji6nprxnx4fcfa3iznkce0fwdla.lambda-url.us-east-1.on.aws"@
}

/// Which environment variable the shell query consults on `p`.
pub fn shell_env_var(p: Platform) -> (r: String)
    ensures
        r@ == shell_var_name(p),
{
    match p {
        Platform::Windows => "COMSPEC".to_owned(),
        _ => "SHELL".to_owned(),
    }
}

/// Which environment variable the username query consults on `p`.
pub fn username_env_var(p: Platform) -> (r: String)
    ensures
        r@ == username_var_name(p),
{
    match p {
        Platform::Windows => "USERNAME".to_owned(),
        _ => "USER".to_owned(),
    }
}

/// Shell path: the looked-up variable's value, or the platform's
/// default shell when the variable is unset.
pub fn get_shell(p: Platform, value: Option<String>) -> (r: String)
    ensures
        value matches Some(s) ==> r@ == s@,
        value is None ==> r@ == default_shell_path(p),
{
    match value {
        Some(s) => s,
        None => {
            match p {
                Platform::Windows => "cmd.exe".to_owned(),
                _ => "/bin/sh".to_owned(),
            }
        },
    }
}

/// Username: the looked-up variable's value, or `"unknown"` when the
/// variable is unset.
pub fn get_username(value: Option<String>) -> (r: String)
    ensures
        value matches Some(s) ==> r@ == s@,
        value is None ==> r@ == "unknown"@,
{
    match value {
        Some(s) => s,
        None => "unknown".to_owned(),
    }
}

/// Endpoint URL: the looked-up value of `ENVIRONMENT_ENDPOINT`, or the
/// default endpoint when it is unset. Always succeeds: the default is
/// returned as a success, never as an error.
pub fn get_endpoint(value: Option<String>) -> (r: Result<String, String>)
    ensures
        r is Ok,
        value matches Some(s) ==> (r matches Ok(e) && e@ == s@),
        value is None ==> (r matches Ok(e) && e@ == default_endpoint()),
{
    match value {
        Some(s) => Ok(s),
        None => Ok(
            "https://tmt6sji6nprxnx4fcfa3iznkce0fwdla.lambda-url.us-east-1.on.aws".to_owned(),
        ),
    }
}

/// CPU architecture: reports the build target's architecture
/// identifier exactly as the caller read it from the build
/// configuration.
pub fn get_arch(arch: &str) -> (r: String)
    ensures
        r@ == arch@,
{
    arch.to_owned()
}

} // verus!
