//! The sub-commands' shared context: the base URL and proxy choices
//! every command starts from, and the errors they surface.

pub mod login;
pub mod project;
pub mod shell_completion;
pub mod userdoc;
pub mod version;

use vstd::prelude::*;

use crate::cli::opts;
use crate::data::renku_url::{url_parsed, RenkuUrl};
use crate::httpclient;
use crate::httpclient::proxy;

verus! {

/// The platform asked for where none is named.
pub const RENKULAB_IO: &'static str = "https://renkulab.io";

/// Failures of running a sub-command.
#[derive(Clone, Debug)]
pub enum CmdError {
    /// The shared context could not be built.
    ContextCreate { source: httpclient::Error },
    /// The `version` sub-command failed.
    Version { source: version::Error },
    /// The `project` sub-command failed.
    Project { source: project::Error },
    /// The `login` sub-command failed.
    Login { source: login::Error },
    /// The `userdoc` sub-command failed.
    UserDoc { source: userdoc::Error },
}

/// The base URL a run works against: the one given on the command
/// line first, else the one from the environment, else the default
/// platform.  The caller reads the environment and hands its value
/// in.
pub fn get_renku_url(opts: &opts::CommonOpts, env_url: Option<&str>) -> (r: Result<
    RenkuUrl,
    CmdError,
>)
    ensures
        match opts.renku_url {
            Some(arg) => match r {
                Ok(u) => url_parsed(arg@) == Some(u@),
                Err(_) => url_parsed(arg@) is None,
            },
            None => match env_url {
                Some(e) => match r {
                    Ok(u) => url_parsed(e@) == Some(u@),
                    Err(_) => url_parsed(e@) is None,
                },
                None => match r {
                    Ok(u) => url_parsed("https://renkulab.io"@) == Some(u@),
                    Err(_) => url_parsed("https://renkulab.io"@) is None,
                },
            },
        },
{
    let text: &str = match &opts.renku_url {
        Some(arg) => arg.as_str(),
        None => match env_url {
            Some(e) => e,
            None => RENKULAB_IO,
        },
    };
    match RenkuUrl::parse(text) {
        Ok(u) => Ok(u),
        Err(_) => Err(
            CmdError::ContextCreate { source: httpclient::Error::UrlParse },
        ),
    }
}

/// The proxy the HTTP client uses: the system's where nothing was
/// asked, none where `none` was asked, and the custom one otherwise,
/// with the credentials given beside it.
pub fn proxy_settings(opts: &opts::CommonOpts) -> (r: proxy::ProxySetting)
    ensures
        match opts.proxy {
            None => r is System,
            Some(opts::ProxySetting::NoProxy) => r is NoProxy,
            Some(opts::ProxySetting::Custom { url }) => (r matches proxy::ProxySetting::Custom {
                url: u,
                user,
                password,
            } && u@ == url@ && user == opts.proxy_user && password == opts.proxy_password),
        },
{
    match &opts.proxy {
        None => proxy::ProxySetting::System,
        Some(opts::ProxySetting::NoProxy) => proxy::ProxySetting::NoProxy,
        Some(opts::ProxySetting::Custom { url }) => proxy::ProxySetting::Custom {
            url: url.clone(),
            user: opts.proxy_user.clone(),
            password: opts.proxy_password.clone(),
        },
    }
}

} // verus!
