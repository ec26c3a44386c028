//! Changing the configuration of a session: the network id, and the proxy
//! and bootstrap servers named in the conductor's configuration file.
//!
//! The command computes the new contents of the files; reading and writing
//! them is left to the caller.

use vstd::prelude::*;
use vstd::string::StringExecFns;

verus! {

/// The text in which every non-overlapping match of the regular expression
/// `pattern` in `haystack` is replaced by `replacement`, with the
/// replacement's references to capture groups expanded, as `regex::Regex`
/// computes it; `None` where `regex::Regex::new` refuses the pattern.
pub uninterp spec fn regex_replace_all(
    pattern: Seq<char>,
    haystack: Seq<char>,
    replacement: Seq<char>,
) -> Option<Seq<char>>;

/// The error of `regex::Regex::new`. Nothing is read from it.
#[verifier::external_type_specification]
#[verifier::external_body]
pub struct ExRegexError(regex::Error);

/// Compiles `pattern` with `regex::Regex::new` and calls
/// `regex::Regex::replace_all` on the result. Trusted: the outcome is the
/// one named `regex_replace_all`, with the error of `Regex::new` where the
/// pattern is refused.
#[verifier::external_body]
fn replace_all(pattern: &str, haystack: &str, replacement: &str) -> (r: Result<
    String,
    regex::Error,
>)
    ensures
        r matches Ok(text) ==> regex_replace_all(pattern@, haystack@, replacement@) == Some(
            text@,
        ),
        r is Err ==> regex_replace_all(pattern@, haystack@, replacement@) is None,
{
    Ok(regex::Regex::new(pattern)?.replace_all(haystack, replacement).into_owned())
}

/// The pattern of the line that names the proxy server.
pub open spec fn proxy_pattern() -> &'static str {
    "proxy_url: (.*)"
}

/// The start of the line that names the proxy server.
pub open spec fn proxy_key() -> &'static str {
    "proxy_url: "
}

/// The pattern of the line that names the bootstrap server.
pub open spec fn bootstrap_pattern() -> &'static str {
    "bootstrap_service: (.*)"
}

/// The start of the line that names the bootstrap server, up to the quote
/// that opens the address.
pub open spec fn bootstrap_key() -> &'static str {
    "bootstrap_service: \""
}

/// The quote that closes the address of the bootstrap server.
pub open spec fn closing_quote() -> &'static str {
    "\""
}

/// Why a configuration could not be changed.
#[derive(Clone, Copy, Debug, PartialEq, Eq, Structural)]
pub enum ChangeError {
    /// The pattern of a configuration line was refused.
    Pattern,
}

/// A change of a session's configuration: the proxy server, the bootstrap
/// server and the network id, each only if it is to change.
#[derive(Clone, Debug)]
pub struct ChangeCommand {
    maybe_proxy: Option<String>,
    maybe_bootstrap: Option<String>,
    maybe_uid: Option<String>,
}

/// A change command as a mathematical value.
pub struct ChangeCommandView {
    pub proxy: Option<Seq<char>>,
    pub bootstrap: Option<Seq<char>>,
    pub uid: Option<Seq<char>>,
}

/// The new contents of a session's files. `None` leaves a file as it is.
#[derive(Debug)]
pub struct ConfigChange {
    /// New content of the file that holds the network id.
    pub app_config: Option<String>,
    /// New content of the conductor's configuration file.
    pub conductor_config: Option<String>,
}

/// The new contents as a mathematical value.
pub struct ConfigChangeView {
    pub app_config: Option<Seq<char>>,
    pub conductor_config: Option<Seq<char>>,
}

/// The view of an optional text.
pub open spec fn text_view(text: Option<String>) -> Option<Seq<char>> {
    match text {
        Some(t) => Some(t@),
        None => None,
    }
}

impl View for ConfigChange {
    type V = ConfigChangeView;

    open spec fn view(&self) -> ConfigChangeView {
        ConfigChangeView {
            app_config: text_view(self.app_config),
            conductor_config: text_view(self.conductor_config),
        }
    }
}

/// The configuration text with the proxy line rewritten to name `proxy`.
pub open spec fn with_proxy(text: Seq<char>, proxy: Seq<char>) -> Option<Seq<char>> {
    regex_replace_all(proxy_pattern()@, text, proxy_key()@ + proxy)
}

/// The configuration text with the bootstrap line rewritten to name
/// `bootstrap`, in quotes.
pub open spec fn with_bootstrap(text: Seq<char>, bootstrap: Seq<char>) -> Option<Seq<char>> {
    regex_replace_all(
        bootstrap_pattern()@,
        text,
        bootstrap_key()@ + bootstrap + closing_quote()@,
    )
}

/// The conductor configuration after the command: first the proxy line is
/// rewritten, then the bootstrap line, each only if the command names a new
/// server. `None` where a pattern was refused.
pub open spec fn updated_conductor_config(command: ChangeCommandView, text: Seq<char>) -> Option<
    Seq<char>,
> {
    let after_proxy = match command.proxy {
        Some(proxy) => with_proxy(text, proxy),
        None => Some(text),
    };
    match (after_proxy, command.bootstrap) {
        (Some(t), Some(bootstrap)) => with_bootstrap(t, bootstrap),
        _ => after_proxy,
    }
}

/// What running the command on the conductor configuration `text` gives:
/// the network id goes to the application's file if the command has one, and
/// the conductor's file gets the updated text if the command names a proxy
/// or a bootstrap server.
pub open spec fn change_outcome(command: ChangeCommandView, text: Seq<char>) -> Result<
    ConfigChangeView,
    ChangeError,
> {
    if command.proxy is None && command.bootstrap is None {
        Ok(ConfigChangeView { app_config: command.uid, conductor_config: None })
    } else {
        match updated_conductor_config(command, text) {
            Some(updated) => Ok(
                ConfigChangeView { app_config: command.uid, conductor_config: Some(updated) },
            ),
            None => Err(ChangeError::Pattern),
        }
    }
}

/// The view of a result of `run`.
pub open spec fn change_result_view(r: Result<ConfigChange, ChangeError>) -> Result<
    ConfigChangeView,
    ChangeError,
> {
    match r {
        Ok(change) => Ok(change@),
        Err(e) => Err(e),
    }
}

impl ChangeCommand {
    /// The command as a mathematical value.
    pub closed spec fn view(&self) -> ChangeCommandView {
        ChangeCommandView {
            proxy: text_view(self.maybe_proxy),
            bootstrap: text_view(self.maybe_bootstrap),
            uid: text_view(self.maybe_uid),
        }
    }

    /// A command that sets what is given and leaves the rest as it is.
    pub fn new(
        maybe_proxy: Option<String>,
        maybe_bootstrap: Option<String>,
        maybe_uid: Option<String>,
    ) -> (command: ChangeCommand)
        ensures
            command@.proxy == text_view(maybe_proxy),
            command@.bootstrap == text_view(maybe_bootstrap),
            command@.uid == text_view(maybe_uid),
    {
        ChangeCommand { maybe_proxy, maybe_bootstrap, maybe_uid }
    }

    /// The new proxy server, if the command names one.
    pub fn maybe_proxy(&self) -> (r: &Option<String>)
        ensures
            text_view(*r) == self@.proxy,
    {
        &self.maybe_proxy
    }

    /// The new bootstrap server, if the command names one.
    pub fn maybe_bootstrap(&self) -> (r: &Option<String>)
        ensures
            text_view(*r) == self@.bootstrap,
    {
        &self.maybe_bootstrap
    }

    /// The new network id, if the command names one.
    pub fn maybe_uid(&self) -> (r: &Option<String>)
        ensures
            text_view(*r) == self@.uid,
    {
        &self.maybe_uid
    }

    /// Whether the command changes the conductor's configuration file, so
    /// that its present content is needed.
    pub fn changes_conductor_config(&self) -> (r: bool)
        ensures
            r == (self@.proxy is Some || self@.bootstrap is Some),
    {
        self.maybe_bootstrap.is_some() || self.maybe_proxy.is_some()
    }

    /// Replaces the proxy and bootstrap lines of the conductor
    /// configuration `text`.
    pub fn update_conductor_config(&self, text: &str) -> (r: Result<String, ChangeError>)
        ensures
            match r {
                Ok(updated) => updated_conductor_config(self@, text@) == Some(updated@),
                Err(e) => e == ChangeError::Pattern && updated_conductor_config(self@, text@)
                    is None,
            },
    {
        let mut updated = String::from_str(text);
        if let Some(proxy) = &self.maybe_proxy {
            let entry = String::from_str("proxy_url: ").concat(proxy.as_str());
            match replace_all("proxy_url: (.*)", updated.as_str(), entry.as_str()) {
                Ok(replaced) => {
                    updated = replaced;
                },
                Err(_) => {
                    return Err(ChangeError::Pattern);
                },
            }
        }
        if let Some(bootstrap) = &self.maybe_bootstrap {
            let entry = String::from_str("bootstrap_service: \"").concat(
                bootstrap.as_str(),
            ).concat("\"");
            match replace_all("bootstrap_service: (.*)", updated.as_str(), entry.as_str()) {
                Ok(replaced) => {
                    updated = replaced;
                },
                Err(_) => {
                    return Err(ChangeError::Pattern);
                },
            }
        }
        Ok(updated)
    }

    /// The new contents of the session's files, given the new content of
    /// the conductor's configuration file if it is to change: the network
    /// id, if the command has one, goes to the application's file.
    pub fn change_with(&self, conductor_config: Option<String>) -> (change: ConfigChange)
        ensures
            change@ == (ConfigChangeView {
                app_config: self@.uid,
                conductor_config: text_view(conductor_config),
            }),
    {
        ConfigChange { app_config: self.maybe_uid.clone(), conductor_config }
    }

    /// Computes the new contents of the session's files from the present
    /// content of the conductor's configuration file. That content is looked
    /// at only if `changes_conductor_config` holds.
    pub fn run(&self, conductor_config: &str) -> (r: Result<ConfigChange, ChangeError>)
        ensures
            change_result_view(r) == change_outcome(self@, conductor_config@),
    {
        if !self.changes_conductor_config() {
            return Ok(self.change_with(None));
        }
        match self.update_conductor_config(conductor_config) {
            Ok(updated) => Ok(self.change_with(Some(updated))),
            Err(e) => Err(e),
        }
    }
}

} // verus!
