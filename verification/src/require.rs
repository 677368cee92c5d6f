//! The module navigation bridge.
//!
//! Module resolution ("require") is a state machine driven entirely by
//! host-supplied callbacks: the host owns the module tree and the cursor
//! over it, the engine owns the protocol shape. Each step fills a request
//! record, hands it to the host, and classifies what came back: navigation
//! steps succeed or fail as not-found, ambiguous, or another error;
//! inspection steps read the cursor; the loader step must produce exactly
//! one of a function or an error. All classification is verified here; the
//! host's answers are whatever they are.

use vstd::prelude::*;

verus! {

/// The classified failure of a navigation step. Failure is terminal for the
/// resolution attempt that produced it.
pub enum GoNavigateError {
    /// The requested path does not exist.
    NotFound,
    /// More than one candidate matches the requested path.
    Ambiguous,
    /// Any other failure, with its message.
    Other(String),
}

/// The raw answer of the host to one navigation step: failure flags checked
/// in a fixed order, and an optional free-form error message.
pub struct GoNavigationResult {
    pub not_found: bool,
    pub ambiguous: bool,
    pub other: Option<String>,
}

impl GoNavigationResult {
    /// How a raw navigation answer classifies: `not_found` wins over
    /// `ambiguous`, which wins over a free-form message; with nothing set
    /// the step succeeded.
    pub open spec fn spec_to_result(self) -> Result<(), GoNavigateError> {
        if self.not_found {
            Err(GoNavigateError::NotFound)
        } else if self.ambiguous {
            Err(GoNavigateError::Ambiguous)
        } else if self.other is Some {
            Err(GoNavigateError::Other(self.other->0))
        } else {
            Ok(())
        }
    }

    /// An all-clear answer: no failure flag set, no message.
    pub fn new() -> (r: GoNavigationResult)
        ensures
            !r.not_found,
            !r.ambiguous,
            r.other is None,
            r.spec_to_result() is Ok,
    {
        GoNavigationResult { not_found: false, ambiguous: false, other: None }
    }

    /// Classifies the raw answer.
    pub fn to_result(self) -> (r: Result<(), GoNavigateError>)
        ensures
            r == self.spec_to_result(),
    {
        if self.not_found {
            Err(GoNavigateError::NotFound)
        } else if self.ambiguous {
            Err(GoNavigateError::Ambiguous)
        } else {
            match self.other {
                Some(msg) => Err(GoNavigateError::Other(msg)),
                None => Ok(()),
            }
        }
    }
}

/// The host's answer to a boolean inspection of the cursor (whether a module
/// or a configuration is present there).
pub struct HasModuleOrHasConfig {
    pub data: bool,
}

/// The host's answer to the cache-key query; a key must be set, an unset key
/// is a protocol violation reported to the caller.
pub struct CacheKey {
    pub data: Option<String>,
}

/// The host's answer to the configuration read: the contents, or an error.
pub struct Config {
    pub data: Option<Vec<u8>>,
    pub error: Option<String>,
}

/// The host's answer to the loader step: a ready-to-call engine function
/// implementing the module body, or an error. Exactly one side must be set.
pub struct Loader {
    pub function: Option<mlua::Function>,
    pub error: Option<String>,
}

/// The host side of the navigation protocol: one callback per state-machine
/// step, each taking the step's input and filling the step's answer record.
/// Navigation steps may move the host's cursor; inspection steps read it.
pub trait RequireHost {
    /// Gates whether resolution may proceed at all for the requesting chunk.
    fn is_require_allowed(&mut self, chunk_name: &str) -> bool;

    /// Points the cursor at the requiring module.
    fn reset(&mut self, chunk_name: &str) -> GoNavigationResult;

    /// Points the cursor at an aliased module given its exact path.
    fn jump_to_alias(&mut self, path: &str) -> GoNavigationResult;

    /// Moves the cursor to the parent of the current position.
    fn to_parent(&mut self) -> GoNavigationResult;

    /// Moves the cursor to the named child of the current position.
    fn to_child(&mut self, name: &str) -> GoNavigationResult;

    /// Whether the cursor points at a module.
    fn has_module(&mut self) -> HasModuleOrHasConfig;

    /// A cache key for the module under the cursor.
    fn cache_key(&mut self) -> CacheKey;

    /// Whether a configuration is present under the cursor.
    fn has_config(&mut self) -> HasModuleOrHasConfig;

    /// The contents of the configuration under the cursor.
    fn config(&mut self) -> Config;

    /// A loader function for the module under the cursor, built against the
    /// given engine context.
    fn loader(&mut self, lua: mlua::Lua) -> Loader;
}

/// The bundle of host callbacks as registered by the host.
pub struct GoRequire<H: RequireHost> {
    pub callbacks: H,
}

impl<H: RequireHost> GoRequire<H> {
    /// Wraps the registered callbacks as the navigation state machine the
    /// engine drives: every step of the machine is answered by exactly the
    /// callbacks registered here.
    pub fn to_impl(self) -> (r: GoRequireImpl<H>)
        ensures
            r.host_spec() == self.callbacks,
    {
        GoRequireImpl { host: self.callbacks }
    }
}

/// The navigation state machine: drives the host callbacks step by step and
/// classifies every answer.
pub struct GoRequireImpl<H: RequireHost> {
    host: H,
}

impl<H: RequireHost> GoRequireImpl<H> {
    /// The host callbacks this state machine wraps.
    pub closed spec fn host_spec(&self) -> H {
        self.host
    }
}

/// Classifies a cache-key answer: the key when one is set; an unset key is
/// the host's protocol violation, reported as an error.
pub fn cache_key_outcome(resp: CacheKey) -> (r: Result<String, String>)
    ensures
        resp.data matches Some(d) ==> (r matches Ok(k) && k == d),
        resp.data is None ==> (r matches Err(e) && e@ == "cache key was not set"@),
{
    match resp.data {
        Some(key) => Ok(key),
        None => {
            let e = "cache key was not set".to_string();
            proof {
                vstd::string::to_string_from_display_ensures_for_str("cache key was not set", e);
            }
            Err(e)
        },
    }
}

/// Classifies a configuration answer: an error message wins and any contents
/// set alongside it are released; otherwise the contents must be set, and
/// unset contents are the host's protocol violation, reported as an error.
pub fn config_outcome(resp: Config) -> (r: Result<Vec<u8>, String>)
    ensures
        resp.error matches Some(e) ==> (r matches Err(m) && m == e),
        resp.error is None ==> (resp.data matches Some(d) ==> (r matches Ok(out) && out == d)),
        resp.error is None && resp.data is None ==> (r matches Err(m) && m@
            == "config contents were not set"@),
{
    match resp.error {
        Some(e) => Err(e),
        None => {
            match resp.data {
                Some(d) => Ok(d),
                None => {
                    let e = "config contents were not set".to_string();
                    proof {
                        vstd::string::to_string_from_display_ensures_for_str(
                            "config contents were not set",
                            e,
                        );
                    }
                    Err(e)
                },
            }
        },
    }
}

/// The failure of the loader step: either the host reported an error, or it
/// broke the loader protocol, which asks that exactly one of the function
/// and the error be set.
#[derive(Debug)]
pub enum GoLoaderError {
    /// The host reported an error, with its message.
    Host(String),
    /// The host's answer set both the function and the error, or neither;
    /// a function set alongside an error is released.
    Violation,
}

/// Classifies a loader answer. Exactly one of the error and the function is
/// to be set: a function alone is the loaded module body, an error alone is
/// the host's failure, and anything else is a protocol violation.
pub fn loader_outcome(resp: Loader) -> (r: Result<mlua::Function, GoLoaderError>)
    ensures
        resp.error is Some && resp.function is None ==> (resp.error matches Some(e) && (
        r matches Err(GoLoaderError::Host(m)) && m == e)),
        resp.error is None ==> (resp.function matches Some(f) ==> (r matches Ok(out) && out
            == f)),
        resp.error is None && resp.function is None ==> r matches Err(GoLoaderError::Violation),
        resp.error is Some && resp.function is Some ==> r matches Err(GoLoaderError::Violation),
{
    match resp.error {
        Some(e) => {
            match resp.function {
                Some(f) => {
                    let _ = f;
                    Err(GoLoaderError::Violation)
                },
                None => Err(GoLoaderError::Host(e)),
            }
        },
        None => {
            match resp.function {
                Some(f) => Ok(f),
                None => Err(GoLoaderError::Violation),
            }
        },
    }
}

impl<H: RequireHost> GoRequireImpl<H> {
    /// Asks the host whether resolution may proceed for the requesting chunk.
    pub fn is_require_allowed(&mut self, chunk_name: &str) -> bool {
        self.host.is_require_allowed(chunk_name)
    }

    /// Points the cursor at the requiring module and classifies the answer.
    pub fn reset(&mut self, chunk_name: &str) -> Result<(), GoNavigateError> {
        let resp = self.host.reset(chunk_name);
        resp.to_result()
    }

    /// Points the cursor at an aliased module and classifies the answer.
    pub fn jump_to_alias(&mut self, path: &str) -> Result<(), GoNavigateError> {
        let resp = self.host.jump_to_alias(path);
        resp.to_result()
    }

    /// Moves the cursor to the parent and classifies the answer.
    pub fn to_parent(&mut self) -> Result<(), GoNavigateError> {
        let resp = self.host.to_parent();
        resp.to_result()
    }

    /// Moves the cursor to the named child and classifies the answer.
    pub fn to_child(&mut self, name: &str) -> Result<(), GoNavigateError> {
        let resp = self.host.to_child(name);
        resp.to_result()
    }

    /// Whether the cursor points at a module.
    pub fn has_module(&mut self) -> bool {
        let resp = self.host.has_module();
        resp.data
    }

    /// The cache key for the module under the cursor; an unset key is
    /// reported as an error rather than trusted.
    pub fn cache_key(&mut self) -> Result<String, String> {
        let resp = self.host.cache_key();
        cache_key_outcome(resp)
    }

    /// Whether a configuration is present under the cursor.
    pub fn has_config(&mut self) -> bool {
        let resp = self.host.has_config();
        resp.data
    }

    /// The configuration contents under the cursor, classified.
    pub fn config(&mut self) -> Result<Vec<u8>, String> {
        let resp = self.host.config();
        config_outcome(resp)
    }

    /// The loader for the module under the cursor, classified: the module
    /// body, the host's own failure, or a loader-protocol violation.
    pub fn loader(&mut self, lua: mlua::Lua) -> Result<mlua::Function, GoLoaderError> {
        let resp = self.host.loader(lua);
        loader_outcome(resp)
    }
}

} // verus!
