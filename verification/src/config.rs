//! The invocation context that shell resolution consults: the optional
//! command-line overrides and the host-platform flag.

use vstd::prelude::*;

verus! {

/// Runtime overrides supplied on the command line, plus the platform flag.
///
/// Either override may be set independently of the other. Note that setting
/// only one of them does not mix with source-declared shell settings: a bare
/// command override is paired with the built-in default arguments, and a bare
/// arguments override with the built-in default command (see
/// [`crate::settings::resolve`]).
#[derive(Debug)]
pub struct Config {
    /// The shell command to use instead of any source-declared one.
    pub shell: Option<String>,
    /// The shell arguments to use instead of any source-declared ones.
    pub shell_args: Option<Vec<String>>,
    /// Whether the execution host is Windows.
    pub windows: bool,
}

impl Default for Config {
    /// A configuration with no overrides, for a non-Windows host.
    fn default() -> (r: Self)
        ensures
            r.shell is None,
            r.shell_args is None,
            !r.windows,
    {
        Config { shell: None, shell_args: None, windows: false }
    }
}

} // verus!
