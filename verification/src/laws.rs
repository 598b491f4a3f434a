//! The guarantees of shell resolution, stated over [`resolve`] — the same
//! specification that the executable resolver is proved against.

use vstd::prelude::*;
use crate::config::Config;
use crate::settings::{
    cooked_shell, default_shell_arguments, default_shell_command, resolve, Settings,
};

verus! {

/// Resolution is a pure function: identical inputs always yield an identical
/// `(command, arguments)` pair.
pub proof fn lemma_resolution_deterministic<'src>(
    s1: Settings<'src>,
    c1: Config,
    s2: Settings<'src>,
    c2: Config,
)
    requires
        s1 == s2,
        c1 == c2,
    ensures
        resolve(s1, c1) == resolve(s2, c2),
{
}

/// If both override fields are set, the output is exactly those two values,
/// regardless of any snapshot content.
pub proof fn lemma_total_override<'src>(s: Settings<'src>, t: Settings<'src>, c: Config)
    requires
        c.shell is Some,
        c.shell_args is Some,
    ensures
        resolve(s, c).0 == (c.shell->0)@,
        resolve(s, c).1 == (c.shell_args->0).deep_view(),
        resolve(s, c) == resolve(t, c),
{
}

/// If only the command override is set, the output pairs that command with
/// the built-in default arguments — never the snapshot's shell arguments,
/// regardless of any snapshot content.
pub proof fn lemma_command_override_resets_arguments<'src>(
    s: Settings<'src>,
    t: Settings<'src>,
    c: Config,
)
    requires
        c.shell is Some,
        c.shell_args is None,
    ensures
        resolve(s, c).0 == (c.shell->0)@,
        resolve(s, c).1 == default_shell_arguments(),
        resolve(s, c) == resolve(t, c),
{
}

/// If only the arguments override is set, the output pairs the built-in
/// default command with those arguments — never the snapshot's shell
/// command, regardless of any snapshot content.
pub proof fn lemma_arguments_override_resets_command<'src>(
    s: Settings<'src>,
    t: Settings<'src>,
    c: Config,
)
    requires
        c.shell is None,
        c.shell_args is Some,
    ensures
        resolve(s, c).0 == default_shell_command(),
        resolve(s, c).1 == (c.shell_args->0).deep_view(),
        resolve(s, c) == resolve(t, c),
{
}

/// With no overrides, on a non-Windows platform, a source-declared generic
/// shell takes precedence over the built-in default: the output is its
/// cooked command and cooked arguments.
pub proof fn lemma_source_shell_wins_off_windows<'src>(s: Settings<'src>, c: Config)
    requires
        c.shell is None,
        c.shell_args is None,
        !c.windows,
        s.shell is Some,
    ensures
        resolve(s, c) == cooked_shell(s.shell->0),
{
}

/// With no overrides, on a Windows platform, a source-declared
/// Windows-specific shell takes precedence over both the PowerShell flag and
/// a generic shell: the output is its cooked command and cooked arguments,
/// whatever those other settings hold.
pub proof fn lemma_windows_shell_wins_on_windows<'src>(s: Settings<'src>, c: Config)
    requires
        c.shell is None,
        c.shell_args is None,
        c.windows,
        s.windows_shell is Some,
    ensures
        resolve(s, c) == cooked_shell(s.windows_shell->0),
{
}

} // verus!
