//! The consolidated settings snapshot and the shell-resolution procedure.
//!
//! [`Settings::from_setting_iter`] folds the parsed directives, in source
//! order, into one snapshot: per field, the last directive of that kind wins.
//! [`Settings::shell`] then resolves which shell to invoke commands with,
//! giving runtime overrides precedence over source-declared shells, and the
//! most specific applicable declaration precedence over less specific ones.

use vstd::prelude::*;
use crate::config::Config;
use crate::literal::StringLiteral;
use crate::setting::{Setting, Shell};

verus! {

/// The consolidated result of folding all directives of a source unit.
///
/// Built once by [`Settings::from_setting_iter`] and read-only afterward.
/// Each field reflects the last directive of its kind in source order;
/// fields no directive mentioned keep their defaults (`false` / `None`).
#[derive(Debug)]
pub struct Settings<'src> {
    pub allow_duplicate_recipes: bool,
    pub dotenv_load: Option<bool>,
    pub export: bool,
    pub fallback: bool,
    pub ignore_comments: bool,
    pub positional_arguments: bool,
    pub shell: Option<Shell<'src>>,
    pub tempdir: Option<String>,
    pub windows_powershell: bool,
    pub windows_shell: Option<Shell<'src>>,
}

impl<'src> Settings<'src> {
    /// The snapshot that no directive has touched yet.
    pub open spec fn initial() -> Settings<'src> {
        Settings {
            allow_duplicate_recipes: false,
            dotenv_load: None,
            export: false,
            fallback: false,
            ignore_comments: false,
            positional_arguments: false,
            shell: None,
            tempdir: None,
            windows_powershell: false,
            windows_shell: None,
        }
    }
}

impl<'src> Default for Settings<'src> {
    fn default() -> (r: Self)
        ensures
            r == Settings::<'src>::initial(),
    {
        Settings {
            allow_duplicate_recipes: false,
            dotenv_load: None,
            export: false,
            fallback: false,
            ignore_comments: false,
            positional_arguments: false,
            shell: None,
            tempdir: None,
            windows_powershell: false,
            windows_shell: None,
        }
    }
}

/// The snapshot after one more directive: the directive's field is replaced
/// outright, every other field is kept.
pub open spec fn apply<'src>(s: Settings<'src>, directive: Setting<'src>) -> Settings<'src> {
    match directive {
        Setting::AllowDuplicateRecipes(b) => Settings { allow_duplicate_recipes: b, ..s },
        Setting::DotenvLoad(b) => Settings { dotenv_load: Some(b), ..s },
        Setting::Export(b) => Settings { export: b, ..s },
        Setting::Fallback(b) => Settings { fallback: b, ..s },
        Setting::IgnoreComments(b) => Settings { ignore_comments: b, ..s },
        Setting::PositionalArguments(b) => Settings { positional_arguments: b, ..s },
        Setting::Shell(shell) => Settings { shell: Some(shell), ..s },
        Setting::Tempdir(dir) => Settings { tempdir: Some(dir), ..s },
        Setting::WindowsPowerShell(b) => Settings { windows_powershell: b, ..s },
        Setting::WindowsShell(shell) => Settings { windows_shell: Some(shell), ..s },
    }
}

/// The snapshot reached from `s` by applying `directives` in order.
pub open spec fn applied<'src>(s: Settings<'src>, directives: Seq<Setting<'src>>) -> Settings<'src>
    decreases directives.len(),
{
    if directives.len() == 0 {
        s
    } else {
        applied(apply(s, directives[0]), directives.drop_first())
    }
}

impl<'src> Settings<'src> {
    /// Folds a sequence of directives, in source order, into one snapshot.
    ///
    /// Per field, each directive fully replaces the previous value, so the
    /// last directive of a kind wins; untouched fields keep their defaults.
    /// This cannot fail: malformed directives are rejected upstream by the
    /// parser and never reach the fold.
    pub fn from_setting_iter(settings: Vec<Setting<'src>>) -> (r: Self)
        ensures
            r == applied(Settings::<'src>::initial(), settings@),
    {
        let ghost all = settings@;
        let mut rest = settings;
        let mut snapshot = Settings::default();

        while rest.len() > 0
            invariant
                applied(snapshot, rest@) == applied(Settings::<'src>::initial(), all),
            decreases rest@.len(),
        {
            let ghost rest_before = rest@;
            let ghost snapshot_before = snapshot;
            let directive = rest.remove(0);
            proof {
                assert(rest@ =~= rest_before.drop_first());
            }
            match directive {
                Setting::AllowDuplicateRecipes(allow_duplicate_recipes) => {
                    snapshot.allow_duplicate_recipes = allow_duplicate_recipes;
                }
                Setting::DotenvLoad(dotenv_load) => {
                    snapshot.dotenv_load = Some(dotenv_load);
                }
                Setting::Export(export) => {
                    snapshot.export = export;
                }
                Setting::Fallback(fallback) => {
                    snapshot.fallback = fallback;
                }
                Setting::IgnoreComments(ignore_comments) => {
                    snapshot.ignore_comments = ignore_comments;
                }
                Setting::PositionalArguments(positional_arguments) => {
                    snapshot.positional_arguments = positional_arguments;
                }
                Setting::Shell(shell) => {
                    snapshot.shell = Some(shell);
                }
                Setting::WindowsPowerShell(windows_powershell) => {
                    snapshot.windows_powershell = windows_powershell;
                }
                Setting::WindowsShell(windows_shell) => {
                    snapshot.windows_shell = Some(windows_shell);
                }
                Setting::Tempdir(tempdir) => {
                    snapshot.tempdir = Some(tempdir);
                }
            }
            proof {
                assert(snapshot == apply(snapshot_before, rest_before[0]));
            }
        }

        snapshot
    }
}

/// The generic shell declared by the last `shell` directive, if any.
pub open spec fn last_shell_directive<'src>(directives: Seq<Setting<'src>>) -> Option<Shell<'src>>
    decreases directives.len(),
{
    if directives.len() == 0 {
        None
    } else if directives.last() is Shell {
        Some(directives.last()->Shell_0)
    } else {
        last_shell_directive(directives.drop_last())
    }
}

/// The Windows shell declared by the last `windows-shell` directive, if any.
pub open spec fn last_windows_shell_directive<'src>(
    directives: Seq<Setting<'src>>,
) -> Option<Shell<'src>>
    decreases directives.len(),
{
    if directives.len() == 0 {
        None
    } else if directives.last() is WindowsShell {
        Some(directives.last()->WindowsShell_0)
    } else {
        last_windows_shell_directive(directives.drop_last())
    }
}

/// The value of the last `windows-powershell` directive, if any.
pub open spec fn last_windows_powershell_directive<'src>(
    directives: Seq<Setting<'src>>,
) -> Option<bool>
    decreases directives.len(),
{
    if directives.len() == 0 {
        None
    } else if directives.last() is WindowsPowerShell {
        Some(directives.last()->WindowsPowerShell_0)
    } else {
        last_windows_powershell_directive(directives.drop_last())
    }
}

/// Folding directives is compositional: applying one more directive after a
/// sequence is the same as applying it to the folded snapshot.
pub proof fn lemma_applied_push<'src>(
    s: Settings<'src>,
    directives: Seq<Setting<'src>>,
    directive: Setting<'src>,
)
    ensures
        applied(s, directives.push(directive)) == apply(applied(s, directives), directive),
    decreases directives.len(),
{
    let p = directives.push(directive);
    assert(applied(s, p) == applied(apply(s, p[0]), p.drop_first()));
    if directives.len() == 0 {
        assert(p[0] == directive);
        assert(p.drop_first() =~= Seq::<Setting<'src>>::empty());
        assert(applied(apply(s, directive), p.drop_first()) == apply(s, directive));
    } else {
        assert(p[0] == directives[0]);
        assert(p.drop_first() =~= directives.drop_first().push(directive));
        lemma_applied_push(apply(s, directives[0]), directives.drop_first(), directive);
        assert(applied(s, directives) == applied(apply(s, directives[0]), directives.drop_first()));
    }
}

/// Directives are not commutative: for the shell-relevant fields, the folded
/// snapshot holds the value of the *last* directive of each kind, and keeps
/// the starting value where no directive of that kind occurs.
pub proof fn lemma_last_directive_wins<'src>(s: Settings<'src>, directives: Seq<Setting<'src>>)
    ensures
        applied(s, directives).shell == (match last_shell_directive(directives) {
            Some(shell) => Some(shell),
            None => s.shell,
        }),
        applied(s, directives).windows_shell == (match last_windows_shell_directive(directives) {
            Some(shell) => Some(shell),
            None => s.windows_shell,
        }),
        applied(s, directives).windows_powershell == (match last_windows_powershell_directive(
            directives,
        ) {
            Some(b) => b,
            None => s.windows_powershell,
        }),
    decreases directives.len(),
{
    if directives.len() > 0 {
        let prefix = directives.drop_last();
        assert(directives =~= prefix.push(directives.last()));
        lemma_applied_push(s, prefix, directives.last());
        lemma_last_directive_wins(s, prefix);
    }
}

/// The built-in default shell command, used when nothing more specific wins.
pub open spec fn default_shell_command() -> Seq<char> {
    "sh"@
}

/// The built-in default shell arguments.
pub open spec fn default_shell_arguments() -> Seq<Seq<char>> {
    seq!["-cu"@]
}

/// The fixed PowerShell command selected by the `windows_powershell` flag.
pub open spec fn powershell_command() -> Seq<char> {
    "powershell.exe"@
}

/// The fixed PowerShell argument list.
pub open spec fn powershell_arguments() -> Seq<Seq<char>> {
    seq!["-NoLogo"@, "-Command"@]
}

/// The cooked values of a sequence of string literals, in order.
pub open spec fn cooked_values<'src>(literals: Seq<StringLiteral<'src>>) -> Seq<Seq<char>> {
    Seq::new(literals.len(), |i: int| literals[i].cooked@)
}

/// The cooked command and cooked arguments of a source-declared shell.
pub open spec fn cooked_shell<'src>(shell: Shell<'src>) -> (Seq<char>, Seq<Seq<char>>) {
    (shell.command.cooked@, cooked_values(shell.arguments@))
}

/// The shell invocation that a snapshot and an invocation context resolve to.
///
/// Precedence, first match wins:
/// 1. both runtime overrides set: exactly those two values;
/// 2. only the command override set: that command with the built-in default
///    arguments (source-declared arguments are deliberately not inherited);
/// 3. only the arguments override set: the built-in default command with
///    those arguments (symmetrically, no source-declared command is
///    inherited);
/// 4. no overrides: on Windows a source-declared Windows shell wins, then
///    the PowerShell flag, then a generic source-declared shell, and the
///    built-in defaults are the terminal fallback on every platform.
///
/// Resolution is total: every branch yields a concrete pair.
pub open spec fn resolve<'src>(s: Settings<'src>, c: Config) -> (Seq<char>, Seq<Seq<char>>) {
    match (c.shell, c.shell_args) {
        (Some(shell), Some(shell_args)) => (shell@, shell_args.deep_view()),
        (Some(shell), None) => (shell@, default_shell_arguments()),
        (None, Some(shell_args)) => (default_shell_command(), shell_args.deep_view()),
        (None, None) => {
            if c.windows && s.windows_shell is Some {
                cooked_shell(s.windows_shell->0)
            } else if c.windows && s.windows_powershell {
                (powershell_command(), powershell_arguments())
            } else if s.shell is Some {
                cooked_shell(s.shell->0)
            } else {
                (default_shell_command(), default_shell_arguments())
            }
        },
    }
}

/// Borrows each string of `strings` in order.
fn str_references<'a>(strings: &'a Vec<String>) -> (r: Vec<&'a str>)
    ensures
        r.deep_view() == strings.deep_view(),
{
    let mut r: Vec<&'a str> = Vec::new();
    let mut i: usize = 0;
    while i < strings.len()
        invariant
            i <= strings@.len(),
            r.deep_view() =~= strings.deep_view().take(i as int),
        decreases strings@.len() - i,
    {
        let ghost r_before = r.deep_view();
        let s = &strings[i];
        r.push(s.as_str());
        proof {
            assert(r.deep_view() =~= r_before.push(strings@[i as int]@));
            assert(strings.deep_view().take(i + 1) =~= r_before.push(strings@[i as int]@));
        }
        i = i + 1;
    }
    proof {
        assert(strings.deep_view().take(strings@.len() as int) =~= strings.deep_view());
    }
    r
}

/// Borrows the cooked value of each literal of `literals` in order.
fn cooked_references<'a, 'src>(literals: &'a Vec<StringLiteral<'src>>) -> (r: Vec<&'a str>)
    ensures
        r.deep_view() == cooked_values(literals@),
{
    let mut r: Vec<&'a str> = Vec::new();
    let mut i: usize = 0;
    while i < literals.len()
        invariant
            i <= literals@.len(),
            r.deep_view() =~= cooked_values(literals@).take(i as int),
        decreases literals@.len() - i,
    {
        let ghost r_before = r.deep_view();
        let literal = &literals[i];
        r.push(literal.cooked.as_str());
        proof {
            assert(r.deep_view() =~= r_before.push(literals@[i as int].cooked@));
            assert(cooked_values(literals@).take(i + 1) =~= r_before.push(
                literals@[i as int].cooked@,
            ));
        }
        i = i + 1;
    }
    proof {
        assert(cooked_values(literals@).take(literals@.len() as int) =~= cooked_values(
            literals@,
        ));
    }
    r
}

/// The built-in default argument list, freshly allocated.
fn default_argument_vec<'a>() -> (r: Vec<&'a str>)
    ensures
        r.deep_view() == default_shell_arguments(),
{
    let mut r: Vec<&'a str> = Vec::new();
    r.push("-cu");
    proof {
        assert(r.deep_view() =~= default_shell_arguments());
    }
    r
}

/// The fixed PowerShell argument list, freshly allocated.
fn powershell_argument_vec<'a>() -> (r: Vec<&'a str>)
    ensures
        r.deep_view() == powershell_arguments(),
{
    let mut r: Vec<&'a str> = Vec::new();
    r.push("-NoLogo");
    r.push("-Command");
    proof {
        assert(r.deep_view() =~= powershell_arguments());
    }
    r
}

/// The resolved shell invocation: the command and, in order, the arguments
/// to pass before each command line. Both borrow from whichever source won
/// precedence — an override, the snapshot, or a built-in constant.
#[derive(Debug)]
pub struct ResolvedShell<'a> {
    pub command: &'a str,
    pub arguments: Vec<&'a str>,
}

impl<'src> Settings<'src> {
    /// Resolves the shell invocation for this snapshot under `config`.
    ///
    /// Total: every input yields a concrete pair, so command execution is
    /// never blocked by absent or ambiguous shell configuration.
    pub fn shell<'a>(&'a self, config: &'a Config) -> (r: (&'a str, Vec<&'a str>))
        ensures
            r.0@ == resolve(*self, *config).0,
            r.1.deep_view() == resolve(*self, *config).1,
    {
        match (&config.shell, &config.shell_args) {
            (Some(shell), Some(shell_args)) => (shell.as_str(), str_references(shell_args)),
            (Some(shell), None) => (shell.as_str(), default_argument_vec()),
            (None, Some(shell_args)) => ("sh", str_references(shell_args)),
            (None, None) => {
                if config.windows {
                    if let Some(shell) = &self.windows_shell {
                        return (shell.command.cooked.as_str(), cooked_references(&shell.arguments));
                    }
                    if self.windows_powershell {
                        return ("powershell.exe", powershell_argument_vec());
                    }
                }
                if let Some(shell) = &self.shell {
                    (shell.command.cooked.as_str(), cooked_references(&shell.arguments))
                } else {
                    ("sh", default_argument_vec())
                }
            },
        }
    }

    /// Resolves the shell invocation for this snapshot under `config` as one
    /// value, ready for the process executor to turn into a spawnable
    /// command with the arguments appended in order after the command.
    pub fn shell_command<'a>(&'a self, config: &'a Config) -> (r: ResolvedShell<'a>)
        ensures
            r.command@ == resolve(*self, *config).0,
            r.arguments.deep_view() == resolve(*self, *config).1,
    {
        let (command, arguments) = self.shell(config);

        ResolvedShell { command, arguments }
    }
}

} // verus!
