use shell_settings::config::Config;
use shell_settings::literal::{StringKind, StringLiteral};
use shell_settings::setting::{Setting, Shell};
use shell_settings::settings::Settings;

fn literal(text: &str) -> StringLiteral<'_> {
    StringLiteral {
        kind: StringKind::from_token_start("\"").unwrap(),
        raw: text,
        cooked: text.to_string(),
    }
}

fn shell_spec<'src>(command: &'src str, arguments: &[&'src str]) -> Shell<'src> {
    Shell {
        command: literal(command),
        arguments: arguments.iter().map(|argument| literal(argument)).collect(),
    }
}

#[test]
fn default_shell() {
    let settings = Settings::default();

    let config = Config::default();

    assert_eq!(settings.shell(&config), ("sh", vec!["-cu"]));
}

#[test]
fn default_shell_powershell() {
    let settings = Settings {
        windows_powershell: true,
        ..Default::default()
    };

    let windows_config = Config {
        windows: true,
        ..Default::default()
    };

    assert_eq!(
        settings.shell(&windows_config),
        ("powershell.exe", vec!["-NoLogo", "-Command"])
    );

    let config = Config::default();

    assert_eq!(settings.shell(&config), ("sh", vec!["-cu"]));
}

#[test]
fn overwrite_shell() {
    let settings = Settings::default();

    let config = Config {
        shell: Some("lol".to_string()),
        shell_args: Some(vec!["-nice".to_string()]),
        ..Default::default()
    };

    assert_eq!(settings.shell(&config), ("lol", vec!["-nice"]));
}

#[test]
fn overwrite_shell_powershell() {
    let settings = Settings {
        windows_powershell: true,
        ..Default::default()
    };

    let config = Config {
        shell: Some("lol".to_string()),
        shell_args: Some(vec!["-nice".to_string()]),
        ..Default::default()
    };

    assert_eq!(settings.shell(&config), ("lol", vec!["-nice"]));
}

#[test]
fn shell_cooked() {
    let settings = Settings {
        shell: Some(Shell {
            command: StringLiteral {
                kind: StringKind::from_token_start("\"").unwrap(),
                raw: "asdf.exe",
                cooked: "asdf.exe".to_string(),
            },
            arguments: vec![StringLiteral {
                kind: StringKind::from_token_start("\"").unwrap(),
                raw: "-nope",
                cooked: "-nope".to_string(),
            }],
        }),
        ..Default::default()
    };

    let config = Config::default();

    assert_eq!(settings.shell(&config), ("asdf.exe", vec!["-nope"]));
}

#[test]
fn shell_present_but_not_shell_args() {
    let settings = Settings {
        windows_powershell: true,
        ..Default::default()
    };

    let config = Config {
        shell: Some("lol".to_string()),
        ..Default::default()
    };

    assert_eq!(settings.shell(&config).0, "lol");
}

#[test]
fn shell_args_present_but_not_shell() {
    let settings = Settings {
        windows_powershell: true,
        ..Default::default()
    };

    let config = Config {
        shell_args: Some(vec!["-nice".to_string()]),
        ..Default::default()
    };

    assert_eq!(settings.shell(&config), ("sh", vec!["-nice"]));
}

#[test]
fn command_override_resets_arguments_to_default() {
    let settings = Settings {
        shell: Some(shell_spec("zsh", &["-x"])),
        ..Default::default()
    };

    let config = Config {
        shell: Some("lol".to_string()),
        ..Default::default()
    };

    assert_eq!(settings.shell(&config), ("lol", vec!["-cu"]));
}

#[test]
fn arguments_override_resets_command_to_default() {
    let settings = Settings {
        shell: Some(shell_spec("zsh", &["-x"])),
        ..Default::default()
    };

    let config = Config {
        shell_args: Some(vec!["-nice".to_string()]),
        ..Default::default()
    };

    assert_eq!(settings.shell(&config), ("sh", vec!["-nice"]));
}

#[test]
fn windows_shell_beats_powershell_flag_and_generic_shell() {
    let settings = Settings {
        shell: Some(shell_spec("zsh", &["-x"])),
        windows_powershell: true,
        windows_shell: Some(shell_spec("cmd.exe", &["/C"])),
        ..Default::default()
    };

    let config = Config {
        windows: true,
        ..Default::default()
    };

    assert_eq!(settings.shell(&config), ("cmd.exe", vec!["/C"]));
}

#[test]
fn windows_shell_ignored_off_windows() {
    let settings = Settings {
        windows_shell: Some(shell_spec("cmd.exe", &["/C"])),
        ..Default::default()
    };

    let config = Config::default();

    assert_eq!(settings.shell(&config), ("sh", vec!["-cu"]));
}

#[test]
fn generic_shell_applies_on_windows_without_specific_declaration() {
    let settings = Settings {
        shell: Some(shell_spec("zsh", &["-x"])),
        ..Default::default()
    };

    let config = Config {
        windows: true,
        ..Default::default()
    };

    assert_eq!(settings.shell(&config), ("zsh", vec!["-x"]));
}

#[test]
fn powershell_flag_beats_generic_shell_on_windows() {
    let settings = Settings {
        shell: Some(shell_spec("zsh", &["-x"])),
        windows_powershell: true,
        ..Default::default()
    };

    let config = Config {
        windows: true,
        ..Default::default()
    };

    assert_eq!(
        settings.shell(&config),
        ("powershell.exe", vec!["-NoLogo", "-Command"])
    );
}

#[test]
fn shell_command_carries_resolution() {
    let settings = Settings::default();

    let config = Config {
        shell: Some("lol".to_string()),
        shell_args: Some(vec!["-nice".to_string()]),
        ..Default::default()
    };

    let resolved = settings.shell_command(&config);

    assert_eq!(resolved.command, "lol");
    assert_eq!(resolved.arguments, vec!["-nice"]);
}

#[test]
fn from_setting_iter_empty_keeps_defaults() {
    let settings = Settings::from_setting_iter(Vec::new());

    assert!(!settings.allow_duplicate_recipes);
    assert_eq!(settings.dotenv_load, None);
    assert!(!settings.export);
    assert!(!settings.fallback);
    assert!(!settings.ignore_comments);
    assert!(!settings.positional_arguments);
    assert!(settings.shell.is_none());
    assert_eq!(settings.tempdir, None);
    assert!(!settings.windows_powershell);
    assert!(settings.windows_shell.is_none());
}

#[test]
fn from_setting_iter_sets_each_field() {
    let settings = Settings::from_setting_iter(vec![
        Setting::AllowDuplicateRecipes(true),
        Setting::DotenvLoad(false),
        Setting::Export(true),
        Setting::Fallback(true),
        Setting::IgnoreComments(true),
        Setting::PositionalArguments(true),
        Setting::Shell(shell_spec("zsh", &["-x"])),
        Setting::Tempdir("tmp".to_string()),
        Setting::WindowsPowerShell(true),
        Setting::WindowsShell(shell_spec("cmd.exe", &["/C"])),
    ]);

    assert!(settings.allow_duplicate_recipes);
    assert_eq!(settings.dotenv_load, Some(false));
    assert!(settings.export);
    assert!(settings.fallback);
    assert!(settings.ignore_comments);
    assert!(settings.positional_arguments);
    assert_eq!(settings.shell.as_ref().unwrap().command.cooked, "zsh");
    assert_eq!(settings.tempdir, Some("tmp".to_string()));
    assert!(settings.windows_powershell);
    assert_eq!(
        settings.windows_shell.as_ref().unwrap().command.cooked,
        "cmd.exe"
    );
}

#[test]
fn from_setting_iter_last_directive_wins() {
    let settings = Settings::from_setting_iter(vec![
        Setting::Shell(shell_spec("zsh", &["-x"])),
        Setting::Export(true),
        Setting::Tempdir("first".to_string()),
        Setting::Shell(shell_spec("fish", &["-c"])),
        Setting::Export(false),
        Setting::Tempdir("second".to_string()),
    ]);

    let shell = settings.shell.as_ref().unwrap();
    assert_eq!(shell.command.cooked, "fish");
    assert_eq!(shell.arguments.len(), 1);
    assert_eq!(shell.arguments[0].cooked, "-c");
    assert!(!settings.export);
    assert_eq!(settings.tempdir, Some("second".to_string()));
}

#[test]
fn string_kind_from_token_start() {
    assert_eq!(StringKind::from_token_start("`"), Some(StringKind::Backtick));
    assert_eq!(StringKind::from_token_start("\""), Some(StringKind::Cooked));
    assert_eq!(StringKind::from_token_start("'"), Some(StringKind::Raw));
    assert_eq!(StringKind::from_token_start("x"), None);
    assert_eq!(StringKind::from_token_start(""), None);
    assert_eq!(StringKind::from_token_start("\"\""), None);
}
