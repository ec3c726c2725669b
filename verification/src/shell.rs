//! Shell integration text: the wrapper function and tab-completion
//! script for each supported shell, the on-disk location of the
//! integration file, and the check whether it is already installed. The
//! script text is fixed; building it is pure concatenation.

use vstd::prelude::*;

use crate::trusted::{os_config_dir, os_home_dir, path_exists};

verus! {

/// A supported shell.
#[derive(Clone, Copy, PartialEq, Eq, Structural, Debug, Hash)]
pub enum Shell {
    Fish,
    Zsh,
    Bash,
    NuShell,
    PowerShell,
}

pub const FISH_PICKER_FUNCTION: &'static str = r#"function try-rs-picker
    set -l picker_args --inline-picker

    if set -q TRY_RS_PICKER_HEIGHT
        if string match -qr '^[0-9]+$' -- "$TRY_RS_PICKER_HEIGHT"
            set picker_args $picker_args --inline-height $TRY_RS_PICKER_HEIGHT
        end
    end

    if status --is-interactive
        printf "\n"
    end

    set command (command try-rs $picker_args | string collect)
    set command_status $status

    if test $command_status -eq 0; and test -n "$command"
        eval $command
    end

    if status --is-interactive
        printf "\033[A"
        commandline -f repaint
    end
end
"#;

pub const FISH_WRAPPER: &'static str = r#"function try-rs
    # Pass flags/options directly to stdout without capturing
    for arg in $argv
        if string match -q -- '-*' $arg
            command try-rs $argv
            return
        end
    end

    # Captures the output of the binary (stdout) which is the "cd" command
    # The TUI is rendered on stderr, so it doesn't interfere.
    set command (command try-rs $argv | string collect)
    set command_status $status

    if test $command_status -eq 0; and test -n "$command"
        eval $command
    end
end

"#;

pub const ZSH_WRAPPER: &'static str = r#"try-rs() {
    # Pass flags/options directly to stdout without capturing
    for arg in "$@"; do
        case "$arg" in
            -*) command try-rs "$@"; return ;;
        esac
    done

    # Captures the output of the binary (stdout) which is the "cd" command
    # The TUI is rendered on stderr, so it doesn't interfere.
    local output
    output=$(command try-rs "$@")

    if [ -n "$output" ]; then
        eval "$output"
    fi
}

"#;

pub const BASH_WRAPPER: &'static str = r#"try-rs() {
    # Pass flags/options directly to stdout without capturing
    for arg in "$@"; do
        case "$arg" in
            -*) command try-rs "$@"; return ;;
        esac
    done

    # Captures the output of the binary (stdout) which is the "cd" command
    # The TUI is rendered on stderr, so it doesn't interfere.
    local output
    output=$(command try-rs "$@")

    if [ -n "$output" ]; then
        eval "$output"
    fi
}

"#;

pub const POWERSHELL_WRAPPER: &'static str = r#"# try-rs integration for PowerShell
function try-rs {
    # Pass flags/options directly to stdout without capturing
    foreach ($a in $args) {
        if ($a -like '-*') {
            & try-rs.exe @args
            return
        }
    }

    # Captures the output of the binary (stdout) which is the "cd" or editor command
    # The TUI is rendered on stderr, so it doesn't interfere.
    $command = (try-rs.exe @args)

    if ($command) {
        Invoke-Expression $command
    }
}

"#;

pub const NUSHELL_WRAPPER: &'static str = r#"def --wrapped try-rs [...args] {
    # Pass flags/options directly to stdout without capturing
    for arg in $args {
        if ($arg | str starts-with '-') {
            ^try-rs.exe ...$args
            return
        }
    }

    # Capture output. Stderr (TUI) goes directly to terminal.
    let output = (try-rs.exe ...$args)

    if ($output | is-not-empty) {

        # Grabs the path out of stdout returned by the binary and removes the single quotes
        let $path = ($output | split row ' ').1 | str replace --all "'" ''
        cd $path
    }
}

"#;

pub const FISH_COMPLETIONS: &'static str = r#"# try-rs tab completion for directory names
function __try_rs_get_tries_path
    # Check TRY_PATH environment variable first
    if set -q TRY_PATH
        echo $TRY_PATH
        return
    end
    
    # Try to read from config file
    set -l config_paths "$HOME/.config/try-rs/config.toml" "$HOME/.try-rs/config.toml"
    for config_path in $config_paths
        if test -f $config_path
            set -l tries_path (command grep -E '^\s*tries_path\s*=' $config_path 2>/dev/null | command sed 's/.*=\s*"\?\([^"]*\)"\?.*/\1/' | command sed "s|~|$HOME|" | string trim)
            if test -n "$tries_path"
                echo $tries_path
                return
            end
        end
    end
    
    # Default path
    echo "$HOME/work/tries"
end

function __try_rs_complete_directories
    set -l tries_path (__try_rs_get_tries_path)
    
    if test -d $tries_path
        # List directories in tries_path, filtering by current token
        command ls -1 $tries_path 2>/dev/null | while read -l dir
            if test -d "$tries_path/$dir"
                echo $dir
            end
        end
    end
end

complete -f -c try-rs -n '__fish_use_subcommand' -a '(__try_rs_complete_directories)' -d 'Try directory'
"#;

pub const ZSH_COMPLETIONS: &'static str = r#"# try-rs tab completion for directory names
_try_rs_get_tries_path() {
    # Check TRY_PATH environment variable first
    if [[ -n "${TRY_PATH}" ]]; then
        echo "${TRY_PATH}"
        return
    fi
    
    # Try to read from config file
    local config_paths=("$HOME/.config/try-rs/config.toml" "$HOME/.try-rs/config.toml")
    for config_path in "${config_paths[@]}"; do
        if [[ -f "$config_path" ]]; then
            local tries_path=$(grep -E '^\s*tries_path\s*=' "$config_path" 2>/dev/null | sed 's/.*=\s*"\?\([^"]*\)"\?.*/\1/' | sed "s|~|$HOME|" | tr -d '[:space:]')
            if [[ -n "$tries_path" ]]; then
                echo "$tries_path"
                return
            fi
        fi
    done
    
    # Default path
    echo "$HOME/work/tries"
}

_try_rs_complete() {
    local cur="${COMP_WORDS[COMP_CWORD]}"
    local tries_path=$(_try_rs_get_tries_path)
    local -a dirs=()
    
    if [[ -d "$tries_path" ]]; then
        # Get list of directories
        while IFS= read -r dir; do
            dirs+=("$dir")
        done < <(ls -1 "$tries_path" 2>/dev/null | while read -r dir; do
            if [[ -d "$tries_path/$dir" ]]; then
                echo "$dir"
            fi
        done)
    fi
    
    COMPREPLY=($(compgen -W "${dirs[*]}" -- "$cur"))
}

complete -o default -F _try_rs_complete try-rs
"#;

pub const BASH_COMPLETIONS: &'static str = r#"# try-rs tab completion for directory names
_try_rs_get_tries_path() {
    # Check TRY_PATH environment variable first
    if [[ -n "${TRY_PATH}" ]]; then
        echo "${TRY_PATH}"
        return
    fi
    
    # Try to read from config file
    local config_paths=("$HOME/.config/try-rs/config.toml" "$HOME/.try-rs/config.toml")
    for config_path in "${config_paths[@]}"; do
        if [[ -f "$config_path" ]]; then
            local tries_path=$(grep -E '^[[:space:]]*tries_path[[:space:]]*=' "$config_path" 2>/dev/null | sed 's/.*=[[:space:]]*"\?\([^"]*\)"\?.*/\1/' | sed "s|~|$HOME|" | tr -d '[:space:]')
            if [[ -n "$tries_path" ]]; then
                echo "$tries_path"
                return
            fi
        fi
    done
    
    # Default path
    echo "$HOME/work/tries"
}

_try_rs_complete() {
    local cur="${COMP_WORDS[COMP_CWORD]}"
    local tries_path=$(_try_rs_get_tries_path)
    local dirs=""
    
    if [[ -d "$tries_path" ]]; then
        # Get list of directories
        while IFS= read -r dir; do
            if [[ -d "$tries_path/$dir" ]]; then
                dirs="$dirs $dir"
            fi
        done < <(ls -1 "$tries_path" 2>/dev/null)
    fi
    
    COMPREPLY=($(compgen -W "$dirs" -- "$cur"))
}

complete -o default -F _try_rs_complete try-rs
"#;

pub const POWERSHELL_COMPLETIONS: &'static str = r#"# try-rs tab completion for directory names
Register-ArgumentCompleter -CommandName try-rs -ScriptBlock {
    param($wordToComplete, $commandAst, $cursorPosition)
    
    # Get tries path from environment variable or default
    $triesPath = $env:TRY_PATH
    if (-not $triesPath) {
        # Try to read from config file
        $configPaths = @(
            "$env:USERPROFILE/.config/try-rs/config.toml",
            "$env:USERPROFILE/.try-rs/config.toml"
        )
        foreach ($configPath in $configPaths) {
            if (Test-Path $configPath) {
                $content = Get-Content $configPath -Raw
                if ($content -match 'tries_path\s*=\s*["'']?([^"'']+)["'']?') {
                    $triesPath = $matches[1].Replace('~', $env:USERPROFILE).Trim()
                    break
                }
            }
        }
    }
    
    # Default path
    if (-not $triesPath) {
        $triesPath = "$env:USERPROFILE/work/tries"
    }
    
    # Get directories
    if (Test-Path $triesPath) {
        Get-ChildItem -Path $triesPath -Directory | 
            Where-Object { $_.Name -like "$wordToComplete*" } |
            ForEach-Object { 
                [System.Management.Automation.CompletionResult]::new(
                    $_.Name, 
                    $_.Name, 
                    'ParameterValue', 
                    $_.Name
                )
            }
    }
}
"#;

pub const NUSHELL_COMPLETIONS: &'static str = r#"# try-rs tab completion for directory names
# Add this to your Nushell config or env file

export def __try_rs_get_tries_path [] {
    # Check TRY_PATH environment variable first
    if ($env.TRY_PATH? | is-not-empty) {
        return $env.TRY_PATH
    }
    
    # Try to read from config file
    let config_paths = [
        ($env.HOME | path join ".config" "try-rs" "config.toml"),
        ($env.HOME | path join ".try-rs" "config.toml")
    ]
    
    for config_path in $config_paths {
        if ($config_path | path exists) {
            let content = (open $config_path | str trim)
            if ($content =~ 'tries_path\\s*=\\s*"?([^"]+)"?') {
                let path = ($content | parse -r 'tries_path\\s*=\\s*"?([^"]+)"?' | get capture0.0? | default "")
                if ($path | is-not-empty) {
                    return ($path | str replace "~" $env.HOME)
                }
            }
        }
    }
    
    # Default path
    ($env.HOME | path join "work" "tries")
}

export def __try_rs_complete [context: string] {
    let tries_path = (__try_rs_get_tries_path)
    
    if ($tries_path | path exists) {
        ls $tries_path | where type == "dir" | get name | path basename
    } else {
        []
    }
}

# Add completion to the try-rs command
export extern try-rs [
    name_or_url?: string@__try_rs_complete
    destination?: string
    --setup: string
    --setup-stdout: string
    --completions: string
    --shallow-clone(-s)
    --worktree(-w): string
]
"#;

pub const NUSHELL_STANDALONE_COMPLETIONS: &'static str = r#"# try-rs tab completion for directory names
# Add this to your Nushell config

def __try_rs_get_tries_path [] {
    if ($env.TRY_PATH? | is-not-empty) {
        return $env.TRY_PATH
    }
    
    let config_paths = [
        ($env.HOME | path join ".config" "try-rs" "config.toml"),
        ($env.HOME | path join ".try-rs" "config.toml")
    ]
    
    for config_path in $config_paths {
        if ($config_path | path exists) {
            let content = (open $config_path | str trim)
            if ($content =~ 'tries_path\\s*=\\s*"?([^"]+)"?') {
                let path = ($content | parse -r 'tries_path\\s*=\\s*"?([^"]+)"?' | get capture0.0? | default "")
                if ($path | is-not-empty) {
                    return ($path | str replace "~" $env.HOME)
                }
            }
        }
    }
    
    ($env.HOME | path join "work" "tries")
}

def __try_rs_complete [context: string] {
    let tries_path = (__try_rs_get_tries_path)
    
    if ($tries_path | path exists) {
        ls $tries_path | where type == "dir" | get name | path basename
    } else {
        []
    }
}

# Register completion
export extern try-rs [
    name_or_url?: string@__try_rs_complete
    destination?: string
    --setup: string
    --setup-stdout: string
    --completions: string
    --shallow-clone(-s)
    --worktree(-w): string
]
"#;

/// The tab-completion script text for a shell.
pub open spec fn completions_spec(shell: Shell) -> Seq<char> {
    match shell {
        Shell::Fish => FISH_COMPLETIONS@,
        Shell::Zsh => ZSH_COMPLETIONS@,
        Shell::Bash => BASH_COMPLETIONS@,
        Shell::PowerShell => POWERSHELL_COMPLETIONS@,
        Shell::NuShell => NUSHELL_COMPLETIONS@,
    }
}

/// The whole integration script for a shell: the wrapper function (for
/// fish, together with the picker binding) followed by the completion
/// script.
pub open spec fn shell_content_spec(shell: Shell) -> Seq<char> {
    match shell {
        Shell::Fish => FISH_WRAPPER@ + FISH_PICKER_FUNCTION@ + "\n\n"@ + FISH_COMPLETIONS@,
        Shell::Zsh => ZSH_WRAPPER@ + ZSH_COMPLETIONS@,
        Shell::Bash => BASH_WRAPPER@ + BASH_COMPLETIONS@,
        Shell::PowerShell => POWERSHELL_WRAPPER@ + POWERSHELL_COMPLETIONS@,
        Shell::NuShell => NUSHELL_WRAPPER@ + NUSHELL_COMPLETIONS@,
    }
}

/// The completion script for a shell, for tab completion of directory
/// names.
pub fn get_completions_script(shell: &Shell) -> (r: String)
    ensures
        r@ == completions_spec(*shell),
{
    match shell {
        Shell::Fish => String::from_str(FISH_COMPLETIONS),
        Shell::Zsh => String::from_str(ZSH_COMPLETIONS),
        Shell::Bash => String::from_str(BASH_COMPLETIONS),
        Shell::PowerShell => String::from_str(POWERSHELL_COMPLETIONS),
        Shell::NuShell => String::from_str(NUSHELL_COMPLETIONS),
    }
}

/// The shell integration script content for a shell, as printed for a
/// setup that goes to standard output.
pub fn get_shell_content(shell: &Shell) -> (r: String)
    ensures
        r@ == shell_content_spec(*shell),
{
    match shell {
        Shell::Fish => {
            let r = String::from_str(FISH_WRAPPER).concat(FISH_PICKER_FUNCTION).concat(
                "\n\n",
            ).concat(FISH_COMPLETIONS);
            proof {
                assert(r@ =~= shell_content_spec(*shell));
            }
            r
        },
        Shell::Zsh => String::from_str(ZSH_WRAPPER).concat(ZSH_COMPLETIONS),
        Shell::Bash => String::from_str(BASH_WRAPPER).concat(BASH_COMPLETIONS),
        Shell::PowerShell => String::from_str(POWERSHELL_WRAPPER).concat(POWERSHELL_COMPLETIONS),
        Shell::NuShell => String::from_str(NUSHELL_WRAPPER).concat(NUSHELL_COMPLETIONS),
    }
}

/// The standalone completion script: the same as the completion script
/// for every shell but nushell, which needs a different standalone form.
pub fn get_completion_script_only(shell: &Shell) -> (r: String)
    ensures
        r@ == match *shell {
            Shell::NuShell => NUSHELL_STANDALONE_COMPLETIONS@,
            _ => completions_spec(*shell),
        },
{
    match shell {
        Shell::NuShell => String::from_str(NUSHELL_STANDALONE_COMPLETIONS),
        _ => get_completions_script(shell),
    }
}

/// The base configuration directory: the platform's configuration
/// directory when the environment defines one, else `.config` under the
/// home directory, else nothing.
pub fn get_base_config_dir() -> (r: Option<String>) {
    match os_config_dir() {
        Some(d) => Some(d),
        None => match os_home_dir() {
            Some(h) => Some(h.concat("/.config")),
            None => None,
        },
    }
}

/// Where a shell's integration file lives, relative to the base
/// configuration directory.
pub open spec fn integration_rel_path(shell: Shell) -> Seq<char> {
    match shell {
        Shell::Fish => "/fish/functions/try-rs.fish"@,
        Shell::Zsh => "/try-rs/try-rs.zsh"@,
        Shell::Bash => "/try-rs/try-rs.bash"@,
        Shell::PowerShell => "/try-rs/try-rs.ps1"@,
        Shell::NuShell => "/try-rs/try-rs.nu"@,
    }
}

/// The path of a shell's integration file: the shell-specific file under
/// the base configuration directory. Nothing is returned when the
/// environment defines no configuration or home directory.
pub fn get_shell_integration_path(shell: &Shell) -> (r: Option<String>)
    ensures
        r matches Some(p) ==> exists|base: Seq<char>|
            p@ == #[trigger] (base + integration_rel_path(*shell)),
{
    match get_base_config_dir() {
        Some(base) => {
            let ghost base_view = base@;
            let p = match shell {
                Shell::Fish => base.concat("/fish/functions/try-rs.fish"),
                Shell::Zsh => base.concat("/try-rs/try-rs.zsh"),
                Shell::Bash => base.concat("/try-rs/try-rs.bash"),
                Shell::PowerShell => base.concat("/try-rs/try-rs.ps1"),
                Shell::NuShell => base.concat("/try-rs/try-rs.nu"),
            };
            proof {
                assert(p@ == base_view + integration_rel_path(*shell));
            }
            Some(p)
        },
        None => None,
    }
}

/// Whether the shell's integration file is already present on disk.
pub fn is_shell_integration_configured(shell: &Shell) -> (r: bool) {
    match get_shell_integration_path(shell) {
        Some(p) => path_exists(p.as_str()),
        None => false,
    }
}

} // verus!