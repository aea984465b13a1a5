//! Command-line arguments and the decisions the `config` command makes.
use vstd::prelude::*;

verus! {

/// Arguments of the program.
pub struct Cli {
    pub command: Commands,
    /// Enable verbose logging.
    pub verbose: bool,
    /// Path to the config file.
    pub config: Option<String>,
}

/// The subcommands.
pub enum Commands {
    /// Start an interactive chat session.
    Chat,
    /// Ask a single question.
    Ask,
    /// Manage the daemon.
    Daemon,
    /// Memory operations.
    Memory,
    /// Configuration management.
    Config(ConfigArgs),
}

/// Arguments of `config`.
pub struct ConfigArgs {
    pub command: ConfigCommands,
}

/// The subcommands of `config`.
pub enum ConfigCommands {
    /// Show the current configuration in the named format.
    Show { format: String },
    /// Print the value under a dotted key.
    Get { key: String },
    /// Store a value under a dotted key.
    SetValue { key: String, value: String },
    /// Print the config file's path.
    Path,
    /// Write the default config file.
    Init { force: bool },
}

/// How `config show` prints the configuration.
#[derive(PartialEq, Eq, Structural)]
pub enum OutputFormat {
    Toml,
    Json,
}

/// `json` selects JSON; any other name selects TOML, the default.
pub fn output_format(format: &str) -> (r: OutputFormat)
    ensures
        r == (if format@ == seq!['j', 's', 'o', 'n'] { OutputFormat::Json } else { OutputFormat::Toml }),
{
    let n = format.unicode_len();
    if n != 4 {
        return OutputFormat::Toml;
    }
    let a = format.get_char(0);
    let b = format.get_char(1);
    let c = format.get_char(2);
    let d = format.get_char(3);
    if a == 'j' && b == 's' && c == 'o' && d == 'n' {
        assert(format@ =~= seq!['j', 's', 'o', 'n']);
        OutputFormat::Json
    } else {
        OutputFormat::Toml
    }
}

/// `config init` writes the default file unless one exists and `force` is off.
pub fn may_write_default_config(file_exists: bool, force: bool) -> (r: bool)
    ensures
        r == (!file_exists || force),
{
    !file_exists || force
}

/// Level of logging chosen from the verbosity switch.
pub fn log_level(verbose: bool) -> (r: &'static str)
    ensures
        r@ == (if verbose { "debug"@ } else { "info"@ }),
{
    if verbose {
        "debug"
    } else {
        "info"
    }
}

} // verus!
