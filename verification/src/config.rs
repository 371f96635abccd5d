//! Launch settings: the defaults, what a user may override, and how the
//! overrides from a configuration file and from the command line are
//! merged.

use crate::error::ConfigError;
use crate::number::{decimal_u32, parse_u32};
use vstd::prelude::*;

verus! {

/// How large the simulation window is to be.
#[derive(Clone, Copy, Debug, PartialEq, Eq)]
pub enum WindowSize {
    Fullscreen,
    Dimensions((u32, u32)),
}

/// The launch settings of a simulation run.
#[derive(Clone, Copy, Debug, PartialEq, Eq)]
pub struct SimulationConfig {
    pub boid_count: u32,
    pub window_size: WindowSize,
    pub debug: bool,
}

/// What a user asked for about the window. A field that is `None` was not
/// mentioned.
#[derive(Clone, Copy, Debug, PartialEq, Eq)]
pub struct WindowConfig {
    pub size: Option<(u32, u32)>,
    pub fullscreen: Option<bool>,
}

/// One source of user settings. A field that is `None` was not mentioned
/// and leaves the setting as it is.
#[derive(Clone, Copy, Debug, PartialEq, Eq)]
pub struct UserConfig {
    pub boid_count: Option<u32>,
    pub debug: Option<bool>,
    pub window: Option<WindowConfig>,
}

/// Accumulates user settings over the defaults.
pub struct ConfigBuilder {
    pub config: SimulationConfig,
}

/// The value of a setting after a source of user settings had its say.
pub open spec fn merged<T>(existing: T, candidate: Option<T>) -> T {
    match candidate {
        Some(v) => v,
        None => existing,
    }
}

/// Overwrites `existing` with the candidate, when there is one.
pub fn merge<T>(existing: &mut T, candidate: Option<T>)
    ensures
        *final(existing) == merged(*old(existing), candidate),
{
    if let Some(v) = candidate {
        *existing = v;
    }
}

impl SimulationConfig {
    /// The settings of a run for which the user said nothing.
    pub open spec fn initial() -> SimulationConfig {
        SimulationConfig {
            boid_count: 1000,
            window_size: WindowSize::Dimensions((800, 800)),
            debug: false,
        }
    }

    /// These settings with everything that `uc` mentions replaced.
    pub open spec fn overridden_by(self, uc: UserConfig) -> SimulationConfig {
        SimulationConfig {
            boid_count: merged(self.boid_count, uc.boid_count),
            window_size: merged(self.window_size, uc.spec_window_size()),
            debug: merged(self.debug, uc.debug),
        }
    }
}

impl Default for SimulationConfig {
    fn default() -> (r: SimulationConfig)
        ensures
            r == SimulationConfig::initial(),
    {
        SimulationConfig {
            boid_count: 1000,
            window_size: WindowSize::Dimensions((800, 800)),
            debug: false,
        }
    }
}

impl UserConfig {
    /// The source that mentions nothing.
    pub open spec fn silent() -> UserConfig {
        UserConfig { boid_count: None, debug: None, window: None }
    }

    /// The window size this source asks for: full screen when it asks for
    /// that, whatever dimensions it also names; else the dimensions it
    /// names; else nothing.
    pub open spec fn spec_window_size(&self) -> Option<WindowSize> {
        if self.window is Some && self.window->0.fullscreen == Some(true) {
            Some(WindowSize::Fullscreen)
        } else if self.window is Some && self.window->0.size is Some {
            Some(WindowSize::Dimensions(self.window->0.size->0))
        } else {
            None
        }
    }

    #[verifier::when_used_as_spec(spec_window_size)]
    pub fn window_size(&self) -> (r: Option<WindowSize>)
        ensures
            r == self.spec_window_size(),
    {
        match self.window {
            Some(WindowConfig { fullscreen: Some(true), .. }) => Some(WindowSize::Fullscreen),
            Some(WindowConfig { size: Some(dims), .. }) => Some(WindowSize::Dimensions(dims)),
            _ => None,
        }
    }
}

impl Default for UserConfig {
    fn default() -> (r: UserConfig)
        ensures
            r == UserConfig::silent(),
    {
        UserConfig { boid_count: None, window: None, debug: None }
    }
}

impl ConfigBuilder {
    /// A builder that holds the default settings.
    pub fn new() -> (r: ConfigBuilder)
        ensures
            r.config == SimulationConfig::initial(),
    {
        ConfigBuilder { config: SimulationConfig::default() }
    }

    /// Lets `uc` override the settings gathered so far.
    pub fn apply(&mut self, uc: UserConfig)
        ensures
            final(self).config == old(self).config.overridden_by(uc),
    {
        let window_size = uc.window_size();
        merge(&mut self.config.boid_count, uc.boid_count);
        merge(&mut self.config.debug, uc.debug);
        merge(&mut self.config.window_size, window_size);
    }

    /// The settings gathered.
    pub fn build(self) -> (r: SimulationConfig)
        ensures
            r == self.config,
    {
        self.config
    }
}

/// What the command line holds, as the argument parser found it: for each
/// option whether it was given, and the values given with it as text.
#[derive(Clone, Debug, PartialEq, Eq)]
pub struct CliArgs {
    /// The path of the configuration file.
    pub config: Option<String>,
    /// The values given for the window size: width, then height.
    pub size: Option<Vec<String>>,
    pub fullscreen: bool,
    /// The value given for the number of boids.
    pub boid_count: Option<String>,
    pub debug: bool,
}

/// Whether `text` ends with `tail`.
pub open spec fn ends_with(text: Seq<char>, tail: Seq<char>) -> bool {
    text.len() >= tail.len() && text.subrange(text.len() - tail.len(), text.len() as int) == tail
}

/// Why a value that is no number is turned down.
pub open spec fn invalid_value_reason(value: Seq<char>) -> Seq<char> {
    "The argument '"@ + value + "' isn't a valid value"@
}

/// How the report that turns down a value ends.
pub open spec fn invalid_value_report(value: Seq<char>) -> Seq<char> {
    " Invalid value: "@ + invalid_value_reason(value) + "\n"@
}

/// Whether `e` is the failure that turns down `value` as no number.
pub open spec fn turns_down(e: ConfigError, value: Seq<char>) -> bool {
    &&& e matches ConfigError::Clap(report)
    &&& ends_with(report@, invalid_value_report(value))
}

/// The index of the first of `values`, from index `from` on, that is no
/// `u32`; the number of values if there is none.
pub open spec fn first_unreadable(values: Seq<String>, from: int) -> int
    decreases values.len() - from,
{
    if from < 0 || from >= values.len() {
        values.len() as int
    } else if decimal_u32(values[from]@) is None {
        from
    } else {
        first_unreadable(values, from + 1)
    }
}

/// The report with which clap turns down a value, through its
/// `Error::value_validation_auto`, printed as clap's errors print. The
/// report may open with colour codes or without them; it always ends with
/// the words "Invalid value", the reason handed in, and a line break.
#[verifier::external_body]
fn validation_report(reason: String) -> (r: String)
    ensures
        ends_with(r@, " Invalid value: "@ + reason@ + "\n"@),
{
    clap::Error::value_validation_auto(reason).to_string()
}

/// Reads one option value as a number.
pub fn read_value(value: &str) -> (r: Result<u32, ConfigError>)
    ensures
        match r {
            Ok(n) => decimal_u32(value@) == Some(n),
            Err(e) => decimal_u32(value@) is None && turns_down(e, value@),
        },
{
    match parse_u32(value) {
        Some(n) => Ok(n),
        None => {
            let reason = "The argument '".to_owned().concat(value).concat("' isn't a valid value");
            Err(ConfigError::Clap(validation_report(reason)))
        },
    }
}

/// Reads the values of one option as numbers, in order, and stops at the
/// first that is none.
pub fn read_values(values: &Vec<String>) -> (r: Result<Vec<u32>, ConfigError>)
    ensures
        match r {
            Ok(numbers) => {
                &&& first_unreadable(values@, 0) == values.len()
                &&& numbers.len() == values.len()
                &&& forall|i: int|
                    0 <= i < values.len() ==> decimal_u32(#[trigger] values[i]@) == Some(
                        numbers[i],
                    )
            },
            Err(e) => {
                &&& 0 <= first_unreadable(values@, 0) < values.len()
                &&& turns_down(e, values[first_unreadable(values@, 0)]@)
            },
        },
{
    let mut numbers: Vec<u32> = Vec::new();
    let mut i: usize = 0;
    while i < values.len()
        invariant
            i <= values.len(),
            numbers.len() == i,
            first_unreadable(values@, 0) == first_unreadable(values@, i as int),
            forall|k: int| 0 <= k < i ==> decimal_u32(#[trigger] values[k]@) == Some(numbers[k]),
        decreases values.len() - i,
    {
        match read_value(values[i].as_str()) {
            Ok(n) => {
                numbers.push(n);
            },
            Err(e) => {
                return Err(e);
            },
        }
        i = i + 1;
    }
    Ok(numbers)
}

impl CliArgs {
    /// Whether the window size, where it is given, has both its values.
    pub open spec fn has_both_dimensions(&self) -> bool {
        self.size is Some ==> self.size->0.len() >= 2
    }

    /// The first value on the command line that is no number: the values
    /// of the window size come first, then the number of boids.
    pub open spec fn offending_value(&self) -> Option<Seq<char>> {
        if self.size is Some && first_unreadable(self.size->0@, 0) < self.size->0.len() {
            Some(self.size->0[first_unreadable(self.size->0@, 0)]@)
        } else if self.boid_count is Some && decimal_u32(self.boid_count->0@) is None {
            Some(self.boid_count->0@)
        } else {
            None
        }
    }

    /// What the command line asks for, when all its values are numbers.
    pub open spec fn user_config(&self) -> UserConfig
        recommends
            self.has_both_dimensions(),
            self.offending_value() is None,
    {
        UserConfig {
            boid_count: match self.boid_count {
                Some(text) => decimal_u32(text@),
                None => None,
            },
            debug: if self.debug {
                Some(true)
            } else {
                None
            },
            window: Some(
                WindowConfig {
                    size: match self.size {
                        Some(values) => Some(
                            (decimal_u32(values[0]@)->0, decimal_u32(values[1]@)->0),
                        ),
                        None => None,
                    },
                    fullscreen: if self.fullscreen {
                        Some(true)
                    } else {
                        None
                    },
                },
            ),
        }
    }
}

impl UserConfig {
    /// The settings that the command line asks for. It fails on the first
    /// value that is no number, with the report that names that value.
    pub fn from_cli_args(args: &CliArgs) -> (r: Result<UserConfig, ConfigError>)
        requires
            args.has_both_dimensions(),
        ensures
            match r {
                Ok(uc) => args.offending_value() is None && uc == args.user_config(),
                Err(e) => args.offending_value() is Some && turns_down(
                    e,
                    args.offending_value()->0,
                ),
            },
    {
        let fullscreen = if args.fullscreen {
            Some(true)
        } else {
            None
        };
        let size = match &args.size {
            Some(values) => {
                match read_values(values) {
                    Ok(numbers) => Some((numbers[0], numbers[1])),
                    Err(e) => {
                        return Err(e);
                    },
                }
            },
            None => None,
        };
        let boid_count = match &args.boid_count {
            Some(text) => {
                match read_value(text.as_str()) {
                    Ok(n) => Some(n),
                    Err(e) => {
                        return Err(e);
                    },
                }
            },
            None => None,
        };
        let debug = if args.debug {
            Some(true)
        } else {
            None
        };
        let window = Some(WindowConfig { fullscreen, size });
        Ok(UserConfig { boid_count, debug, window })
    }
}

/// The settings of a run: the defaults, overridden by what the
/// configuration file asks for, where there is one, and then by what the
/// command line asks for.
pub open spec fn built_config(file: Option<UserConfig>, args: CliArgs) -> SimulationConfig {
    let base = match file {
        Some(uc) => SimulationConfig::initial().overridden_by(uc),
        None => SimulationConfig::initial(),
    };
    base.overridden_by(args.user_config())
}

/// Puts the settings of a run together from the contents of the
/// configuration file, where one was named, and the command line.
pub fn build_config(file: Option<UserConfig>, args: &CliArgs) -> (r: Result<
    SimulationConfig,
    ConfigError,
>)
    requires
        args.has_both_dimensions(),
    ensures
        match r {
            Ok(config) => args.offending_value() is None && config == built_config(file, *args),
            Err(e) => args.offending_value() is Some && turns_down(e, args.offending_value()->0),
        },
{
    let mut builder = ConfigBuilder::new();
    if let Some(uc) = file {
        builder.apply(uc);
    }
    match UserConfig::from_cli_args(args) {
        Ok(uc) => {
            builder.apply(uc);
        },
        Err(e) => {
            return Err(e);
        },
    }
    Ok(builder.build())
}

} // verus!
