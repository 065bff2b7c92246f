use vstd::prelude::*;

verus! {

/// The command that a configuration file holds.
pub enum ConfigCommand {
    Run {
        device_query: String,
        override_device_query: Option<String>,
        override_keys: Vec<u16>,
        left_bind: u16,
        right_bind: u16,
        lock_unlock_bind: Option<u16>,
        hold: bool,
        grab: bool,
        cooldown: u64,
        cooldown_press_release: u64,
    },
    RunLegacy { device_query: String, cooldown: u64, cooldown_press_release: u64 },
}

/// A configuration file: global flags and the command to run.
pub struct Config {
    pub debug: bool,
    pub beep: bool,
    pub command: ConfigCommand,
}

/// What to run: the modern source with its bindings, or a legacy device.
pub enum Command {
    Run {
        device_query: String,
        override_device_query: Option<String>,
        override_keys: Vec<u16>,
        left_bind: u16,
        right_bind: u16,
        lock_unlock_bind: Option<u16>,
        hold: bool,
        grab: bool,
        cooldown: u64,
        cooldown_press_release: u64,
    },
    RunLegacy { device_query: String, cooldown: u64, cooldown_press_release: u64 },
}

/// The command a configuration file's command stands for, field by field.
pub open spec fn command_of(c: ConfigCommand) -> Command {
    match c {
        ConfigCommand::Run {
            device_query,
            override_device_query,
            override_keys,
            left_bind,
            right_bind,
            lock_unlock_bind,
            hold,
            grab,
            cooldown,
            cooldown_press_release,
        } => Command::Run {
            device_query,
            override_device_query,
            override_keys,
            left_bind,
            right_bind,
            lock_unlock_bind,
            hold,
            grab,
            cooldown,
            cooldown_press_release,
        },
        ConfigCommand::RunLegacy { device_query, cooldown, cooldown_press_release } =>
            Command::RunLegacy { device_query, cooldown, cooldown_press_release },
    }
}

impl From<ConfigCommand> for Command {
    fn from(c: ConfigCommand) -> Command {
        match c {
            ConfigCommand::Run {
                device_query,
                override_device_query,
                override_keys,
                left_bind,
                right_bind,
                lock_unlock_bind,
                hold,
                grab,
                cooldown,
                cooldown_press_release,
            } => Command::Run {
                device_query,
                override_device_query,
                override_keys,
                left_bind,
                right_bind,
                lock_unlock_bind,
                hold,
                grab,
                cooldown,
                cooldown_press_release,
            },
            ConfigCommand::RunLegacy { device_query, cooldown, cooldown_press_release } =>
                Command::RunLegacy { device_query, cooldown, cooldown_press_release },
        }
    }
}

impl vstd::std_specs::convert::FromSpecImpl<ConfigCommand> for Command {
    open spec fn obeys_from_spec() -> bool {
        true
    }

    open spec fn from_spec(c: ConfigCommand) -> Command {
        command_of(c)
    }
}

/// Command-line arguments.
pub struct Args {
    pub debug: bool,
    /// Signal every state change audibly.
    pub beep: bool,
    /// Configuration file to load.
    pub config: Option<String>,
    /// Load `config.json` from the working directory.
    pub default: bool,
    /// Where to save the configuration chosen interactively.
    pub save_config: Option<String>,
    pub command: Option<Command>,
}

/// Name of the configuration file that `default` selects.
pub open spec fn default_config_path() -> Seq<char> {
    "config.json"@
}

impl Args {
    /// The configuration file to load, if any: `config.json` when `default`
    /// is set, otherwise the one given.
    pub fn config_path(&self) -> (r: Option<String>)
        ensures
            self.default ==> r is Some && r->0@ == default_config_path(),
            !self.default ==> r == self.config,
    {
        if self.default {
            Some(String::from_str("config.json"))
        } else {
            match &self.config {
                Some(p) => Some(p.clone()),
                None => None,
            }
        }
    }

    /// Fills in from a configuration file what the command line left unset:
    /// a flag is set when either sets it, and the file's command is taken when
    /// none was given.
    pub fn with_config(self, config: Config) -> (r: Args)
        ensures
            r.debug == (self.debug || config.debug),
            r.beep == (self.beep || config.beep),
            r.config == self.config,
            r.default == self.default,
            r.save_config == self.save_config,
            r.command == (if self.command is Some {
                self.command
            } else {
                Some(command_of(config.command))
            }),
    {
        let command = match self.command {
            Some(c) => Some(c),
            None => Some(Command::from(config.command)),
        };
        Args {
            debug: self.debug || config.debug,
            beep: self.beep || config.beep,
            config: self.config,
            default: self.default,
            save_config: self.save_config,
            command,
        }
    }
}

} // verus!
