use vstd::prelude::*;

use crate::args::Command;

verus! {

/// A saved run configuration of the modern source.
pub struct Config {
    pub device_query: String,
    pub override_device_query: Option<String>,
    pub override_keys: Vec<u16>,
    pub left_bind: u16,
    pub right_bind: u16,
    pub lock_unlock_bind: Option<u16>,
    pub hold: bool,
    pub grab: bool,
    pub cooldown: u64,
    pub cooldown_press_release: u64,
}

impl Config {
    /// The configuration that a run command stands for; a legacy command has none.
    pub fn from_command(cmd: &Command) -> (r: Option<Config>)
        ensures
            cmd is RunLegacy <==> r is None,
            cmd is Run ==> ({
                let c = r->0;
                &&& c.device_query == cmd->Run_device_query
                &&& c.override_device_query == cmd->Run_override_device_query
                &&& c.override_keys@ == cmd->Run_override_keys@
                &&& c.left_bind == cmd->Run_left_bind
                &&& c.right_bind == cmd->Run_right_bind
                &&& c.lock_unlock_bind == cmd->Run_lock_unlock_bind
                &&& c.hold == cmd->Run_hold
                &&& c.grab == cmd->Run_grab
                &&& c.cooldown == cmd->Run_cooldown
                &&& c.cooldown_press_release == cmd->Run_cooldown_press_release
            }),
    {
        match cmd {
            Command::Run {
                device_query,
                override_device_query,
                override_keys,
                left_bind,
                right_bind,
                lock_unlock_bind,
                hold,
                grab,
                cooldown,
                cooldown_press_release,
            } => {
                let keys = override_keys.clone();
                assert(keys@ =~= override_keys@);
                let override_query = match override_device_query {
                    Some(q) => Some(q.clone()),
                    None => None,
                };
                Some(
                    Config {
                        device_query: device_query.clone(),
                        override_device_query: override_query,
                        override_keys: keys,
                        left_bind: *left_bind,
                        right_bind: *right_bind,
                        lock_unlock_bind: *lock_unlock_bind,
                        hold: *hold,
                        grab: *grab,
                        cooldown: *cooldown,
                        cooldown_press_release: *cooldown_press_release,
                    },
                )
            },
            Command::RunLegacy { .. } => None,
        }
    }

    /// The run command that this configuration describes.
    pub fn into_command(self) -> (r: Command)
        ensures
            r == (Command::Run {
                device_query: self.device_query,
                override_device_query: self.override_device_query,
                override_keys: self.override_keys,
                left_bind: self.left_bind,
                right_bind: self.right_bind,
                lock_unlock_bind: self.lock_unlock_bind,
                hold: self.hold,
                grab: self.grab,
                cooldown: self.cooldown,
                cooldown_press_release: self.cooldown_press_release,
            }),
    {
        Command::Run {
            device_query: self.device_query,
            override_device_query: self.override_device_query,
            override_keys: self.override_keys,
            left_bind: self.left_bind,
            right_bind: self.right_bind,
            lock_unlock_bind: self.lock_unlock_bind,
            hold: self.hold,
            grab: self.grab,
            cooldown: self.cooldown,
            cooldown_press_release: self.cooldown_press_release,
        }
    }
}

} // verus!
