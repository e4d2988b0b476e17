use vstd::prelude::*;

verus! {

/// An optional capability plugin that the shell can attach.
#[derive(Clone, Copy, Debug, PartialEq, Eq, Structural)]
pub enum Plugin {
    /// Checks for and installs application updates.
    Updater,
    /// Lets the frontend exit or restart the process.
    Process,
}

/// The flags that decide how the shell starts.
#[derive(Clone, Copy, Debug, PartialEq, Eq, Structural)]
pub struct ShellConfig {
    pub enable_updater: bool,
    pub enable_process: bool,
    /// Open developer tools on the main window during setup (debug builds).
    pub enable_devtools: bool,
}

/// The plugins to attach, in the order the shell registers them:
/// the updater first, then process control, each only when enabled.
pub open spec fn plan_of(config: ShellConfig) -> Seq<Plugin> {
    let updater = if config.enable_updater { seq![Plugin::Updater] } else { Seq::empty() };
    let process = if config.enable_process { seq![Plugin::Process] } else { Seq::empty() };
    updater + process
}

/// Lists the plugins to attach for `config`.
pub fn plugin_plan(config: &ShellConfig) -> (r: Vec<Plugin>)
    ensures
        r@ == plan_of(*config),
        r@.no_duplicates(),
        r@.contains(Plugin::Updater) <==> config.enable_updater,
        r@.contains(Plugin::Process) <==> config.enable_process,
{
    let mut r: Vec<Plugin> = Vec::new();
    if config.enable_updater {
        r.push(Plugin::Updater);
    }
    if config.enable_process {
        r.push(Plugin::Process);
    }
    proof {
        assert(r@ =~= plan_of(*config));
        if config.enable_updater && config.enable_process {
            assert(r@[0] == Plugin::Updater);
            assert(r@[1] == Plugin::Process);
        }
        if !config.enable_updater && config.enable_process {
            assert(r@[0] == Plugin::Process);
        }
        if config.enable_updater && !config.enable_process {
            assert(r@[0] == Plugin::Updater);
        }
    }
    r
}

} // verus!
