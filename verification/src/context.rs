use vstd::prelude::*;
use vstd::string::StringExecFns;

use crate::config::{Configuration, ConfigurationModel};
use crate::registry::Registry;

verus! {

/// The shell command that attaches an interactive console to the
/// Ethereum-compatible daemon: its binary under the data root, told to
/// attach to the daemon's IPC endpoint.
pub open spec fn geth_console_text(datadir: Seq<char>) -> Seq<char> {
    datadir + "/bin/geth attach "@ + datadir + "/data/ethereum/geth.ipc"@
}

/// Builds the console-attach command string for a data root.
pub fn geth_console_command(datadir: &str) -> (r: String)
    ensures
        r@ == geth_console_text(datadir@),
{
    let mut s = datadir.to_owned();
    s.append("/bin/geth attach ");
    s.append(datadir);
    s.append("/data/ethereum/geth.ipc");
    proof {
        assert(s@ =~= geth_console_text(datadir@));
    }
    s
}

/// The effective configuration as shown to the control surface: the parsed
/// record plus the data root it was loaded under.
pub struct FullConfig {
    pub config: Configuration,
    pub datadir: String,
}

/// Mathematical model of the effective configuration.
pub struct FullConfigModel {
    pub config: ConfigurationModel,
    pub datadir: Seq<char>,
}

impl View for FullConfig {
    type V = FullConfigModel;

    open spec fn view(&self) -> FullConfigModel {
        FullConfigModel { config: self.config@, datadir: self.datadir@ }
    }
}

/// The process-wide application context: the effective configuration, the
/// daemon registry built from it, and the precomputed console-attach
/// command. Constructed once at startup and read-only afterwards; every
/// command handler shares it by reference.
pub struct AppContext {
    pub full_config: FullConfig,
    pub registry: Registry,
    pub geth_console: String,
}

impl AppContext {
    /// The context is internally consistent: its registry is exactly what
    /// its configuration record determines, and its console command is the
    /// one its data root determines.
    pub open spec fn wf(&self) -> bool {
        &&& self.registry.built_from(self.full_config.config@)
        &&& self.geth_console@ == geth_console_text(self.full_config.datadir@)
    }

    /// Builds the context from the loaded configuration record and the data
    /// root, never touching the network: a daemon may still be starting
    /// while its descriptor is built.
    pub fn init(config: Configuration, datadir: String) -> (r: AppContext)
        ensures
            r.wf(),
            r.full_config.config@ == config@,
            r.full_config.datadir@ == datadir@,
    {
        let geth_console = geth_console_command(datadir.as_str());
        let registry = Registry::build(&config);
        AppContext { full_config: FullConfig { config, datadir }, registry, geth_console }
    }

    /// The full effective configuration, for display by the control
    /// surface.
    pub fn get_config(&self) -> (r: FullConfig)
        ensures
            r@ == self.full_config@,
    {
        FullConfig {
            config: self.full_config.config.duplicate(),
            datadir: self.full_config.datadir.clone(),
        }
    }

    /// The precomputed console-attach command for the Ethereum-compatible
    /// daemon.
    pub fn get_geth_console_command(&self) -> (r: String)
        ensures
            r@ == self.geth_console@,
    {
        self.geth_console.clone()
    }
}

} // verus!
