//! The command line as values: which program to run, and with what.

use vstd::prelude::*;
use vstd::string::*;
use crate::launch::ProxyArgs;
use crate::text::concat;

verus! {

/// What a monitor is started with.
#[derive(Debug, Clone)]
pub struct MonitorArgs {
    pub ipc_socket: String,
    pub verbose: bool,
}

/// The arguments of the stand-alone proxy program.
#[derive(Debug, Clone)]
pub struct Args {
    pub command: String,
    pub name: Option<String>,
    pub ipc_socket: String,
    pub verbose: bool,
    pub shell: bool,
    pub no_monitor: bool,
}

/// The arguments of the unified program.
#[derive(Debug, Clone)]
pub struct Cli {
    pub command: Option<Commands>,
}

/// The subcommands of the unified program.
#[derive(Debug, Clone)]
#[allow(inconsistent_fields)]
pub enum Commands {
    Monitor { ipc_socket: String, verbose: bool },
    Proxy {
        command: String,
        name: String,
        ipc_socket: String,
        verbose: bool,
        shell: bool,
        no_monitor: bool,
    },
}

/// The program that a command line asks for.
#[derive(Debug, Clone)]
pub enum Launch {
    Monitor(MonitorArgs),
    Proxy(ProxyArgs),
}

/// The monitor's socket when none is named.
pub open spec fn default_socket() -> Seq<char> {
    "/tmp/mcp-monitor.sock"@
}

/// The name of a proxy that was given none: a fixed stem and a suffix.
pub open spec fn generated_name(suffix: Seq<char>) -> Seq<char> {
    "mcp-proxy-"@ + suffix
}

impl Cli {
    /// The program asked for: the subcommand if there is one, else a quiet
    /// monitor on the default socket.
    pub fn resolve(self) -> (launch: Launch)
        ensures
            match self.command {
                None => launch matches Launch::Monitor(args) && args.ipc_socket@
                    == default_socket() && !args.verbose,
                Some(Commands::Monitor { ipc_socket, verbose }) => launch == Launch::Monitor(
                    MonitorArgs { ipc_socket, verbose },
                ),
                Some(
                    Commands::Proxy { command, name, ipc_socket, verbose, shell, no_monitor },
                ) => launch == Launch::Proxy(
                    ProxyArgs { command, name, ipc_socket, verbose, shell, no_monitor },
                ),
            },
    {
        match self.command {
            None => Launch::Monitor(
                MonitorArgs { ipc_socket: "/tmp/mcp-monitor.sock".to_owned(), verbose: false },
            ),
            Some(Commands::Monitor { ipc_socket, verbose }) => Launch::Monitor(
                MonitorArgs { ipc_socket, verbose },
            ),
            Some(
                Commands::Proxy { command, name, ipc_socket, verbose, shell, no_monitor },
            ) => Launch::Proxy(ProxyArgs { command, name, ipc_socket, verbose, shell, no_monitor }),
        }
    }
}

impl Args {
    /// What the proxy is started with: the arguments as given, under the
    /// given name or, without one, under a name generated from `suffix`.
    pub fn into_proxy_args(self, suffix: &str) -> (args: ProxyArgs)
        ensures
            args.command == self.command,
            args.ipc_socket == self.ipc_socket,
            args.verbose == self.verbose,
            args.shell == self.shell,
            args.no_monitor == self.no_monitor,
            args.name@ == match self.name {
                Some(name) => name@,
                None => generated_name(suffix@),
            },
    {
        let name = match self.name {
            Some(name) => name,
            None => concat("mcp-proxy-", suffix),
        };
        ProxyArgs {
            command: self.command,
            name,
            ipc_socket: self.ipc_socket,
            verbose: self.verbose,
            shell: self.shell,
            no_monitor: self.no_monitor,
        }
    }
}

} // verus!
