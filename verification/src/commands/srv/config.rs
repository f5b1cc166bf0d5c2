//! `devrs srv` settings: command-line arguments merged with a `.devrs-srv.toml` file.

use crate::text::str_is;
use vstd::prelude::*;

verus! {

/// The settings file looked for in the served directory.
pub const CONFIG_FILE_NAME: &'static str = ".devrs-srv.toml";

/// The port served when nothing else is said.
pub const DEFAULT_PORT: u16 = 8000;

/// The address served on when nothing else is said.
pub const DEFAULT_HOST: &'static str = "127.0.0.1";

/// The index file served when nothing else is said.
pub const DEFAULT_INDEX: &'static str = "index.html";

/// Arguments of `devrs srv`.
#[derive(Debug, Clone)]
pub struct SrvArgs {
    /// The directory to serve (default `.`).
    pub directory: String,
    /// The port (default 8000).
    pub port: u16,
    /// The address to listen on, as an IP address writes (default `127.0.0.1`).
    pub host: String,
    /// Whether CORS is switched off.
    pub no_cors: bool,
    /// Whether hidden files are listed.
    pub show_hidden: bool,
    /// The index file (default `index.html`).
    pub index: String,
}

/// The settings the server runs with.
#[derive(Debug, Clone)]
pub struct ServerConfig {
    pub port: u16,
    /// The address, as an IP address writes.
    pub host: String,
    pub directory: String,
    pub enable_cors: bool,
    pub show_hidden: bool,
    pub index_file: String,
}

/// The settings as plain values: port, host, directory, CORS, hidden files, index.
pub type ConfigModel = (u16, Seq<char>, Seq<char>, bool, bool, Seq<char>);

impl View for ServerConfig {
    type V = ConfigModel;

    open spec fn view(&self) -> ConfigModel {
        (
            self.port,
            self.host@,
            self.directory@,
            self.enable_cors,
            self.show_hidden,
            self.index_file@,
        )
    }
}

/// The default settings.
pub open spec fn default_config() -> ConfigModel {
    (8000, "127.0.0.1"@, "."@, true, false, "index.html"@)
}

impl Default for ServerConfig {
    /// Port 8000 on 127.0.0.1, serving `.` with CORS on, hidden files off and
    /// `index.html` as the index.
    fn default() -> (r: ServerConfig)
        ensures
            r@ == default_config(),
    {
        ServerConfig {
            port: DEFAULT_PORT,
            host: DEFAULT_HOST.to_string(),
            directory: ".".to_string(),
            enable_cors: true,
            show_hidden: false,
            index_file: DEFAULT_INDEX.to_string(),
        }
    }
}

/// The settings the arguments alone give.
pub open spec fn args_config(args: SrvArgs) -> ConfigModel {
    (args.port, args.host@, args.directory@, !args.no_cors, args.show_hidden, args.index@)
}

impl ServerConfig {
    /// The settings the arguments alone give: CORS is on unless `--no-cors`.
    pub fn from_args(args: &SrvArgs) -> (r: ServerConfig)
        ensures
            r@ == args_config(*args),
    {
        ServerConfig {
            port: args.port,
            host: args.host.clone(),
            directory: args.directory.clone(),
            enable_cors: !args.no_cors,
            show_hidden: args.show_hidden,
            index_file: args.index.clone(),
        }
    }
}

/// What a settings file holds; every key may be missing.
#[derive(Debug, Clone)]
pub struct FileConfig {
    pub port: Option<u16>,
    /// The address the `host` key names, as an IP address writes; `None` when the key
    /// is missing or names no IP address.
    pub host: Option<String>,
    pub directory: Option<String>,
    pub enable_cors: Option<bool>,
    pub show_hidden: Option<bool>,
    pub index_file: Option<String>,
}

/// The directory a settings file names, before it is resolved against the file's own
/// directory: `.` when it names none.
pub open spec fn file_directory(file: FileConfig) -> Seq<char> {
    match file.directory {
        Some(d) => d@,
        None => "."@,
    }
}

/// The directory a settings file names.
pub fn named_directory(file: &FileConfig) -> (r: String)
    ensures
        r@ == file_directory(*file),
{
    match &file.directory {
        Some(d) => d.clone(),
        None => ".".to_string(),
    }
}

/// The settings a file gives, each missing key by its default (a host that is no IP
/// address counts as missing). `directory` is the file's directory already
/// resolved against the file's location.
pub open spec fn file_config_of(file: FileConfig, directory: Seq<char>) -> ConfigModel {
    let d = default_config();
    (
        match file.port {
            Some(p) => p,
            None => d.0,
        },
        match file.host {
            Some(h) => h@,
            None => d.1,
        },
        directory,
        match file.enable_cors {
            Some(b) => b,
            None => d.3,
        },
        match file.show_hidden {
            Some(b) => b,
            None => d.4,
        },
        match file.index_file {
            Some(i) => i@,
            None => d.5,
        },
    )
}

/// The settings a file gives.
pub fn config_from_file(file: &FileConfig, directory: &str) -> (r: ServerConfig)
    ensures
        r@ == file_config_of(*file, directory@),
{
    let host = match &file.host {
        Some(h) => h.clone(),
        None => DEFAULT_HOST.to_string(),
    };
    ServerConfig {
        port: match file.port {
            Some(p) => p,
            None => DEFAULT_PORT,
        },
        host,
        directory: directory.to_string(),
        enable_cors: match file.enable_cors {
            Some(b) => b,
            None => true,
        },
        show_hidden: match file.show_hidden {
            Some(b) => b,
            None => false,
        },
        index_file: match &file.index_file {
            Some(i) => i.clone(),
            None => DEFAULT_INDEX.to_string(),
        },
    }
}

/// The merged settings: without a file, the arguments'. With one, each argument left
/// at its default gives way to the file (the port at 8000, the host at 127.0.0.1, the
/// index at `index.html`, CORS not switched off, hidden files not switched on), and the
/// directory is always the file's.
pub open spec fn merged_config(args: SrvArgs, file: Option<ConfigModel>) -> ConfigModel {
    let a = args_config(args);
    match file {
        None => a,
        Some(f) => (
            if args.port == 8000 { f.0 } else { a.0 },
            if args.host@ == "127.0.0.1"@ { f.1 } else { a.1 },
            f.2,
            if !args.no_cors { f.3 } else { a.3 },
            if !args.show_hidden { f.4 } else { a.4 },
            if args.index@ == "index.html"@ { f.5 } else { a.5 },
        ),
    }
}

/// Merges the arguments with the settings file's, if there is one.
pub fn merge_config(args: &SrvArgs, file: Option<ServerConfig>) -> (r: ServerConfig)
    ensures
        r@ == merged_config(
            *args,
            match file {
                Some(f) => Some(f@),
                None => None,
            },
        ),
{
    let mut c = ServerConfig::from_args(args);
    match file {
        None => c,
        Some(f) => {
            if args.port == DEFAULT_PORT {
                c.port = f.port;
            }
            if str_is(args.host.as_str(), DEFAULT_HOST) {
                c.host = f.host;
            }
            if str_is(args.index.as_str(), DEFAULT_INDEX) {
                c.index_file = f.index_file;
            }
            if !args.no_cors {
                c.enable_cors = f.enable_cors;
            }
            if !args.show_hidden {
                c.show_hidden = f.show_hidden;
            }
            c.directory = f.directory;
            c
        },
    }
}

/// An argument set to something other than its default always wins over the settings
/// file, and without a file the arguments are the settings.
pub proof fn lemma_arguments_win(args: SrvArgs, file: Option<ConfigModel>)
    ensures
        file is None ==> merged_config(args, file) == args_config(args),
        args.port != 8000 ==> merged_config(args, file).0 == args.port,
        args.host@ != "127.0.0.1"@ ==> merged_config(args, file).1 == args.host@,
        args.no_cors ==> !merged_config(args, file).3,
        args.show_hidden ==> merged_config(args, file).4,
        args.index@ != "index.html"@ ==> merged_config(args, file).5 == args.index@,
{
}

} // verus!
