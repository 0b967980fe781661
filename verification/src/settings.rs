//! Resolution of the run's settings from configuration file values and
//! command-line arguments.
//!
//! The unverified glue parses the command line, loads the configuration file,
//! lists the available ports, probes the log folder, and runs the interactive
//! selectors; the merging and validation decisions are verified here.

use vstd::prelude::*;
use vstd::string::{StringExecFns, StrSliceExecFns};

use crate::error::SpewcapError;
use crate::validation::{
    dir_acceptable, is_standard_baud_rate, port_in_list, validate_baud_rate,
    validate_directory_path, validate_port_name, DirFacts,
};

verus! {

/// The resolved settings the capture pipeline runs with.
#[derive(Debug, Clone, PartialEq, Eq)]
pub struct Settings {
    /// Name of the serial port to capture from.
    pub port: String,
    /// Baud rate to open the port at; one of the standard rates.
    pub baud_rate: u32,
    /// Whether log lines carry a timestamp prefix.
    pub timestamps: bool,
    /// Folder offered as the default destination when saving a log.
    pub log_folder: Option<String>,
}

/// The command-line arguments, as plain values.
#[derive(Debug, Clone)]
pub struct Args {
    /// Port name, when given on the command line.
    pub port: Option<String>,
    /// Baud rate, when given on the command line.
    pub baud_rate: Option<u32>,
    /// Prepend timestamps in the log.
    pub timestamps: bool,
    /// Start a log as soon as capture starts.
    pub log_on_start: bool,
    /// Folder path to save logs.
    pub log_folder: Option<String>,
    /// List the available ports and leave.
    pub list: bool,
}

/// Configuration as loaded from a file, every field optional.
#[derive(Debug, Clone, PartialEq, Eq)]
pub struct Config {
    /// Port name.
    pub port: Option<String>,
    /// Baud rate.
    pub baud_rate: Option<u32>,
    /// Prepend timestamps in the log.
    pub timestamps: Option<bool>,
    /// Folder path to save logs.
    pub log_folder: Option<String>,
    /// Start a log as soon as capture starts.
    pub log_on_start: Option<bool>,
    /// Skip the welcome banner.
    pub disable_welcome: Option<bool>,
}

impl Default for Config {
    /// A configuration with nothing chosen.
    fn default() -> (r: Config)
        ensures
            r.port is None,
            r.baud_rate is None,
            r.timestamps is None,
            r.log_folder is None,
            r.log_on_start is None,
            r.disable_welcome is None,
    {
        Config {
            port: None,
            baud_rate: None,
            timestamps: None,
            log_folder: None,
            log_on_start: None,
            disable_welcome: None,
        }
    }
}

/// When the command-line arguments pass validation: a given port must be
/// among the available ones, a given baud rate must be standard, and a given
/// log folder must be an acceptable directory.
pub open spec fn args_acceptable(args: Args, ports: Seq<Seq<char>>, folder_facts: DirFacts) -> bool {
    &&& ((args.port is Some) ==> port_in_list(args.port->0@, ports))
    &&& ((args.baud_rate is Some) ==> is_standard_baud_rate(args.baud_rate->0))
    &&& ((args.log_folder is Some) ==> dir_acceptable(folder_facts))
}

/// How command-line arguments land on a configuration: a given value
/// overrides the file's, the two booleans always land, and the welcome flag
/// is the file's alone.
pub open spec fn merged_config(pre: Config, args: Args, post: Config) -> bool {
    &&& post.port == (if args.port is Some {
        args.port
    } else {
        pre.port
    })
    &&& post.baud_rate == (if args.baud_rate is Some {
        args.baud_rate
    } else {
        pre.baud_rate
    })
    &&& post.log_folder == (if args.log_folder is Some {
        args.log_folder
    } else {
        pre.log_folder
    })
    &&& post.timestamps == Some(args.timestamps)
    &&& post.log_on_start == Some(args.log_on_start)
    &&& post.disable_welcome == pre.disable_welcome
}

/// The error `use_args` reports for arguments that fail validation: the port
/// is checked first, then the baud rate, then the log folder.
pub open spec fn args_error(args: Args, ports: Seq<Seq<char>>, folder_facts: DirFacts, e: SpewcapError) -> bool {
    if (args.port is Some) && !port_in_list(args.port->0@, ports) {
        (e is InvalidPort) && e->InvalidPort_0@ == args.port->0@
    } else if (args.baud_rate is Some) && !is_standard_baud_rate(args.baud_rate->0) {
        e == SpewcapError::InvalidBaudRate(args.baud_rate->0)
    } else {
        (e is InvalidFilePath) && e->InvalidFilePath_0@ == args.log_folder->0@
    }
}

impl Config {
    /// Whether a port still has to be chosen interactively.
    pub fn needs_port(&self) -> (r: bool)
        ensures
            r == (self.port is None),
    {
        self.port.is_none()
    }

    /// Whether a baud rate still has to be chosen interactively.
    pub fn needs_baud_rate(&self) -> (r: bool)
        ensures
            r == (self.baud_rate is None),
    {
        self.baud_rate.is_none()
    }

    /// Lands the command-line arguments on this configuration: given values
    /// are validated and override the file's; on a validation failure the
    /// configuration is left as it was.
    pub fn use_args(
        &mut self,
        args: Args,
        available_ports: &Vec<String>,
        folder_facts: DirFacts,
    ) -> (r: Result<(), SpewcapError>)
        ensures
            (r is Ok) <==> args_acceptable(args, available_ports.deep_view(), folder_facts),
            (r is Ok) ==> merged_config(*old(self), args, *final(self)),
            (r is Err) ==> *final(self) == *old(self) && args_error(
                args,
                available_ports.deep_view(),
                folder_facts,
                r->Err_0,
            ),
    {
        let Args { port, baud_rate, timestamps, log_on_start, log_folder, list: _ } = args;
        if let Some(p) = &port {
            if let Err(e) = validate_port_name(p.as_str(), available_ports) {
                return Err(e);
            }
        }
        if let Some(b) = &baud_rate {
            if let Err(e) = validate_baud_rate(*b) {
                return Err(e);
            }
        }
        if let Some(f) = &log_folder {
            if let Err(e) = validate_directory_path(f.as_str(), folder_facts) {
                return Err(e);
            }
        }
        if port.is_some() {
            self.port = port;
        }
        if baud_rate.is_some() {
            self.baud_rate = baud_rate;
        }
        if log_folder.is_some() {
            self.log_folder = log_folder;
        }
        self.timestamps = Some(timestamps);
        self.log_on_start = Some(log_on_start);
        Ok(())
    }

    /// Fills the port and baud rate that are still missing from the values
    /// the interactive selectors produced; a missing value with no selection
    /// to fill it is an abandoned dialog.
    pub fn select_missing(
        &mut self,
        selected_port: Option<String>,
        selected_baud_rate: Option<u32>,
    ) -> (r: Result<(), SpewcapError>)
        ensures
            (old(self).port is Some) ==> final(self).port == old(self).port,
            ((old(self).port is None) && (selected_port is Some)) ==> final(self).port
                == selected_port,
            ((old(self).port is None) && (selected_port is None)) ==> {
                &&& (r is Err)
                &&& (r->Err_0 is Dialog)
                &&& *final(self) == *old(self)
            },
            final(self).timestamps == old(self).timestamps,
            final(self).log_folder == old(self).log_folder,
            final(self).log_on_start == old(self).log_on_start,
            final(self).disable_welcome == old(self).disable_welcome,
            !((old(self).port is None) && (selected_port is None)) ==> {
                let pre_baud = old(self).baud_rate;
                &&& ((pre_baud is Some) ==> final(self).baud_rate == pre_baud)
                &&& (((pre_baud is None) && (selected_baud_rate is Some)) ==> final(self).baud_rate == selected_baud_rate)
                &&& (((pre_baud is None) && (selected_baud_rate is None)) ==> {
                    &&& (r is Err)
                    &&& (r->Err_0 is Dialog)
                    &&& final(self).baud_rate == pre_baud
                })
            },
            (r is Ok) <==> (!((old(self).port is None) && (selected_port is None)) && !((old(self).baud_rate is None) && (selected_baud_rate is None))),
    {
        if self.port.is_none() {
            match selected_port {
                Some(p) => {
                    self.port = Some(p);
                },
                None => {
                    return Err(SpewcapError::Dialog(String::from_str("no serial port selected")));
                },
            }
        }
        if self.baud_rate.is_none() {
            match selected_baud_rate {
                Some(b) => {
                    self.baud_rate = Some(b);
                },
                None => {
                    return Err(SpewcapError::Dialog(String::from_str("no baud rate selected")));
                },
            }
        }
        Ok(())
    }
}

/// Merges the command-line arguments onto the loaded configuration, or onto
/// an empty one when no configuration file was found.
pub fn get_config(
    args: Args,
    loaded: Option<Config>,
    available_ports: &Vec<String>,
    folder_facts: DirFacts,
) -> (r: Result<Config, SpewcapError>)
    ensures
        (r is Ok) <==> args_acceptable(args, available_ports.deep_view(), folder_facts),
        ((r is Ok) && (loaded is Some)) ==> merged_config(loaded->0, args, r->Ok_0),
        ((r is Ok) && (loaded is None)) ==> {
            &&& r->Ok_0.port == args.port
            &&& r->Ok_0.baud_rate == args.baud_rate
            &&& r->Ok_0.log_folder == args.log_folder
            &&& r->Ok_0.timestamps == Some(args.timestamps)
            &&& r->Ok_0.log_on_start == Some(args.log_on_start)
            &&& r->Ok_0.disable_welcome is None
        },
        (r is Err) ==> args_error(args, available_ports.deep_view(), folder_facts, r->Err_0),
{
    let mut config = match loaded {
        Some(c) => c,
        None => Config::default(),
    };
    match config.use_args(args, available_ports, folder_facts) {
        Ok(()) => Ok(config),
        Err(e) => Err(e),
    }
}

/// The error `get_settings` reports, checking the port first, then the baud
/// rate, then the log folder.
pub open spec fn settings_error(config: Config, ports: Seq<Seq<char>>, folder_facts: DirFacts, e: SpewcapError) -> bool {
    if config.port is None {
        e is Settings
    } else if !port_in_list(config.port->0@, ports) {
        (e is InvalidPort) && e->InvalidPort_0@ == config.port->0@
    } else if config.baud_rate is None {
        e is Settings
    } else if !is_standard_baud_rate(config.baud_rate->0) {
        e == SpewcapError::InvalidBaudRate(config.baud_rate->0)
    } else {
        (e is InvalidFilePath) && e->InvalidFilePath_0@ == config.log_folder->0@
    }
}

/// When a configuration resolves to settings: port and baud rate are present
/// and valid, and the log folder, when given, is acceptable.
pub open spec fn config_resolvable(config: Config, ports: Seq<Seq<char>>, folder_facts: DirFacts) -> bool {
    &&& (config.port is Some)
    &&& port_in_list(config.port->0@, ports)
    &&& (config.baud_rate is Some)
    &&& is_standard_baud_rate(config.baud_rate->0)
    &&& ((config.log_folder is Some) ==> dir_acceptable(folder_facts))
}

/// The view of an optional borrowed string.
pub open spec fn opt_view(s: Option<&str>) -> Option<Seq<char>> {
    match s {
        Some(text) => Some(text@),
        None => None,
    }
}

/// How a port is described in a listing: its name alone, or, when a USB
/// manufacturer or product is known (a missing one reads `Unknown`), the name
/// followed by both.
pub open spec fn port_description_of(
    name: Seq<char>,
    manufacturer: Option<Seq<char>>,
    product: Option<Seq<char>>,
) -> Seq<char> {
    let m = if manufacturer is Some {
        manufacturer->0
    } else {
        "Unknown"@
    };
    let p = if product is Some {
        product->0
    } else {
        "Unknown"@
    };
    if m == "Unknown"@ && p == "Unknown"@ {
        "  "@ + name
    } else {
        "  "@ + name + " - "@ + m + " "@ + p
    }
}

/// Renders one line of the port listing.
pub fn port_description(
    port_name: &str,
    manufacturer: Option<&str>,
    product: Option<&str>,
) -> (r: String)
    ensures
        r@ == port_description_of(port_name@, opt_view(manufacturer), opt_view(product)),
{
    let unknown = String::from_str("Unknown");
    let m: String = match manufacturer {
        Some(text) => text.to_owned(),
        None => unknown.clone(),
    };
    let p: String = match product {
        Some(text) => text.to_owned(),
        None => unknown.clone(),
    };
    let mut description = String::from_str("  ");
    description.append(port_name);
    if m == unknown && p == unknown {
        proof {
            assert(description@ =~= port_description_of(
                port_name@,
                opt_view(manufacturer),
                opt_view(product),
            ));
        }
        description
    } else {
        description.append(" - ");
        description.append(m.as_str());
        description.append(" ");
        description.append(p.as_str());
        proof {
            assert(description@ =~= port_description_of(
                port_name@,
                opt_view(manufacturer),
                opt_view(product),
            ));
        }
        description
    }
}

/// Extracts and validates the final settings from a resolved configuration:
/// the port must name an available port, the baud rate must be standard, the
/// log folder, when given, must be an acceptable directory, and missing
/// timestamps default to off.
pub fn get_settings(
    config: &Config,
    available_ports: &Vec<String>,
    folder_facts: DirFacts,
) -> (r: Result<Settings, SpewcapError>)
    ensures
        (r is Ok) <==> config_resolvable(*config, available_ports.deep_view(), folder_facts),
        (r is Ok) ==> {
            &&& r->Ok_0.port@ == config.port->0@
            &&& r->Ok_0.baud_rate == config.baud_rate->0
            &&& r->Ok_0.timestamps == ((config.timestamps is Some) && config.timestamps->0)
            &&& ((r->Ok_0.log_folder is Some) <==> (config.log_folder is Some))
            &&& ((config.log_folder is Some) ==> r->Ok_0.log_folder->0@ == config.log_folder->0@)
        },
        (r is Err) ==> settings_error(*config, available_ports.deep_view(), folder_facts, r->Err_0),
{
    let port = match &config.port {
        Some(p) => {
            match validate_port_name(p.as_str(), available_ports) {
                Ok(valid) => valid,
                Err(e) => {
                    return Err(e);
                },
            }
        },
        None => {
            return Err(SpewcapError::Settings(String::from_str("could not set port")));
        },
    };
    let baud_rate = match &config.baud_rate {
        Some(b) => {
            match validate_baud_rate(*b) {
                Ok(valid) => valid,
                Err(e) => {
                    return Err(e);
                },
            }
        },
        None => {
            return Err(SpewcapError::Settings(String::from_str("could not set baud rate")));
        },
    };
    let timestamps = match &config.timestamps {
        Some(t) => *t,
        None => false,
    };
    let log_folder = match &config.log_folder {
        Some(f) => {
            match validate_directory_path(f.as_str(), folder_facts) {
                Ok(valid) => Some(valid),
                Err(e) => {
                    return Err(e);
                },
            }
        },
        None => None,
    };
    Ok(Settings { port, baud_rate, timestamps, log_folder })
}

} // verus!
