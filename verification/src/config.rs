//! What a session is asked to do, and how that is read from the command line.

use crate::decimal::{parse_u32, parsed_u32};
use crate::error::Error;
use vstd::prelude::*;

verus! {

/// The values of the command-line options, each as it was given or absent.
#[derive(Clone, Debug, PartialEq, Eq)]
pub struct Arguments {
    pub search: Option<String>,
    pub list: Option<String>,
    pub port: Option<String>,
    pub source_dir: Option<String>,
    pub target_dir: Option<String>,
}

/// The mathematical value of [`Arguments`].
#[verifier::ext_equal]
pub struct ArgumentsView {
    pub search: Option<Seq<char>>,
    pub list: Option<Seq<char>>,
    pub port: Option<Seq<char>>,
    pub source_dir: Option<Seq<char>>,
    pub target_dir: Option<Seq<char>>,
}

impl View for Arguments {
    type V = ArgumentsView;

    open spec fn view(&self) -> ArgumentsView {
        ArgumentsView {
            search: self.search.deep_view(),
            list: self.list.deep_view(),
            port: self.port.deep_view(),
            source_dir: self.source_dir.deep_view(),
            target_dir: self.target_dir.deep_view(),
        }
    }
}

/// What to resolve, where the service listens, and the two directories.
///
/// Nothing is required of the two selectors here: a configuration may hold
/// both or neither. A session asks for the one it uses when it starts.
#[derive(Clone, Debug, PartialEq, Eq)]
pub struct Config {
    pub search_term: Option<String>,
    pub list_id: Option<u32>,
    pub port: u32,
    pub source_dir: String,
    pub target_dir: String,
}

/// The mathematical value of a [`Config`].
#[verifier::ext_equal]
pub struct ConfigView {
    pub search_term: Option<Seq<char>>,
    pub list_id: Option<u32>,
    pub port: u32,
    pub source_dir: Seq<char>,
    pub target_dir: Seq<char>,
}

impl View for Config {
    type V = ConfigView;

    open spec fn view(&self) -> ConfigView {
        ConfigView {
            search_term: self.search_term.deep_view(),
            list_id: self.list_id,
            port: self.port,
            source_dir: self.source_dir@,
            target_dir: self.target_dir@,
        }
    }
}

/// The source directory where none is given: the empty path.
pub open spec fn default_source_dir() -> Seq<char> {
    ""@
}

/// The target directory where none is given.
pub open spec fn default_target_dir() -> Seq<char> {
    "/tmp/flash-cli"@
}

/// The list id that the option's value stands for, if it is a number.
pub open spec fn numeric(value: Option<Seq<char>>) -> Option<u32> {
    match value {
        Some(text) => parsed_u32(text),
        None => None,
    }
}

/// The configuration that `arguments` stand for, or why they stand for none.
///
/// The port is looked at first: it must be there and be a number. Then a
/// selector must be there: a search term, or a list id that is a number. A
/// list id that is no number counts as absent. Where both selectors are
/// given both are kept. A directory that is not given takes its default.
pub open spec fn resolved(arguments: ArgumentsView) -> Result<ConfigView, Error> {
    if arguments.port is None {
        Err(Error::MissingPort)
    } else if parsed_u32(arguments.port->0) is None {
        Err(Error::InvalidPort)
    } else if arguments.search is None && numeric(arguments.list) is None {
        Err(Error::MissingSelector)
    } else {
        Ok(
            ConfigView {
                search_term: arguments.search,
                list_id: numeric(arguments.list),
                port: parsed_u32(arguments.port->0)->0,
                source_dir: match arguments.source_dir {
                    Some(dir) => dir,
                    None => default_source_dir(),
                },
                target_dir: match arguments.target_dir {
                    Some(dir) => dir,
                    None => default_target_dir(),
                },
            },
        )
    }
}

impl Config {
    /// Validates the command-line options and fills in the defaults.
    pub fn from_arguments(arguments: Arguments) -> (config: Result<Config, Error>)
        ensures
            match config {
                Ok(config) => resolved(arguments@) == Ok::<ConfigView, Error>(config@),
                Err(error) => resolved(arguments@) == Err::<ConfigView, Error>(error),
            },
    {
        let port: u32 = match &arguments.port {
            None => {
                return Err(Error::MissingPort);
            },
            Some(text) => match parse_u32(text.as_str()) {
                None => {
                    return Err(Error::InvalidPort);
                },
                Some(port) => port,
            },
        };
        let list_id: Option<u32> = match &arguments.list {
            Some(text) => parse_u32(text.as_str()),
            None => None,
        };
        if arguments.search.is_none() && list_id.is_none() {
            return Err(Error::MissingSelector);
        }
        let source_dir = match arguments.source_dir {
            Some(dir) => dir,
            None => "".to_owned(),
        };
        let target_dir = match arguments.target_dir {
            Some(dir) => dir,
            None => "/tmp/flash-cli".to_owned(),
        };
        let config = Config {
            search_term: arguments.search,
            list_id,
            port,
            source_dir,
            target_dir,
        };
        Ok(config)
    }
}

} // verus!
