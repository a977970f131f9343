use vstd::prelude::*;

verus! {

/// Why the server's settings could not be had.
#[derive(Clone, Copy, Debug, PartialEq, Eq, Structural)]
pub enum ConfigLoadError {
    CannotAccessFile,
    InavlidConfig,
}

/// The server's settings: whether it serves the static client files, and the origin
/// allowed to call it from a browser, if any.
#[derive(Clone, Debug)]
pub struct Config {
    pub host_static: bool,
    pub cors_origin: Option<String>,
}

} // verus!
