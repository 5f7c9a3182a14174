//! The process entry point's command shape: one of three subcommands.

use vstd::prelude::*;

verus! {

#[derive(Debug, Clone, Copy, PartialEq, Eq, Structural)]
pub enum Commands {
    HttpServer { port: u16 },
    GrpcServer { port: u16 },
    Migrate,
}

#[derive(Debug, Clone, Copy, PartialEq, Eq, Structural)]
pub struct Cli {
    pub command: Commands,
}

} // verus!
