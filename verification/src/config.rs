//! Process configuration: plain values read from the environment by
//! the surrounding application.

use vstd::prelude::*;

verus! {

#[derive(Debug, Clone)]
pub struct Config {
    pub database_url: String,
    pub otlp_endpoint: Option<String>,
}

} // verus!
