//! Environment settings: plain values read from the process
//! environment by the surrounding application.

use vstd::prelude::*;

verus! {

#[derive(Debug, Clone)]
pub struct Environment {
    pub database_url: String,
    pub otlp_endpoint: Option<String>,
}

} // verus!
