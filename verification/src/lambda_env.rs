//! Configuration a serverless runtime hands the process through its
//! environment.  Reading the variables is the surrounding process's work;
//! the completeness rule lives here.

use vstd::prelude::*;

verus! {

/// The runtime configuration, every part of it optional.
#[derive(Debug)]
pub struct LambdaEnv {
    /// The name of the function.
    pub function_name: Option<String>,
    /// The amount of memory available to the function in MB.
    pub memory: Option<i32>,
    /// The version of the function being executed.
    pub version: Option<String>,
    /// The name of the log stream of the function.
    pub log_stream: Option<String>,
    /// The name of the log group of the function.
    pub log_group: Option<String>,
}

impl LambdaEnv {
    /// Assemble the configuration from the raw variable values.  Without
    /// a function name there is no such runtime at all, and the whole
    /// configuration is absent.
    pub fn from_parts(
        function_name: Option<String>,
        memory: Option<i32>,
        version: Option<String>,
        log_stream: Option<String>,
        log_group: Option<String>,
    ) -> (r: Option<LambdaEnv>)
        ensures
            function_name is None ==> r is None,
            function_name is Some ==> (r matches Some(e) && e.function_name == function_name
                && e.memory == memory && e.version == version && e.log_stream == log_stream
                && e.log_group == log_group),
    {
        if function_name.is_none() {
            return None;
        }
        Some(LambdaEnv { function_name, memory, version, log_stream, log_group })
    }
}

} // verus!
