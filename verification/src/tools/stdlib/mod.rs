//! Standard library tools.
pub mod advanced_math;
pub mod arrays;
pub mod bit_operations;
pub mod characters;
pub mod clos_advanced;
pub mod compiler_eval;
pub mod conditions;
pub mod control_flow_extended;
pub mod documentation;
pub mod environment;
pub mod format;
pub mod hash_tables;
pub mod introspection;
pub mod io_basic;
pub mod io_extended;
pub mod lists_advanced;
pub mod llm;
pub mod loop_advanced;
pub mod loop_full;
pub mod loop_utilities;
pub mod method_combinations;
pub mod multiple_values;
pub mod network;
pub mod numeric;
pub mod objects;
pub mod packages;
pub mod parsing;
pub mod pathnames;
pub mod printer_control;
pub mod random_extended;
pub mod reader_control;
pub mod reader_printer;
pub mod sequences_advanced;
pub mod statistics;
pub mod streams;
pub mod strings;
use vstd::prelude::*;

use crate::tools::ToolRegistry;

verus! {

/// Register all standard library tools.
///
/// Every standard tool stays unregistered: the interpreter provides these
/// operations as built-ins, and the registry is kept for tools that reach
/// outside systems. The registry is left as it was.
pub fn register_all(registry: &mut ToolRegistry)
    ensures
        *final(registry) == *old(registry),
{
    let _ = registry;
}

} // verus!
