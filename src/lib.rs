//! Function-translation decisions of a WebAssembly compiler: what a
//! translator emits for memory, table, call, global and interruption
//! operators, stated over plain values and checked against the runtime
//! behaviour of the emitted code.
pub mod memory;
pub mod table;
pub mod externref;
pub mod fuel;
pub mod epoch;
pub mod call;
pub mod builtins;
pub mod global;
pub mod env;
pub mod ir;
pub mod emit;
