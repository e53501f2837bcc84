//! State machines of the protection domains that run on a sovereign node.
pub mod axon_exec;
pub mod broker;
pub mod canvas;
pub mod console;
pub mod desktop;
pub mod edisondb;
pub mod onyxia;
pub mod phoenix_init;
pub mod repl;
pub mod shell;
pub mod stack;
pub mod watchdog;
