//! Stub compiler for service interfaces: configuration parsing, interface
//! normalisation and rendering of request/response glue, with machine-checked
//! contracts.
//!
//! An interface is declared as a trait and is of one of four kinds. For each
//! kind a function of this crate compiles the text of a configuration block
//! and the text of a declaration into the source of the request union, the
//! binding around an implementation object, and the stub that marshals calls.

pub mod compile;
pub mod config;
pub mod generate;
pub mod interface;
pub mod naming;
pub mod render;
pub mod syntax;
pub mod util;

use vstd::prelude::*;
use crate::compile::{
    compile_source, compiled_source, source_result, CompileError,
};
use crate::interface::Kind;
use crate::render::Sides;
use crate::syntax::{attribute_syntax, trait_syntax};

verus! {

/// Compiles an interface whose methods return values to their callers. A
/// server may hold many of them, each bound to a named object.
pub fn invoke_interface(attr: &str, input: &str, sides: Sides) -> (r: Result<String, CompileError>)
    ensures
        source_result(r) == compiled_source(
            Kind::Invoke,
            attribute_syntax(attr@),
            trait_syntax(input@),
            sides,
        ),
{
    compile_source(Kind::Invoke, attr, input, sides)
}

/// Compiles the interface through which clients inspect a server. It is an
/// invoke interface without call context, persistency and callbacks.
pub fn watch_interface(attr: &str, input: &str, sides: Sides) -> (r: Result<String, CompileError>)
    ensures
        source_result(r) == compiled_source(
            Kind::Watch,
            attribute_syntax(attr@),
            trait_syntax(input@),
            sides,
        ),
{
    compile_source(Kind::Watch, attr, input, sides)
}

/// Compiles an interface through which clients report to a server. Its
/// methods return nothing.
pub fn report_interface(attr: &str, input: &str, sides: Sides) -> (r: Result<String, CompileError>)
    ensures
        source_result(r) == compiled_source(
            Kind::Report,
            attribute_syntax(attr@),
            trait_syntax(input@),
            sides,
        ),
{
    compile_source(Kind::Report, attr, input, sides)
}

/// Compiles the interface through which a server notifies its clients. Its
/// methods return nothing.
pub fn notify_interface(attr: &str, input: &str, sides: Sides) -> (r: Result<String, CompileError>)
    ensures
        source_result(r) == compiled_source(
            Kind::Notify,
            attribute_syntax(attr@),
            trait_syntax(input@),
            sides,
        ),
{
    compile_source(Kind::Notify, attr, input, sides)
}

} // verus!
