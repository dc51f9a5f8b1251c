//! A transpiler for a small stack-based golfing language whose programs are
//! turned into JavaScript, together with the template language its builtins
//! are written in.

pub mod text;
pub mod template;
pub mod varnames;
pub mod output_writer;
pub mod dsl;
pub mod language;
