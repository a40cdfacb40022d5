//! Disassembly of compiled class files.
//!
//! The core is a decoder that turns the raw instruction bytes of a method
//! into a sequence of instruction records ([`decoder`], [`stream`]), and a
//! resolver that replaces the raw operands of each record by their symbolic
//! form, read from the constant pool of the owning class ([`resolver`]).
//! Both together give the listing of a method ([`listing`]). Around it
//! stand the settings and the assembly of the listing of a class ([`cmd`]),
//! and the helpers of the managed runtime that the tools share: strings as
//! objects ([`util`]) and the native methods of a few classes ([`native`]).

pub mod bytes;
pub mod cmd;
pub mod constant_pool;
pub mod debug_info;
pub mod decoder;
pub mod instruction;
pub mod listing;
pub mod misc;
pub mod native;
pub mod oop;
pub mod opcode;
pub mod resolver;
pub mod sd;
pub mod stream;
pub mod text;
pub mod trans;
pub mod util;
