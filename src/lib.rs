//! A runtime x86-64 assembler: typed instruction emitters, labels with
//! deferred displacement patching, and the encoding rules they rest on.

/// Byte buffer with a cursor, a bookmark and in-place patching.
pub mod emitter;
/// General-purpose, vector, MMX, x87, segment, control and debug registers.
pub mod registers;
/// Immediates and the operands that are written out as displacements.
pub mod immediates;
/// Memory operands and memory offsets.
pub mod memory;
/// `REX`, `VEX`, `ModR/M` and `SIB`, as specifications and as byte builders.
pub mod encoding;
/// The instruction stream: cursor, labels, pending displacements, `finish`.
pub mod stream;
/// Prefix, opcode and operand emitters, and the generic instruction shapes.
pub mod encoder;
/// Typed mnemonic forms.
pub mod mnemonics;
/// Properties of the encoder and the label resolver.
pub mod laws;
