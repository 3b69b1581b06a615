//! A minimal 32-bit x86 CPU: registers, flags, a flat memory and an
//! instruction pointer, with a ModRM decoder, an opcode dispatch table and a
//! fetch-decode-execute loop.
pub mod machine;
pub mod emulator;
pub mod modrm;
pub mod function;
pub mod instruction;
pub mod dispatch;
