pub mod arith;
pub mod arena;
pub mod bytes;
pub mod chunk;
pub mod compiler;
pub mod disassemble;
pub mod function;
pub mod opcode;
pub mod numtext;
pub mod parse_rule;
pub mod logging;
pub mod native;
pub mod parser;
pub mod precedence;
pub mod scanner;
pub mod scope;
pub mod token;
pub mod upvalue;
pub mod validator;
pub mod vm;
pub mod weave_string;
pub mod value;

pub use value::NanBoxedValue;
pub use value::PointerTag;
