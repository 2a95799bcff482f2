pub mod env;
pub mod err;
pub mod instruction;
pub mod memloc;
pub mod program;
pub mod text;
pub mod vm;
pub mod vobj;
