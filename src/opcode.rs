pub mod arithmatic;
pub mod cb;
pub mod control;
pub mod jump;
pub mod load;
pub mod opcode;
