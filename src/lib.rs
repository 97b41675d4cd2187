pub mod assembler;
pub mod bits;
pub mod bridge;
pub mod codec;
pub mod command;
pub mod home_assistant;
pub mod inputs;
pub mod labels;
pub mod message;
pub mod register;
pub mod rmw;
pub mod serial;
pub mod session;
pub mod text;
