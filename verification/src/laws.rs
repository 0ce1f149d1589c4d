//! What the library is for, stated of its operations as a whole.
//!
//! The statements here speak of the inputs and the results alone, in literal terms, so that they
//! can be read without the definitions that the operations themselves are stated with.

pub mod credentials;
pub mod driver;
pub mod errors;
pub mod exchange;
pub mod flow;
pub mod interfaces;
pub mod manager;
pub mod networks;
pub mod operation;
pub mod responder;
pub mod storage;
pub mod texts;
