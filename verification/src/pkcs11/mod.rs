//! The PKCS#11 token backend, without the token.
//!
//! Nothing here talks to a token. Each operation is a chain of steps: a step
//! holds what to ask of the token next, and a method that takes the token's reply
//! and gives the following step or the result. Whoever holds the session performs
//! the requests in between; `H` is its type of object handles.
pub mod agreement;
pub mod cipher;
pub mod laws;
pub mod mechanism;
pub mod operation;
pub mod provider;
pub mod request;
pub mod session_laws;
pub mod token_laws;
