//! In-memory backend for a project/issue tracker: keyed entity stores with a
//! verified engine and lock-based concurrent wrappers, a credential store
//! hashing passwords with Argon2, and a token service issuing and checking
//! signed, time-bounded claims.

pub mod credentials;
pub mod errors;
pub mod external;
pub mod members;
pub mod models;
pub mod repos;
pub mod store;
pub mod token;
pub mod usecases;
