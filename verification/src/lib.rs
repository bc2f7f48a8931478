//! Verified core of a key-value gateway: a bounded connection pool and the
//! write-then-read request that runs over it.
//!
//! Nothing here does I/O. [`pool`] keeps the books of the pool, [`checkout`]
//! takes one caller to a usable connection, [`session`] runs the write and the
//! read of one request, and [`pooled`] joins the three into a request over a
//! borrowed connection. Each of them says what the runtime around it has to
//! do next and takes back what came of it. [`backend`] is the boundary to the
//! client library of the backend, [`error`] holds the failures, and
//! [`guarantees`] holds what is proved of all of it.

pub mod backend;
pub mod checkout;
pub mod error;
pub mod guarantees;
pub mod pool;
pub mod pooled;
pub mod session;
