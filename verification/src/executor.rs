//! Transaction isolation levels.
//!
//! The asynchronous execution layer (connection pools, transactions and the
//! drivers behind them) lives outside this library; rendered SQL and
//! parameter lists are handed to it as plain values. The isolation level is
//! the one piece of that interface the renderer computes text for.

use vstd::prelude::*;

verus! {

/// Transaction isolation levels.
#[derive(Debug, Clone, Copy, PartialEq, Eq)]
pub enum IsolationLevel {
    ReadUncommitted,
    ReadCommitted,
    RepeatableRead,
    Serializable,
}

/// The SQL keyword an isolation level renders to.
pub open spec fn isolation_text(l: IsolationLevel) -> Seq<char> {
    match l {
        IsolationLevel::ReadUncommitted => "READ UNCOMMITTED"@,
        IsolationLevel::ReadCommitted => "READ COMMITTED"@,
        IsolationLevel::RepeatableRead => "REPEATABLE READ"@,
        IsolationLevel::Serializable => "SERIALIZABLE"@,
    }
}

impl IsolationLevel {
    /// The SQL text used in `SET TRANSACTION ISOLATION LEVEL <text>`.
    pub fn to_sql(&self) -> (r: &'static str)
        ensures
            r@ == isolation_text(*self),
    {
        match self {
            IsolationLevel::ReadUncommitted => "READ UNCOMMITTED",
            IsolationLevel::ReadCommitted => "READ COMMITTED",
            IsolationLevel::RepeatableRead => "REPEATABLE READ",
            IsolationLevel::Serializable => "SERIALIZABLE",
        }
    }
}

} // verus!
