//! The statements that a worker sends to the store.
use vstd::prelude::*;

verus! {

/// The statement that subscribes a connection to `channel`.
pub open spec fn listen_sql(channel: Seq<char>) -> Seq<char> {
    "LISTEN "@ + channel
}

/// The statement that publishes its first parameter on `channel`.
pub open spec fn notify_sql(channel: Seq<char>) -> Seq<char> {
    "SELECT pg_notify('"@ + channel + "', $1)"@
}

pub fn listen_statement(channel: &str) -> (r: String)
    ensures
        r@ == listen_sql(channel@),
{
    String::from_str("LISTEN ").concat(channel)
}

pub fn notify_statement(channel: &str) -> (r: String)
    ensures
        r@ == notify_sql(channel@),
{
    String::from_str("SELECT pg_notify('").concat(channel).concat("', $1)")
}

} // verus!
