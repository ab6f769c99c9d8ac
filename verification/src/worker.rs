//! The record kept of one provisioned server.
use vstd::prelude::*;

verus! {

/// One provisioned server, as a store of workers would keep it: the
/// container it runs in, where its data lives and the port it answers on.
#[derive(Debug)]
pub struct MCWorker {
    id: u32,
    name: String,
    container: String,
    volume: String,
    status: String,
    port: u32,
}

} // verus!
