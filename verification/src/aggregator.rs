use vstd::prelude::*;
use std::sync::mpsc::{Receiver, Sender};
use crate::channel::{clone_sender, new_channel, recv_msg, send_msg};
use crate::handle::TableHandle;
use crate::parsed_packet::ParsedPacket;

verus! {

/// The submitting side of flow aggregation: it owns a sender into the
/// fold worker's queue and a handle on the shared flow table.  Clones
/// submit to the same worker and read the same table.
pub struct Aggregator {
    tx: Sender<ParsedPacket>,
    aggregated_data: TableHandle,
}

/// The folding side: the sole writer of the flow table.  It is meant to
/// be driven in a loop on a thread of its own and stops when every
/// sender into its queue is gone.
pub struct FoldWorker {
    rx: Receiver<ParsedPacket>,
    table: TableHandle,
}

impl Aggregator {
    /// The table this aggregator's records are folded into.
    pub closed spec fn data_spec(&self) -> TableHandle {
        self.aggregated_data
    }

    /// A fresh aggregator over an empty table, and the fold worker wired
    /// to it.  The worker reads the queue this aggregator submits to and
    /// writes the table this aggregator hands out.
    pub fn new() -> (r: (Aggregator, FoldWorker))
        ensures
            r.0.data_spec() == r.1.data_spec(),
    {
        let (tx, rx) = new_channel();
        let table = TableHandle::new();
        let worker_table = table.clone();
        (Aggregator { tx, aggregated_data: table }, FoldWorker { rx, table: worker_table })
    }

    /// Queues one record for folding.  Never blocks; a record submitted
    /// after the fold worker is gone is dropped.
    pub fn send(&self, packet: ParsedPacket) {
        send_msg(&self.tx, packet);
    }

    /// The shared flow table, for concurrent readers.
    pub fn get_aggregated_data(&self) -> (r: TableHandle)
        ensures
            r == self.data_spec(),
    {
        self.aggregated_data.clone()
    }

    /// Another sender into the fold worker's queue, for further
    /// producers.
    pub fn get_sender(&self) -> Sender<ParsedPacket> {
        clone_sender(&self.tx)
    }
}

impl Clone for Aggregator {
    /// Another submitting handle on the same worker and table.
    fn clone(&self) -> (r: Aggregator)
        ensures
            r.data_spec() == self.data_spec(),
    {
        Aggregator { tx: clone_sender(&self.tx), aggregated_data: self.aggregated_data.clone() }
    }
}

/// Hands one record to whatever fold worker listens on `tx`.  False means
/// the receiving side is gone and the record was dropped: for a parser
/// worker, the signal to stop.
pub fn forward_record(tx: &Sender<ParsedPacket>, p: ParsedPacket) -> (delivered: bool) {
    match send_msg(tx, p) {
        None => true,
        Some(_) => false,
    }
}

impl FoldWorker {
    /// The table this worker folds into.
    pub closed spec fn data_spec(&self) -> TableHandle {
        self.table
    }

    /// One worker step: blocks for the next record and folds it into the
    /// shared table under the write lock.  False means the queue is empty
    /// and every sender is gone: the worker's natural end.
    pub fn step(&self) -> (more: bool) {
        match recv_msg(&self.rx) {
            Some(p) => {
                self.table.fold_record(p);
                true
            },
            None => false,
        }
    }
}

} // verus!
