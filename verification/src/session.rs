//! The session: the single live interpreter instance, owning the acting
//! identity and the model of the append-only activity log. Every executed
//! action appends exactly one record, so records appear in the log in
//! exactly the order their commands were issued.

use vstd::prelude::*;

use crate::command::FileOp;
use crate::record::{
    file_record, file_record_text, net_record, net_record_text, spawn_record, spawn_record_text,
};

verus! {

/// The live interpreter instance. `records` models the append-only log
/// stream: each element is one complete activity record, in the order it
/// was written.
pub struct Session {
    pub proc_id: u32,
    pub username: String,
    pub records: Vec<String>,
}

impl Session {
    /// A fresh session for the given acting identity, with nothing logged
    /// yet.
    pub fn new(proc_id: u32, username: String) -> (s: Session)
        ensures
            s.proc_id == proc_id,
            s.username == username,
            s.records@ == Seq::<String>::empty(),
    {
        Session { proc_id, username, records: Vec::new() }
    }

    /// Append the record for a spawned (and successfully created) child
    /// process. The record's process-name field carries the spawned
    /// program's name; its pid stays this session's own process id.
    pub fn log_spawn(&mut self, timestamp: &str, command_line: &str, program: &str) -> (rec:
        String)
        ensures
            rec@ == spawn_record_text(
                timestamp@,
                command_line@,
                old(self).proc_id,
                program@,
                old(self).username@,
            ),
            final(self).records@ == old(self).records@.push(rec),
            final(self).proc_id == old(self).proc_id,
            final(self).username == old(self).username,
    {
        let rec = spawn_record(
            timestamp,
            command_line,
            self.proc_id,
            program,
            self.username.as_str(),
        );
        let stored = rec.clone();
        self.records.push(stored);
        rec
    }

    /// Append the record for a successfully executed file operation.
    /// `path_debug` is the debug-formatted result of resolving the path to
    /// its canonical form.
    pub fn log_file(
        &mut self,
        timestamp: &str,
        command_line: &str,
        op: FileOp,
        path_debug: &str,
    ) -> (rec: String)
        ensures
            rec@ == file_record_text(
                timestamp@,
                command_line@,
                old(self).proc_id,
                old(self).username@,
                op,
                path_debug@,
            ),
            final(self).records@ == old(self).records@.push(rec),
            final(self).proc_id == old(self).proc_id,
            final(self).username == old(self).username,
    {
        let rec = file_record(
            timestamp,
            command_line,
            self.proc_id,
            self.username.as_str(),
            op,
            path_debug,
        );
        let stored = rec.clone();
        self.records.push(stored);
        rec
    }

    /// Append the record for a successfully sent UDP datagram.
    /// `bytes_sent` is the count the OS reported transmitted.
    pub fn log_net(
        &mut self,
        timestamp: &str,
        command_line: &str,
        src: &str,
        dst: &str,
        bytes_sent: usize,
    ) -> (rec: String)
        ensures
            rec@ == net_record_text(
                timestamp@,
                command_line@,
                old(self).proc_id,
                old(self).username@,
                src@,
                dst@,
                bytes_sent,
            ),
            final(self).records@ == old(self).records@.push(rec),
            final(self).proc_id == old(self).proc_id,
            final(self).username == old(self).username,
    {
        let rec = net_record(
            timestamp,
            command_line,
            self.proc_id,
            self.username.as_str(),
            src,
            dst,
            bytes_sent,
        );
        let stored = rec.clone();
        self.records.push(stored);
        rec
    }
}

/// The log model after appending each record of `recs` in turn, one at a
/// time, as each executed command does.
pub open spec fn push_all(log: Seq<String>, recs: Seq<String>) -> Seq<String>
    decreases recs.len(),
{
    if recs.len() == 0 {
        log
    } else {
        push_all(log.push(recs[0]), recs.drop_first())
    }
}

/// Record ordering is stable: appending one record per executed command
/// yields exactly the old log followed by those records, in issue order,
/// with no reordering and none dropped.
pub proof fn lemma_records_in_order(log: Seq<String>, recs: Seq<String>)
    ensures
        push_all(log, recs) == log + recs,
    decreases recs.len(),
{
    if recs.len() == 0 {
        assert(push_all(log, recs) =~= log + recs);
    } else {
        lemma_records_in_order(log.push(recs[0]), recs.drop_first());
        assert(log.push(recs[0]) + recs.drop_first() =~= log + recs);
    }
}

} // verus!
