use vstd::prelude::*;
use vstd::rwlock::RwLock;
use std::sync::Arc;
use crate::handle::clone_arc;
use crate::control::{Command, ControlLink, ControlPoint, control_line};
use crate::handle::{AnyPred, TableHandle};
use crate::report_entry::{Connection, ConnectionMetadata};
use crate::table::{EntryView, FlowTable};
use crate::text::dec_digits;

verus! {

/// A port as the report prints it: its numeral, or a dash where the
/// transport has no ports.
pub open spec fn port_text(p: Option<int>) -> Seq<char> {
    match p {
        Some(x) => dec_digits(x),
        None => "-"@,
    }
}

/// One table row as the report prints it.
pub open spec fn row_text(e: EntryView) -> Seq<char> {
    "| "@ + e.0.source_ip + " | "@ + e.0.destination_ip + " | "@ + port_text(e.0.source_port)
        + " | "@ + port_text(e.0.destination_port) + " | "@ + e.0.protocol + " | "@ + dec_digits(
        e.1.size,
    ) + " | "@ + e.1.first_timestamp + " | "@ + e.1.last_timestamp + " |\n"@
}

/// The rows of a table, in table order.
pub open spec fn rows_text(s: Seq<EntryView>) -> Seq<char>
    decreases s.len(),
{
    if s.len() == 0 {
        Seq::empty()
    } else {
        rows_text(s.drop_last()) + row_text(s.last())
    }
}

pub open spec fn header_text() -> Seq<char> {
    "| Src IP address | Dst IP address | Src port | Dst port | Protocol | Bytes | First timestamp | Last timestamp |\n"@
        + "| :---: | :---: | :---: | :---: | :---: | :---: | :---: | :---: |\n"@
}

/// The whole report: a descriptive header, then one row per connection.
pub open spec fn report_text(s: Seq<EntryView>) -> Seq<char> {
    header_text() + rows_text(s)
}

fn port_text_x(p: &Option<usize>) -> (s: String)
    ensures
        s@ == port_text(crate::parsed_packet::port_view(*p)),
{
    match p {
        Some(x) => crate::text::usize_text(*x),
        None => String::from_str("-"),
    }
}

fn render_row(c: &Connection, m: &ConnectionMetadata) -> (s: String)
    ensures
        s@ == row_text((c@, m@)),
{
    let mut s = String::from_str("| ");
    s.append(c.source_ip.as_str());
    s.append(" | ");
    s.append(c.destination_ip.as_str());
    s.append(" | ");
    let sp = port_text_x(&c.source_port);
    s.append(sp.as_str());
    s.append(" | ");
    let dp = port_text_x(&c.destination_port);
    s.append(dp.as_str());
    s.append(" | ");
    s.append(c.protocol.as_str());
    s.append(" | ");
    let bytes = crate::text::usize_text(m.size);
    s.append(bytes.as_str());
    s.append(" | ");
    s.append(m.first_timestamp.as_str());
    s.append(" | ");
    s.append(m.last_timestamp.as_str());
    s.append(" |\n");
    proof {
        assert(s@ =~= row_text((c@, m@)));
    }
    s
}

/// Renders a table as the report file's text: the header, then one row
/// per connection, in table order.
pub fn render_report(t: &FlowTable) -> (s: String)
    ensures
        s@ == report_text(t@),
{
    let mut s = String::from_str(
        "| Src IP address | Dst IP address | Src port | Dst port | Protocol | Bytes | First timestamp | Last timestamp |\n",
    );
    s.append("| :---: | :---: | :---: | :---: | :---: | :---: | :---: | :---: |\n");
    let n = t.len();
    let mut i: usize = 0;
    while i < n
        invariant
            n == t@.len(),
            i <= n,
            s@ == header_text() + rows_text(t@.take(i as int)),
        decreases n - i,
    {
        let e = t.entry_at(i);
        let row = render_row(&e.0, &e.1);
        s.append(row.as_str());
        proof {
            let next = t@.take(i as int + 1);
            assert(next.drop_last() =~= t@.take(i as int));
            assert(next.last() == t@[i as int]);
            assert(s@ =~= header_text() + rows_text(next));
        }
        i += 1;
    }
    proof {
        assert(t@.take(n as int) =~= t@);
    }
    s
}

/// Where a report named `filename` is written: under the fixed reports
/// directory, as markdown.
pub fn report_file_path(filename: &str) -> (s: String)
    ensures
        s@ == "report/"@ + filename@ + ".md"@,
{
    let mut s = String::from_str("report/");
    s.append(filename);
    s.append(".md");
    proof {
        assert(s@ =~= "report/"@ + filename@ + ".md"@);
    }
    s
}

/// The owning side of periodic report writing: the destination path and
/// the interval, both changeable at run time, a handle on the shared
/// flow table, and the worker's command line.  Clones steer the same
/// worker.
pub struct ReportWriter {
    report_path: Arc<RwLock<String, AnyPred>>,
    rewrite_time: Arc<RwLock<u64, AnyPred>>,
    aggregated_data: TableHandle,
    link: ControlLink,
}

/// The worker's side of periodic report writing, driven in a loop on a
/// thread of its own: check the command, read the interval, sleep, and
/// only if still proceeding render a snapshot for the current
/// destination.
pub struct ReportCycle {
    point: ControlPoint,
    report_path: Arc<RwLock<String, AnyPred>>,
    rewrite_time: Arc<RwLock<u64, AnyPred>>,
    aggregated_data: TableHandle,
}

impl ReportWriter {
    /// The table this writer reports on.
    pub closed spec fn data_spec(&self) -> TableHandle {
        self.aggregated_data
    }

    /// A writer over the given destination name, interval and table,
    /// and the worker wired to it, which starts out proceeding.
    pub fn new(report_path: String, rewrite_time: u64, aggregated_data: TableHandle) -> (r: (
        ReportWriter,
        ReportCycle,
    ))
        ensures
            r.0.data_spec() == aggregated_data,
            r.1.data_spec() == aggregated_data,
            r.1.current() is Proceed,
    {
        let (link, point) = control_line();
        let path_cell = Arc::new(RwLock::new(report_path, Ghost(AnyPred)));
        let time_cell = Arc::new(RwLock::new(rewrite_time, Ghost(AnyPred)));
        let writer = ReportWriter {
            report_path: clone_arc(&path_cell),
            rewrite_time: clone_arc(&time_cell),
            aggregated_data: aggregated_data.clone(),
            link,
        };
        let cycle = ReportCycle {
            point,
            report_path: path_cell,
            rewrite_time: time_cell,
            aggregated_data,
        };
        (writer, cycle)
    }

    /// Asks the worker to hold at its next checkpoint.  Never blocks,
    /// idempotent; a cycle already sleeping finishes its sleep first and
    /// then skips its write.
    pub fn pause(&self) {
        self.link.pause();
    }

    /// Asks the worker to go on writing.  Never blocks, idempotent.
    pub fn resume(&self) {
        self.link.resume();
    }

    /// Stops the worker for good.  Never blocks; no later resume undoes
    /// it.
    pub fn exit(&self) {
        self.link.terminate();
    }

    /// Changes the interval; it takes effect with the next sleep cycle
    /// and never touches an in-flight write.
    pub fn set_rewrite_time(&self, rewrite_time: u64) {
        let (_, handle) = self.rewrite_time.acquire_write();
        handle.release_write(rewrite_time);
    }

    /// The interval as currently set.
    pub fn get_rewrite_time(&self) -> u64 {
        let handle = self.rewrite_time.acquire_read();
        let t = *handle.borrow();
        handle.release_read();
        t
    }

    /// The shared flow table this writer reports on.
    pub fn get_aggregated_data(&self) -> (r: TableHandle)
        ensures
            r == self.data_spec(),
    {
        self.aggregated_data.clone()
    }

    /// Changes the destination name; it takes effect with the next
    /// write.
    pub fn set_report_path(&self, new_report_path: String) {
        let (_, handle) = self.report_path.acquire_write();
        handle.release_write(new_report_path);
    }

    /// The destination name as currently set.
    pub fn get_report_path(&self) -> String {
        let handle = self.report_path.acquire_read();
        let p = handle.borrow().clone();
        handle.release_read();
        p
    }
}

impl Clone for ReportWriter {
    /// Another handle steering the same worker over the same cells.
    fn clone(&self) -> (r: ReportWriter)
        ensures
            r.data_spec() == self.data_spec(),
    {
        ReportWriter {
            report_path: clone_arc(&self.report_path),
            rewrite_time: clone_arc(&self.rewrite_time),
            aggregated_data: self.aggregated_data.clone(),
            link: self.link.clone(),
        }
    }
}

impl ReportCycle {
    /// The command state last settled on.
    pub closed spec fn current(&self) -> Command {
        self.point.current()
    }

    /// The table this cycle snapshots.
    pub closed spec fn data_spec(&self) -> TableHandle {
        self.aggregated_data
    }

    /// One non-blocking checkpoint step; `Exiting`, once settled on, is
    /// final.
    pub fn poll(&mut self) -> (c: Command)
        ensures
            c == final(self).current(),
            old(self).current() is Exiting ==> c is Exiting,
    {
        self.point.poll()
    }

    /// One blocking checkpoint step, for waiting out a pause; `Exiting`,
    /// once settled on, is final.
    pub fn wait_next(&mut self) -> (c: Command)
        ensures
            c == final(self).current(),
            old(self).current() is Exiting ==> c is Exiting,
    {
        self.point.wait_next()
    }

    /// The interval to sleep before the next write, read at the cycle's
    /// start.
    pub fn interval(&self) -> u64 {
        let handle = self.rewrite_time.acquire_read();
        let t = *handle.borrow();
        handle.release_read();
        t
    }

    /// The cycle's end, after the sleep: absorbs at most one pending
    /// command, and exactly when the worker still proceeds, snapshots
    /// the shared table and renders it — the destination name as
    /// currently set, and the report text of a well-formed table.  When
    /// the state changed while sleeping, no text is rendered and the
    /// write is skipped without error.
    pub fn finish_cycle(&mut self) -> (r: Option<(String, String)>)
        ensures
            r is Some <==> final(self).current() is Proceed,
            r matches Some(pr) ==> exists|t: FlowTable|
                #[trigger] t.wf() && pr.1@ == report_text(t@),
    {
        let c = self.point.poll();
        match c {
            Command::Proceed => {
                let handle = self.report_path.acquire_read();
                let path = handle.borrow().clone();
                handle.release_read();
                let snapshot = self.aggregated_data.snapshot();
                let text = render_report(&snapshot);
                proof {
                    assert(snapshot.wf() && text@ == report_text(snapshot@));
                }
                Some((path, text))
            },
            _ => None,
        }
    }
}

} // verus!
