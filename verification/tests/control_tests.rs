use network_analyzer::control::{control_line, Command};
use network_analyzer::handle::TableHandle;
use network_analyzer::parsed_packet::ParsedPacket;
use network_analyzer::report_entry::Connection;
use network_analyzer::report_writer::{report_file_path, render_report, ReportWriter};
use network_analyzer::table::FlowTable;

fn sample_packet(ts: &str, size: usize) -> ParsedPacket {
    ParsedPacket::new(
        ts.to_string(),
        "127.0.0.1".to_string(),
        "128.0.0.2".to_string(),
        Some(62911),
        Some(80),
        "TCP".to_string(),
        size,
    )
}

#[test]
fn pause_twice_equals_pause_once() {
    let (link, mut point) = control_line();
    assert_eq!(point.state(), Command::Proceed);
    link.pause();
    link.pause();
    assert_eq!(point.poll(), Command::Paused);
    assert_eq!(point.poll(), Command::Paused);
    assert_eq!(point.poll(), Command::Paused); // nothing pending: state stands
    link.resume();
    assert_eq!(point.wait_next(), Command::Proceed);
}

#[test]
fn terminate_is_final_even_after_resume() {
    let (link, mut point) = control_line();
    link.terminate();
    link.resume();
    assert_eq!(point.poll(), Command::Exiting);
    assert_eq!(point.poll(), Command::Exiting); // the later resume is absorbed, Exiting stands
    assert_eq!(point.poll(), Command::Exiting);
}

#[test]
fn dropping_every_link_reads_as_exiting() {
    let (link, mut point) = control_line();
    let other = link.clone();
    drop(link);
    drop(other);
    assert_eq!(point.poll(), Command::Exiting);
}

#[test]
fn report_cycle_skips_while_paused_and_stops_on_exit() {
    let table = TableHandle::new();
    let (writer, mut cycle) = ReportWriter::new("flows".to_string(), 5, table.clone());
    assert_eq!(cycle.poll(), Command::Proceed);
    let produced = cycle.finish_cycle();
    assert!(produced.is_some());

    writer.pause();
    assert_eq!(cycle.poll(), Command::Paused);
    assert!(cycle.finish_cycle().is_none()); // paused: the write is skipped without error

    writer.resume();
    assert_eq!(cycle.wait_next(), Command::Proceed);
    table.fold_record(sample_packet("1667775485", 64));
    let (path, text) = cycle.finish_cycle().unwrap();
    assert_eq!(path, "flows");
    assert!(text.starts_with("| Src IP address"));
    assert!(text.contains("| 127.0.0.1 | 128.0.0.2 | 62911 | 80 | TCP | 64 | 1667775485 | 1667775485 |"));

    writer.exit();
    writer.resume(); // too late: exit is final
    assert!(cycle.finish_cycle().is_none());
    assert!(cycle.finish_cycle().is_none());
}

#[test]
fn report_writer_settings_are_shared() {
    let table = TableHandle::new();
    let (writer, cycle) = ReportWriter::new("first".to_string(), 7, table);
    assert_eq!(writer.get_rewrite_time(), 7);
    assert_eq!(writer.get_report_path(), "first");
    let twin = writer.clone();
    twin.set_rewrite_time(11);
    twin.set_report_path("second".to_string());
    assert_eq!(writer.get_rewrite_time(), 11);
    assert_eq!(writer.get_report_path(), "second");
    assert_eq!(cycle.interval(), 11);
}

#[test]
fn report_renders_rows_in_table_order() {
    let mut table = FlowTable::new();
    table.fold_record(sample_packet("1667775485", 64));
    table.fold_record(ParsedPacket::new(
        "1667775490".to_string(),
        "10.0.0.9".to_string(),
        "10.0.0.8".to_string(),
        None,
        None,
        "ICMPv4: Echo Reply".to_string(),
        32,
    ));
    table.fold_record(sample_packet("1667775499", 36));
    let text = render_report(&table);
    let expected = "| Src IP address | Dst IP address | Src port | Dst port | Protocol | Bytes | First timestamp | Last timestamp |\n\
                    | :---: | :---: | :---: | :---: | :---: | :---: | :---: | :---: |\n\
                    | 127.0.0.1 | 128.0.0.2 | 62911 | 80 | TCP | 100 | 1667775485 | 1667775499 |\n\
                    | 10.0.0.9 | 10.0.0.8 | - | - | ICMPv4: Echo Reply | 32 | 1667775490 | 1667775490 |\n";
    assert_eq!(text, expected);
}

#[test]
fn report_paths_sit_under_the_reports_directory() {
    assert_eq!(report_file_path("flows"), "report/flows.md");
    assert_eq!(report_file_path(""), "report/.md");
}

#[test]
fn fold_saturates_instead_of_wrapping() {
    let mut table = FlowTable::new();
    table.fold_record(sample_packet("1", usize::MAX));
    table.fold_record(sample_packet("2", 5));
    let key = Connection::new(
        "127.0.0.1".to_string(),
        "128.0.0.2".to_string(),
        Some(62911),
        Some(80),
        "TCP".to_string(),
    );
    let value = table.get(&key).unwrap();
    assert_eq!(value.size, usize::MAX);
    assert_eq!(value.first_timestamp, "1");
    assert_eq!(value.last_timestamp, "2");
}

#[test]
fn distinct_directions_are_distinct_keys() {
    let mut table = FlowTable::new();
    table.fold_record(ParsedPacket::new(
        "10".to_string(),
        "1.1.1.1".to_string(),
        "2.2.2.2".to_string(),
        Some(10),
        Some(20),
        "UDP".to_string(),
        5,
    ));
    table.fold_record(ParsedPacket::new(
        "11".to_string(),
        "2.2.2.2".to_string(),
        "1.1.1.1".to_string(),
        Some(20),
        Some(10),
        "UDP".to_string(),
        7,
    ));
    assert_eq!(table.len(), 2);
    let forward = Connection::new(
        "1.1.1.1".to_string(),
        "2.2.2.2".to_string(),
        Some(10),
        Some(20),
        "UDP".to_string(),
    );
    let back = Connection::new(
        "2.2.2.2".to_string(),
        "1.1.1.1".to_string(),
        Some(20),
        Some(10),
        "UDP".to_string(),
    );
    assert_eq!(table.get(&forward).unwrap().size, 5);
    assert_eq!(table.get(&back).unwrap().size, 7);
}

#[test]
fn last_seen_follows_fold_order_not_timestamp_order() {
    // a record carrying an earlier capture time, folded later, still
    // overwrites last_timestamp: the table goes by fold order
    let mut table = FlowTable::new();
    table.fold_record(sample_packet("1667775500", 10));
    table.fold_record(sample_packet("1667775400", 10));
    let key = Connection::new(
        "127.0.0.1".to_string(),
        "128.0.0.2".to_string(),
        Some(62911),
        Some(80),
        "TCP".to_string(),
    );
    let value = table.get(&key).unwrap();
    assert_eq!(value.first_timestamp, "1667775500");
    assert_eq!(value.last_timestamp, "1667775400");
}

#[test]
fn empty_table_has_no_entries() {
    let table = FlowTable::new();
    assert_eq!(table.len(), 0);
    let key = Connection::new(
        "1.1.1.1".to_string(),
        "2.2.2.2".to_string(),
        None,
        None,
        "UDP".to_string(),
    );
    assert!(!table.contains_key(&key));
    assert!(table.get(&key).is_none());
}
