use telgen::command::{interpret, FileOp, Step};
use telgen::record::{run_marker, u64_to_string};
use telgen::session::Session;

const TS: &str = "Sat, 11 Oct 2026 12:00:00 +0000";

fn fresh() -> Session {
    Session::new(4207, String::from("alice"))
}

#[test]
fn run_marker_is_one_delimiter_line() {
    assert_eq!(run_marker(), "---\n");
}

#[test]
fn u64_to_string_writes_decimal() {
    assert_eq!(u64_to_string(0), "0");
    assert_eq!(u64_to_string(4), "4");
    assert_eq!(u64_to_string(407), "407");
    assert_eq!(u64_to_string(u64::MAX), "18446744073709551615");
}

#[test]
fn spawn_record_has_full_header() {
    let mut s = fresh();
    let rec = s.log_spawn(TS, "SPAWN echo hi", "echo");
    let expected = "timestamp:Sat, 11 Oct 2026 12:00:00 +0000\n\
                    \x20 - command-line:\"SPAWN echo hi\"\n\
                    \x20 - pid:4207\n\
                    \x20 - process-name:\"echo\"\n\
                    \x20 - username:\"alice\"\n\
                    \x20 - activity-type:\"SPAWN\"\n";
    assert_eq!(rec, expected);
    assert_eq!(s.records.len(), 1);
    assert_eq!(s.records[0], expected);
}

#[test]
fn spawn_record_keeps_agents_own_pid() {
    let mut s = fresh();
    let rec = s.log_spawn(TS, "SPAWN echo hi", "echo");
    assert!(rec.contains("  - pid:4207\n"));
    assert!(rec.contains("  - activity-type:\"SPAWN\"\n"));
}

#[test]
fn file_new_record_carries_operation_and_canonical_path() {
    let mut s = fresh();
    let rec = s.log_file(TS, "FILE NEW /tmp/p", FileOp::New, "Ok(\"/tmp/p\")");
    let expected = "timestamp:Sat, 11 Oct 2026 12:00:00 +0000\n\
                    \x20 - command-line:\"FILE NEW /tmp/p\"\n\
                    \x20 - pid:4207\n\
                    \x20 - process-name:\"TELGEN\"\n\
                    \x20 - username:\"alice\"\n\
                    \x20 - activity-type:\"FILE\"\n\
                    \x20   - file-operation:\"NEW\"\n\
                    \x20   - file-path:Ok(\"/tmp/p\")\n";
    assert_eq!(rec, expected);
}

#[test]
fn file_pair_appends_two_records_in_order() {
    let mut s = fresh();
    let first = s.log_file(TS, "FILE NEW /tmp/p", FileOp::New, "Ok(\"/tmp/p\")");
    let second = s.log_file(TS, "FILE DEL /tmp/p", FileOp::Del, "Ok(\"/tmp/p\")");
    assert_eq!(s.records.len(), 2);
    assert_eq!(s.records[0], first);
    assert_eq!(s.records[1], second);
    assert!(first.contains("    - file-operation:\"NEW\"\n"));
    assert!(second.contains("    - file-operation:\"DEL\"\n"));
    assert!(first.contains("    - file-path:Ok(\"/tmp/p\")\n"));
    assert!(second.contains("    - file-path:Ok(\"/tmp/p\")\n"));
}

#[test]
fn file_mod_record_logs_the_operation() {
    let mut s = fresh();
    let rec = s.log_file(TS, "FILE MOD /tmp/p hello", FileOp::Mod, "Ok(\"/tmp/p\")");
    assert!(rec.contains("  - activity-type:\"FILE\"\n"));
    assert!(rec.contains("    - file-operation:\"MOD\"\n"));
}

#[test]
fn net_record_reports_udp_and_bytes_sent() {
    let mut s = fresh();
    let rec = s.log_net(
        TS,
        "NET 127.0.0.1:9001 127.0.0.1:9002 ping",
        "127.0.0.1:9001",
        "127.0.0.1:9002",
        4,
    );
    let expected = "timestamp:Sat, 11 Oct 2026 12:00:00 +0000\n\
                    \x20 - command-line:\"NET 127.0.0.1:9001 127.0.0.1:9002 ping\"\n\
                    \x20 - pid:4207\n\
                    \x20 - process-name:\"TELGEN\"\n\
                    \x20 - username:\"alice\"\n\
                    \x20 - activity-type:\"NET\"\n\
                    \x20   - source:\"127.0.0.1:9001\"\n\
                    \x20   - destination:\"127.0.0.1:9002\"\n\
                    \x20   - bytes-sent:\"4\"\n\
                    \x20   - protocol:\"UDP\"\n";
    assert_eq!(rec, expected);
}

#[test]
fn validation_failures_leave_the_log_untouched() {
    let s = fresh();
    let before = s.records.len();
    for line in ["FROB x", "FILE NEW", "SPAWN", "NET", "FILE", "NET 1.2.3.4:1"] {
        match interpret(line) {
            Step::Warn(_) => {}
            _ => panic!("expected a warning for {:?}", line),
        }
    }
    assert_eq!(s.records.len(), before);
}

#[test]
fn records_appear_in_issue_order() {
    let mut s = fresh();
    let r1 = s.log_spawn(TS, "SPAWN echo hi", "echo");
    let r2 = s.log_file(TS, "FILE NEW /tmp/p", FileOp::New, "Ok(\"/tmp/p\")");
    let r3 = s.log_net(TS, "NET a:1 b:2", "a:1", "b:2", 0);
    let r4 = s.log_file(TS, "FILE DEL /tmp/p", FileOp::Del, "Ok(\"/tmp/p\")");
    assert_eq!(s.records, vec![r1, r2, r3, r4]);
}

#[test]
fn each_record_is_written_as_one_chunk() {
    let mut s = fresh();
    let rec = s.log_net(TS, "NET a:1 b:2", "a:1", "b:2", 0);
    assert!(rec.contains("    - bytes-sent:\"0\"\n"));
    assert!(rec.ends_with("    - protocol:\"UDP\"\n"));
    assert_eq!(s.records.len(), 1);
}

#[test]
fn mixed_valid_commands_log_one_record_each_in_order() {
    let mut s = fresh();
    let script = [
        "SPAWN echo hi",
        "FILE NEW /tmp/p",
        "bogus line",
        "NET 127.0.0.1:9001 127.0.0.1:9002 ping",
        "",
        "FILE DEL /tmp/p",
    ];
    let mut returned_records = Vec::new();
    for line in script {
        match interpret(line) {
            Step::Ignore | Step::Warn(_) => {}
            Step::Do { timestamp, action } => {
                let rec = match action {
                    telgen::command::Action::Spawn { program, .. } => {
                        s.log_spawn(&timestamp, line, &program)
                    }
                    telgen::command::Action::File { op, .. } => {
                        s.log_file(&timestamp, line, op, "Ok(\"/tmp/p\")")
                    }
                    telgen::command::Action::Net { src, dst, data } => {
                        s.log_net(&timestamp, line, &src, &dst, data.len())
                    }
                };
                returned_records.push(rec);
            }
        }
    }
    assert_eq!(s.records.len(), 4);
    assert_eq!(s.records, returned_records);
    assert!(s.records[0].contains("activity-type:\"SPAWN\""));
    assert!(s.records[1].contains("file-operation:\"NEW\""));
    assert!(s.records[2].contains("bytes-sent:\"4\""));
    assert!(s.records[3].contains("file-operation:\"DEL\""));
}
