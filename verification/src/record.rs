//! The activity-record format: the fixed header every record carries and
//! the family-specific tail lines, built exactly as specified.

use vstd::prelude::*;

use crate::command::FileOp;
use crate::ext::push_char;

verus! {

/// The decimal digit character for `n < 10`.
pub open spec fn dec_digit(n: nat) -> char {
    if n == 0 {
        '0'
    } else if n == 1 {
        '1'
    } else if n == 2 {
        '2'
    } else if n == 3 {
        '3'
    } else if n == 4 {
        '4'
    } else if n == 5 {
        '5'
    } else if n == 6 {
        '6'
    } else if n == 7 {
        '7'
    } else if n == 8 {
        '8'
    } else {
        '9'
    }
}

/// The decimal notation of `n`, most significant digit first, with no
/// leading zero except for `n == 0` itself.
pub open spec fn dec_str(n: nat) -> Seq<char>
    decreases n,
{
    if n < 10 {
        seq![dec_digit(n)]
    } else {
        dec_str(n / 10).push(dec_digit(n % 10))
    }
}

/// The digit character for `d < 10`.
fn dec_digit_char(d: u64) -> (c: char)
    requires
        d < 10,
    ensures
        c == dec_digit(d as nat),
{
    if d == 0 {
        '0'
    } else if d == 1 {
        '1'
    } else if d == 2 {
        '2'
    } else if d == 3 {
        '3'
    } else if d == 4 {
        '4'
    } else if d == 5 {
        '5'
    } else if d == 6 {
        '6'
    } else if d == 7 {
        '7'
    } else if d == 8 {
        '8'
    } else {
        '9'
    }
}

/// Append the decimal notation of `n` to `out`.
fn append_dec(out: &mut String, n: u64)
    ensures
        final(out)@ == old(out)@ + dec_str(n as nat),
    decreases n,
{
    if n < 10 {
        push_char(out, dec_digit_char(n));
        proof {
            assert(out@ =~= old(out)@ + dec_str(n as nat));
        }
    } else {
        assert(n / 10 < n);
        append_dec(out, n / 10);
        push_char(out, dec_digit_char(n % 10));
        proof {
            assert(out@ =~= old(out)@ + dec_str(n as nat));
        }
    }
}

/// The decimal notation of `n` as a string.
pub fn u64_to_string(n: u64) -> (s: String)
    ensures
        s@ == dec_str(n as nat),
{
    let mut s = String::new();
    append_dec(&mut s, n);
    proof {
        assert(s@ =~= dec_str(n as nat));
    }
    s
}

/// The common record header: the timestamp, the original command line, the
/// acting process id, the acting program name, the resolved user name, and
/// the activity-type tag, one line each in fixed order.
pub open spec fn header_text(
    ts: Seq<char>,
    cl: Seq<char>,
    pid: u32,
    pname: Seq<char>,
    uname: Seq<char>,
    aty: Seq<char>,
) -> Seq<char> {
    "timestamp:"@ + ts + "\n"@ + "  - command-line:\""@ + cl + "\"\n"@ + "  - pid:"@ + dec_str(
        pid as nat,
    ) + "\n"@ + "  - process-name:\""@ + pname + "\"\n"@ + "  - username:\""@ + uname + "\"\n"@
        + "  - activity-type:\""@ + aty + "\"\n"@
}

/// Append the common record header to `out`.
pub fn append_header(
    out: &mut String,
    timestamp: &str,
    command_line: &str,
    pid: u32,
    process_name: &str,
    username: &str,
    activity_type: &str,
)
    ensures
        final(out)@ == old(out)@ + header_text(
            timestamp@,
            command_line@,
            pid,
            process_name@,
            username@,
            activity_type@,
        ),
{
    out.append("timestamp:");
    out.append(timestamp);
    out.append("\n");
    out.append("  - command-line:\"");
    out.append(command_line);
    out.append("\"\n");
    out.append("  - pid:");
    let pid_s = u64_to_string(pid as u64);
    out.append(pid_s.as_str());
    out.append("\n");
    out.append("  - process-name:\"");
    out.append(process_name);
    out.append("\"\n");
    out.append("  - username:\"");
    out.append(username);
    out.append("\"\n");
    out.append("  - activity-type:\"");
    out.append(activity_type);
    out.append("\"\n");
    proof {
        assert(out@ =~= old(out)@ + header_text(
            timestamp@,
            command_line@,
            pid,
            process_name@,
            username@,
            activity_type@,
        ));
    }
}

/// The name logged for a file operation.
pub open spec fn file_op_name(op: FileOp) -> Seq<char> {
    match op {
        FileOp::New => "NEW"@,
        FileOp::Del => "DEL"@,
        FileOp::Mod => "MOD"@,
    }
}

/// A `SPAWN` record: the common header alone. Its process-name field
/// carries the spawned program's name, while the pid stays the agent's own.
pub open spec fn spawn_record_text(
    ts: Seq<char>,
    cl: Seq<char>,
    pid: u32,
    program: Seq<char>,
    uname: Seq<char>,
) -> Seq<char> {
    header_text(ts, cl, pid, program, uname, "SPAWN"@)
}

/// A `FILE` record: the common header, then the operation and the
/// debug-formatted result of resolving the path to its canonical form.
pub open spec fn file_record_text(
    ts: Seq<char>,
    cl: Seq<char>,
    pid: u32,
    uname: Seq<char>,
    op: FileOp,
    path_debug: Seq<char>,
) -> Seq<char> {
    header_text(ts, cl, pid, "TELGEN"@, uname, "FILE"@) + "    - file-operation:\""@ + file_op_name(
        op,
    ) + "\"\n"@ + "    - file-path:"@ + path_debug + "\n"@
}

/// A `NET` record: the common header, then the source and destination
/// endpoints, the bytes the OS reported sent, and the fixed protocol tag.
pub open spec fn net_record_text(
    ts: Seq<char>,
    cl: Seq<char>,
    pid: u32,
    uname: Seq<char>,
    src: Seq<char>,
    dst: Seq<char>,
    bytes_sent: usize,
) -> Seq<char> {
    header_text(ts, cl, pid, "TELGEN"@, uname, "NET"@) + "    - source:\""@ + src + "\"\n"@
        + "    - destination:\""@ + dst + "\"\n"@ + "    - bytes-sent:\""@ + dec_str(
        bytes_sent as nat,
    ) + "\"\n"@ + "    - protocol:\"UDP\"\n"@
}

/// Build a `SPAWN` record.
pub fn spawn_record(
    timestamp: &str,
    command_line: &str,
    pid: u32,
    program: &str,
    username: &str,
) -> (rec: String)
    ensures
        rec@ == spawn_record_text(timestamp@, command_line@, pid, program@, username@),
{
    let mut out = String::new();
    append_header(&mut out, timestamp, command_line, pid, program, username, "SPAWN");
    proof {
        assert(out@ =~= spawn_record_text(timestamp@, command_line@, pid, program@, username@));
    }
    out
}

/// Build a `FILE` record.
pub fn file_record(
    timestamp: &str,
    command_line: &str,
    pid: u32,
    username: &str,
    op: FileOp,
    path_debug: &str,
) -> (rec: String)
    ensures
        rec@ == file_record_text(timestamp@, command_line@, pid, username@, op, path_debug@),
{
    let mut out = String::new();
    append_header(&mut out, timestamp, command_line, pid, "TELGEN", username, "FILE");
    out.append("    - file-operation:\"");
    match op {
        FileOp::New => out.append("NEW"),
        FileOp::Del => out.append("DEL"),
        FileOp::Mod => out.append("MOD"),
    }
    out.append("\"\n");
    out.append("    - file-path:");
    out.append(path_debug);
    out.append("\n");
    proof {
        assert(out@ =~= file_record_text(
            timestamp@,
            command_line@,
            pid,
            username@,
            op,
            path_debug@,
        ));
    }
    out
}

/// Build a `NET` record.
pub fn net_record(
    timestamp: &str,
    command_line: &str,
    pid: u32,
    username: &str,
    src: &str,
    dst: &str,
    bytes_sent: usize,
) -> (rec: String)
    ensures
        rec@ == net_record_text(timestamp@, command_line@, pid, username@, src@, dst@, bytes_sent),
{
    let mut out = String::new();
    append_header(&mut out, timestamp, command_line, pid, "TELGEN", username, "NET");
    out.append("    - source:\"");
    out.append(src);
    out.append("\"\n");
    out.append("    - destination:\"");
    out.append(dst);
    out.append("\"\n");
    out.append("    - bytes-sent:\"");
    let sent_s = u64_to_string(bytes_sent as u64);
    out.append(sent_s.as_str());
    out.append("\"\n");
    out.append("    - protocol:\"UDP\"\n");
    proof {
        assert(out@ =~= net_record_text(
            timestamp@,
            command_line@,
            pid,
            username@,
            src@,
            dst@,
            bytes_sent,
        ));
    }
    out
}

/// The marker line written once at session start to delimit runs within
/// one log file.
pub open spec fn marker_text() -> Seq<char> {
    "---\n"@
}

/// The marker line written once at session start.
pub fn run_marker() -> (m: String)
    ensures
        m@ == marker_text(),
{
    "---\n".to_owned()
}

} // verus!
