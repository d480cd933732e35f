use vstd::prelude::*;
use vstd::string::StrSliceExecFns;
use vstd::string::StringExecFns;

verus! {

/// A line of operator input is local when it starts with the reserved
/// prefix; it is then interpreted by the session itself and never forwarded
/// to the child process.
pub open spec fn is_local(line: Seq<char>) -> bool {
    line.len() > 0 && line[0] == '#'
}

/// One line of operator input, classified once on arrival: a local command
/// kept by the session, or text passed through to the child process.
pub enum SessionLine {
    Local(String),
    PassThrough(String),
}

/// Classifies a line of operator input by the reserved `#` prefix, keeping
/// its text as typed.
pub fn classify_line(line: &str) -> (r: SessionLine)
    ensures
        is_local(line@) ==> (r matches SessionLine::Local(c) && c@ == line@),
        !is_local(line@) ==> (r matches SessionLine::PassThrough(t) && t@ == line@),
{
    if line.unicode_len() > 0 && line.get_char(0) == '#' {
        SessionLine::Local(line.to_owned())
    } else {
        SessionLine::PassThrough(line.to_owned())
    }
}

/// The console lines that answer one local command: the help text for
/// `#help`, and a message naming the offending input for anything else.
pub open spec fn command_response(command: Seq<char>) -> Seq<Seq<char>> {
    if command == "#help"@ {
        seq![
            "Available commands:"@,
            "#help - Display this help message"@,
            "#watch - Watch a file and reload (NOT IMPLEMENTED)"@,
        ]
    } else {
        seq!["Unknown command: "@ + command]
    }
}

/// Interprets one local command line; the result is what the console must
/// display, one entry per line.  Unrecognized commands are never silently
/// ignored: they produce a message naming the input.
pub fn handle_command(command: &str) -> (r: Vec<String>)
    ensures
        r.deep_view() == command_response(command@),
{
    let mut out: Vec<String> = Vec::new();
    if command.to_owned() == "#help".to_owned() {
        out.push("Available commands:".to_owned());
        out.push("#help - Display this help message".to_owned());
        out.push("#watch - Watch a file and reload (NOT IMPLEMENTED)".to_owned());
    } else {
        let mut msg = "Unknown command: ".to_owned();
        msg.append(command);
        out.push(msg);
    }
    proof {
        assert(out.deep_view() =~= command_response(command@));
    }
    out
}

} // verus!
