//! The command interpreter: one input line is tokenized, its family keyword
//! dispatched, and its operands validated, yielding either nothing (a blank
//! line), a warning for standard error, or an OS action to perform.

use vstd::prelude::*;

use crate::ext::now_rfc2822;
use crate::tokens::{spec_tokens, str_eq, tokenize, views_of};

verus! {

/// The three file operations of the `FILE` family.
#[derive(Clone, Copy, PartialEq, Eq, Structural, Debug)]
pub enum FileOp {
    New,
    Del,
    Mod,
}

/// One OS action a recognized, fully validated command asks for.
pub enum Action {
    Spawn { program: String, args: Vec<String> },
    File { op: FileOp, path: String, data: String },
    Net { src: String, dst: String, data: String },
}

/// What one input line amounts to: nothing, a warning line for standard
/// error, or an action to perform, with the timestamp captured when the
/// command was accepted (before any OS call).
pub enum Step {
    Ignore,
    Warn(String),
    Do { timestamp: String, action: Action },
}

/// The mathematical form of an `Action`.
pub enum SpecAction {
    Spawn { program: Seq<char>, args: Seq<Seq<char>> },
    File { op: FileOp, path: Seq<char>, data: Seq<char> },
    Net { src: Seq<char>, dst: Seq<char>, data: Seq<char> },
}

/// The mathematical form of a `Step`. It carries no timestamp: the
/// timestamp comes from the clock, and nothing is promised of it.
pub enum SpecStep {
    Ignore,
    Warn(Seq<char>),
    Do(SpecAction),
}

pub open spec fn action_view(a: Action) -> SpecAction {
    match a {
        Action::Spawn { program, args } => SpecAction::Spawn {
            program: program@,
            args: views_of(args@),
        },
        Action::File { op, path, data } => SpecAction::File { op, path: path@, data: data@ },
        Action::Net { src, dst, data } => SpecAction::Net { src: src@, dst: dst@, data: data@ },
    }
}

pub open spec fn step_view(s: Step) -> SpecStep {
    match s {
        Step::Ignore => SpecStep::Ignore,
        Step::Warn(m) => SpecStep::Warn(m@),
        Step::Do { timestamp, action } => SpecStep::Do(action_view(action)),
    }
}

/// Warning for an unrecognized family keyword.
pub open spec fn msg_not_implemented() -> Seq<char> {
    "Not implemented"@
}

/// Warning for `SPAWN` with no program named.
pub open spec fn msg_no_spawn_command() -> Seq<char> {
    "[WARNING]: No command specified"@
}

/// Warning for `FILE` with no operation keyword.
pub open spec fn msg_no_file_operation() -> Seq<char> {
    "[WARNING]: No FILE operation supplied"@
}

/// Warning for `FILE` with an operation but no path.
pub open spec fn msg_no_file_path() -> Seq<char> {
    "[WARNING]: No FILE filepath supplied"@
}

/// Warning for `FILE` with an unrecognized operation keyword.
pub open spec fn msg_file_op_not_implemented() -> Seq<char> {
    "[WARNING]: FILE operation not implemented"@
}

/// Warning for `NET` with no source endpoint.
pub open spec fn msg_no_net_source() -> Seq<char> {
    "[WARNING]: No source IP address and port supplied"@
}

/// Warning for `NET` with a source but no destination endpoint.
pub open spec fn msg_no_net_destination() -> Seq<char> {
    "[WARNING]: No destination IP address and port supplied"@
}

/// What a token sequence amounts to. The first token selects the family by
/// exact, case-sensitive match; required operands follow positionally; a
/// missing optional data token defaults to the empty string; tokens beyond
/// those a family reads are ignored.
pub open spec fn spec_step(toks: Seq<Seq<char>>) -> SpecStep {
    if toks.len() == 0 {
        SpecStep::Ignore
    } else if toks[0] == "SPAWN"@ {
        if toks.len() < 2 {
            SpecStep::Warn(msg_no_spawn_command())
        } else {
            SpecStep::Do(
                SpecAction::Spawn {
                    program: toks[1],
                    args: toks.subrange(2, toks.len() as int),
                },
            )
        }
    } else if toks[0] == "FILE"@ {
        if toks.len() < 3 {
            if toks.len() < 2 {
                SpecStep::Warn(msg_no_file_operation())
            } else {
                SpecStep::Warn(msg_no_file_path())
            }
        } else {
            let data = if toks.len() >= 4 {
                toks[3]
            } else {
                Seq::<char>::empty()
            };
            if toks[1] == "NEW"@ {
                SpecStep::Do(SpecAction::File { op: FileOp::New, path: toks[2], data })
            } else if toks[1] == "DEL"@ {
                SpecStep::Do(SpecAction::File { op: FileOp::Del, path: toks[2], data })
            } else if toks[1] == "MOD"@ {
                SpecStep::Do(SpecAction::File { op: FileOp::Mod, path: toks[2], data })
            } else {
                SpecStep::Warn(msg_file_op_not_implemented())
            }
        }
    } else if toks[0] == "NET"@ {
        if toks.len() < 2 {
            SpecStep::Warn(msg_no_net_source())
        } else if toks.len() < 3 {
            SpecStep::Warn(msg_no_net_destination())
        } else {
            let data = if toks.len() >= 4 {
                toks[3]
            } else {
                Seq::<char>::empty()
            };
            SpecStep::Do(SpecAction::Net { src: toks[1], dst: toks[2], data })
        }
    } else {
        SpecStep::Warn(msg_not_implemented())
    }
}

/// The optional data operand: the fourth token, or empty when absent.
fn data_operand(toks: &Vec<String>) -> (data: String)
    requires
        toks@.len() >= 3,
    ensures
        data@ == if toks@.len() >= 4 {
            views_of(toks@)[3]
        } else {
            Seq::<char>::empty()
        },
{
    if toks.len() >= 4 {
        toks[3].clone()
    } else {
        String::new()
    }
}

/// Interpret one input line: tokenize it, dispatch on the family keyword,
/// and validate the operands. A `Do` step captures its timestamp here,
/// before any OS call is made.
pub fn interpret(line: &str) -> (step: Step)
    ensures
        step_view(step) == spec_step(spec_tokens(line@)),
{
    let toks = tokenize(line);
    let ghost ts = spec_tokens(line@);
    if toks.len() == 0 {
        return Step::Ignore;
    }
    if str_eq(toks[0].as_str(), "SPAWN") {
        if toks.len() < 2 {
            return Step::Warn("[WARNING]: No command specified".to_owned());
        }
        let timestamp = now_rfc2822();
        let program = toks[1].clone();
        let mut args: Vec<String> = Vec::new();
        let mut i: usize = 2;
        while i < toks.len()
            invariant
                2 <= i <= toks@.len(),
                ts == views_of(toks@),
                args@.len() + 2 == i,
                forall|j: int| 0 <= j < args@.len() ==> #[trigger] args@[j]@ == ts[2 + j],
            decreases toks@.len() - i,
        {
            let cur_tok = toks[i].clone();
            proof {
                assert(cur_tok@ == ts[i as int]);
            }
            args.push(cur_tok);
            i = i + 1;
        }
        proof {
            assert(views_of(args@) =~= ts.subrange(2, ts.len() as int));
        }
        return Step::Do { timestamp, action: Action::Spawn { program, args } };
    }
    if str_eq(toks[0].as_str(), "FILE") {
        if toks.len() < 2 {
            return Step::Warn("[WARNING]: No FILE operation supplied".to_owned());
        }
        if toks.len() < 3 {
            return Step::Warn("[WARNING]: No FILE filepath supplied".to_owned());
        }
        let op: FileOp = if str_eq(toks[1].as_str(), "NEW") {
            FileOp::New
        } else if str_eq(toks[1].as_str(), "DEL") {
            FileOp::Del
        } else if str_eq(toks[1].as_str(), "MOD") {
            FileOp::Mod
        } else {
            return Step::Warn("[WARNING]: FILE operation not implemented".to_owned());
        };
        let timestamp = now_rfc2822();
        let path = toks[2].clone();
        let data = data_operand(&toks);
        return Step::Do { timestamp, action: Action::File { op, path, data } };
    }
    if str_eq(toks[0].as_str(), "NET") {
        if toks.len() < 2 {
            return Step::Warn("[WARNING]: No source IP address and port supplied".to_owned());
        }
        if toks.len() < 3 {
            return Step::Warn(
                "[WARNING]: No destination IP address and port supplied".to_owned(),
            );
        }
        let timestamp = now_rfc2822();
        let src = toks[1].clone();
        let dst = toks[2].clone();
        let data = data_operand(&toks);
        return Step::Do { timestamp, action: Action::Net { src, dst, data } };
    }
    Step::Warn("Not implemented".to_owned())
}

/// An unrecognized family keyword is only warned about: the step carries no
/// action, so no OS action is prescribed and no record is ever built for it.
pub proof fn lemma_unrecognized_only_warns(toks: Seq<Seq<char>>)
    requires
        toks.len() > 0,
        toks[0] != "SPAWN"@,
        toks[0] != "FILE"@,
        toks[0] != "NET"@,
    ensures
        spec_step(toks) == SpecStep::Warn(msg_not_implemented()),
{
}

/// A command missing a required operand, or naming an unknown file
/// operation, yields a warning with its specific message and prescribes no
/// action, so the log stays unchanged.
pub proof fn lemma_missing_operand_only_warns(toks: Seq<Seq<char>>)
    ensures
        toks.len() == 1 && toks[0] == "SPAWN"@ ==> spec_step(toks) == SpecStep::Warn(
            msg_no_spawn_command(),
        ),
        toks.len() == 1 && toks[0] == "FILE"@ ==> spec_step(toks) == SpecStep::Warn(
            msg_no_file_operation(),
        ),
        toks.len() == 2 && toks[0] == "FILE"@ ==> spec_step(toks) == SpecStep::Warn(
            msg_no_file_path(),
        ),
        toks.len() >= 3 && toks[0] == "FILE"@ && toks[1] != "NEW"@ && toks[1] != "DEL"@ && toks[1]
            != "MOD"@ ==> spec_step(toks) == SpecStep::Warn(msg_file_op_not_implemented()),
        toks.len() == 1 && toks[0] == "NET"@ ==> spec_step(toks) == SpecStep::Warn(
            msg_no_net_source(),
        ),
        toks.len() == 2 && toks[0] == "NET"@ ==> spec_step(toks) == SpecStep::Warn(
            msg_no_net_destination(),
        ),
{
    reveal_strlit("SPAWN");
    reveal_strlit("FILE");
    reveal_strlit("NET");
    assert("SPAWN"@.len() == 5);
    assert("FILE"@.len() == 4);
    assert("NET"@.len() == 3);
}

} // verus!
