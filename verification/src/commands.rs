//! The command registry: the closed set of command names, whitespace
//! tokenization of a submitted line, and dispatch with the
//! "command not found" fallback.
//!
//! Handlers form a closed extensibility point: dispatch names which handler
//! is to run and hands over the full token list (the command name at index
//! 0 included); it imposes no argument-parsing policy of its own.

pub mod clear;
pub mod rm;

use vstd::prelude::*;
use vstd::string::*;

use crate::paint::PaintOp;
use crate::text::{str_eq, tokenize, tokens_spec};

verus! {

/// The commands this shell knows, `Unknown` standing for every other name.
#[derive(Clone, Copy, PartialEq, Eq, Structural, Debug)]
pub enum Cmd {
    Unknown,
    TeySh,
    Clear,
    Rm,
}

/// The command a name designates.
pub open spec fn cmd_of(name: Seq<char>) -> Cmd {
    if name == "tey.sh"@ {
        Cmd::TeySh
    } else if name == "clear"@ {
        Cmd::Clear
    } else if name == "rm"@ {
        Cmd::Rm
    } else {
        Cmd::Unknown
    }
}

impl Cmd {
    /// Look a command up by its name.
    pub fn from_name(name: &str) -> (r: Cmd)
        ensures
            r == cmd_of(name@),
    {
        if str_eq(name, "tey.sh") {
            Cmd::TeySh
        } else if str_eq(name, "clear") {
            Cmd::Clear
        } else if str_eq(name, "rm") {
            Cmd::Rm
        } else {
            Cmd::Unknown
        }
    }

    /// The registered name of a known command.
    pub fn name(&self) -> (r: &'static str)
        requires
            *self != Cmd::Unknown,
        ensures
            cmd_of(r@) == *self,
            r@ == match *self {
                Cmd::TeySh => "tey.sh"@,
                Cmd::Clear => "clear"@,
                Cmd::Rm => "rm"@,
                Cmd::Unknown => Seq::<char>::empty(),
            },
    {
        proof {
            reveal_strlit("tey.sh");
            reveal_strlit("clear");
            reveal_strlit("rm");
            reveal_strlit("");
        }
        match self {
            Cmd::TeySh => {
                let r = "tey.sh";
                assert(cmd_of(r@) == Cmd::TeySh);
                r
            },
            Cmd::Clear => {
                let r = "clear";
                assert(r@.len() == 5 && "tey.sh"@.len() == 6);
                assert(cmd_of(r@) == Cmd::Clear);
                r
            },
            Cmd::Rm => {
                let r = "rm";
                assert(r@.len() == 2 && "tey.sh"@.len() == 6 && "clear"@.len() == 5);
                assert(cmd_of(r@) == Cmd::Rm);
                r
            },
            Cmd::Unknown => {
                assert(false);  // unreachable under the precondition
                ""
            },
        }
    }
}

/// The report written when a line names no registered command.
pub open spec fn not_found_message(cmd: Seq<char>) -> Seq<char> {
    cmd + ": command not found. Type tey.sh --help to see available commands\n"@
}

/// What dispatch decided for a submitted line.
#[derive(Clone, Copy, PartialEq, Eq, Structural, Debug)]
pub enum DispatchAction {
    /// The line's first token names no registered command; the outcome's
    /// instructions report it and no handler runs.
    NotFound,
    /// Run this command's handler with the outcome's token list.
    Run(Cmd),
}

/// Dispatch outcome: the token list, the decision, and the instructions to
/// paint (one "not found" report, or nothing).
pub struct DispatchOutcome {
    pub tokens: Vec<String>,
    pub action: DispatchAction,
    pub ops: Vec<PaintOp>,
}

/// The name → handler table. Registration happens once, at construction;
/// the set of names is closed and free of duplicates.
pub struct CommandManager {
    commands: Vec<String>,
}

impl CommandManager {
    /// The table holds exactly the three registered names, in registration
    /// order.
    pub closed spec fn wf(&self) -> bool {
        self.commands@.map_values(|s: String| s@) == seq!["tey.sh"@, "clear"@, "rm"@]
    }

    /// The registered names, as the dispatcher consults them.
    pub closed spec fn names(&self) -> Seq<Seq<char>> {
        self.commands@.map_values(|s: String| s@)
    }

    /// A name is registered exactly when it designates a known command.
    pub proof fn lemma_registered_iff_known(&self, name: Seq<char>)
        requires
            self.wf(),
        ensures
            self.names().contains(name) <==> cmd_of(name) != Cmd::Unknown,
    {
        let ns = self.names();
        if cmd_of(name) != Cmd::Unknown {
            if name == "tey.sh"@ {
                assert(ns[0] == name);
            } else if name == "clear"@ {
                assert(ns[1] == name);
            } else {
                assert(ns[2] == name);
            }
        }
        if ns.contains(name) {
            let i = choose|i: int| 0 <= i < ns.len() && ns[i] == name;
            assert(i == 0 || i == 1 || i == 2);
        }
    }

    /// Build the table with the shell's three commands registered.
    pub fn new() -> (r: CommandManager)
        ensures
            r.wf(),
    {
        let mut m = CommandManager { commands: Vec::new() };
        m.register_command("tey.sh");
        m.register_command("clear");
        m.register_command("rm");
        proof {
            assert(m.commands@.map_values(|s: String| s@) =~= seq!["tey.sh"@, "clear"@, "rm"@]);
        }
        m
    }

    /// Append one name to the table (construction time only).
    fn register_command(&mut self, name: &str)
        ensures
            final(self).commands@.map_values(|s: String| s@) == old(self).commands@.map_values(
                |s: String| s@,
            ).push(name@),
    {
        let ghost before = self.commands@;
        self.commands.push(String::from_str(name));
        proof {
            assert(self.commands@.map_values(|s: String| s@) =~= before.map_values(|s: String| s@)
                .push(name@));
        }
    }

    /// Whether `name` is registered.
    fn contains_name(&self, name: &str) -> (r: bool)
        ensures
            r == self.names().contains(name@),
    {
        let mut i: usize = 0;
        let n = self.commands.len();
        while i < n
            invariant
                i <= n,
                n == self.commands@.len(),
                forall|j: int| 0 <= j < i ==> self.names()[j] != name@,
            decreases n - i,
        {
            if str_eq(self.commands[i].as_str(), name) {
                assert(self.names()[i as int] == name@);
                return true;
            }
            i += 1;
        }
        proof {
            assert(!self.names().contains(name@)) by {
                if self.names().contains(name@) {
                    let j = choose|j: int|
                        0 <= j < self.names().len() && self.names()[j] == name@;
                    assert(self.names()[j] != name@);
                }
            }
        }
        false
    }

    /// Dispatch a trimmed, non-empty line: tokenize it, look its first
    /// token up, and either name the handler to run or report an unknown
    /// command. Neither the line buffer nor the history is touched.
    pub fn execute(&self, input_trimmed: &str) -> (r: DispatchOutcome)
        requires
            self.wf(),
            tokens_spec(input_trimmed@).len() > 0,
        ensures
            r.tokens@.map_values(|t: String| t@) == tokens_spec(input_trimmed@),
            ({
                let name = tokens_spec(input_trimmed@)[0];
                if cmd_of(name) == Cmd::Unknown {
                    &&& r.action == DispatchAction::NotFound
                    &&& r.ops@.len() == 1
                    &&& (match r.ops@[0] {
                        PaintOp::Write(m) => m@ == not_found_message(name),
                        _ => false,
                    })
                } else {
                    &&& r.action == DispatchAction::Run(cmd_of(name))
                    &&& r.ops@.len() == 0
                }
            }),
    {
        let tokens = tokenize(input_trimmed);
        assert(tokens@.len() == tokens_spec(input_trimmed@).len());
        assert(tokens@.map_values(|t: String| t@)[0] == tokens_spec(input_trimmed@)[0]);
        let cmd = Cmd::from_name(tokens[0].as_str());
        let registered = self.contains_name(tokens[0].as_str());
        proof {
            self.lemma_registered_iff_known(tokens@[0]@);
        }
        if !registered {
            let msg = tokens[0].clone().concat(
                ": command not found. Type tey.sh --help to see available commands\n",
            );
            let mut ops: Vec<PaintOp> = Vec::new();
            ops.push(PaintOp::Write(msg));
            DispatchOutcome { tokens, action: DispatchAction::NotFound, ops }
        } else {
            DispatchOutcome { tokens, action: DispatchAction::Run(cmd), ops: Vec::new() }
        }
    }
}

} // verus!
