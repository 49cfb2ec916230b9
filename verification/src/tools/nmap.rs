//! The network scanner: which targets it accepts and how its run is
//! reported.

use vstd::prelude::*;
use vstd::string::StringExecFns;
use crate::errors::SenseiError;
use crate::text::{chars_of};
use crate::tools::{CommandOutput, Invocation};

verus! {

/// The network scanner.
#[derive(Debug)]
pub struct NmapTool;

/// Whether `c` may not stand in a target: it would mean something to a
/// shell.
pub open spec fn forbidden(c: char) -> bool {
    c == ';' || c == '&' || c == '|' || c == '$' || c == '`' || c == '"' || c == '\'' || c == '('
        || c == ')'
}

/// The target is free of forbidden characters.
pub open spec fn clean_target(target: Seq<char>) -> bool {
    forall|i: int| 0 <= i < target.len() ==> !forbidden(#[trigger] target[i])
}

/// The message for a target that holds a forbidden character.
pub open spec fn invalid_target_message() -> Seq<char> {
    "Invalid characters in target name. Please provide a valid hostname or IP address."@
}

impl NmapTool {
    /// The name under which the scanner is registered.
    pub fn name(&self) -> (n: &'static str)
        ensures
            n@ == "nmap"@,
    {
        "nmap"
    }

    /// Checks a target. A target is refused if and only if it holds a
    /// forbidden character.
    pub fn check_target(&self, target: &str) -> (r: Result<(), SenseiError>)
        ensures
            r is Ok <==> clean_target(target@),
            r matches Err(e) ==> e is Tool && e.detail() == invalid_target_message(),
    {
        let s: Vec<char> = chars_of(target);
        let mut i: usize = 0;
        while i < s.len()
            invariant
                i <= s.len(),
                s@ == target@,
                forall|j: int| 0 <= j < i ==> !forbidden(#[trigger] s@[j]),
            decreases s.len() - i,
        {
            let c: char = s[i];
            if c == ';' || c == '&' || c == '|' || c == '$' || c == '`' || c == '"' || c == '\''
                || c == '(' || c == ')' {
                assert(forbidden(target@[i as int]));
                return Err(
                    SenseiError::Tool(
                        String::from_str(
                            "Invalid characters in target name. Please provide a valid hostname or IP address.",
                        ),
                    ),
                );
            }
            i += 1;
        }
        Ok(())
    }

    /// The command that scans `target` with the scanner at `program`: a fast
    /// scan of the one target. A target that the check refuses gets none.
    pub fn plan(&self, program: &str, target: &str) -> (r: Result<Invocation, SenseiError>)
        ensures
            r is Ok <==> clean_target(target@),
            r matches Ok(inv) ==> inv.program@ == program@ && inv.args@.len() == 2 && inv.args@[0]@
                == "-F"@ && inv.args@[1]@ == target@,
            r matches Err(e) ==> e is Tool && e.detail() == invalid_target_message(),
    {
        match self.check_target(target) {
            Ok(()) => {
                let mut args: Vec<String> = Vec::new();
                args.push(String::from_str("-F"));
                args.push(String::from_str(target));
                Ok(Invocation { program: String::from_str(program), args })
            },
            Err(e) => Err(e),
        }
    }

    /// What a finished scan is worth: `run` is how the command ended, or why
    /// it could not be started.
    pub open spec fn report_spec(run: Result<CommandOutput, String>) -> Result<
        Seq<char>,
        Seq<char>,
    > {
        match run {
            Ok(out) => if out.success {
                Ok(out.stdout@)
            } else {
                Err("Nmap command failed: "@ + out.stderr@)
            },
            Err(why) => Err("Failed to execute nmap command: "@ + why@),
        }
    }

    /// Reports a finished scan: its output where it succeeded, else an error
    /// that says how it failed.
    pub fn report(&self, run: Result<CommandOutput, String>) -> (r: Result<String, SenseiError>)
        ensures
            match r {
                Ok(text) => Self::report_spec(run) == Ok::<Seq<char>, Seq<char>>(text@),
                Err(e) => e is Tool && Self::report_spec(run) == Err::<Seq<char>, Seq<char>>(
                    e.detail(),
                ),
            },
    {
        match run {
            Ok(out) => {
                if out.success {
                    Ok(out.stdout)
                } else {
                    Err(
                        SenseiError::Tool(
                            String::from_str("Nmap command failed: ").concat(out.stderr.as_str()),
                        ),
                    )
                }
            },
            Err(why) => Err(
                SenseiError::Tool(
                    String::from_str("Failed to execute nmap command: ").concat(why.as_str()),
                ),
            ),
        }
    }
}

} // verus!
