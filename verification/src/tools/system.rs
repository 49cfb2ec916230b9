//! System diagnostics: the commands that are allowed, and how their output
//! is reported.

use vstd::prelude::*;
use vstd::string::StringExecFns;
use crate::errors::SenseiError;
use crate::text::{chars_of, extend, same_text, slice_of, string_of, trim, trimmed};
use crate::tools::{CommandOutput, Invocation};

verus! {

/// The system diagnostics tool.
#[derive(Debug)]
pub struct SystemTool;

/// The most bytes of output that are reported.
pub const MAX_OUTPUT_BYTES: usize = 4000;

/// The command that the key `key` stands for: its program and its one
/// argument, if it has one. A key outside the list stands for none.
pub open spec fn allowed(key: Seq<char>) -> Option<(Seq<char>, Option<Seq<char>>)> {
    if key == "uptime"@ {
        Some(("uptime"@, None))
    } else if key == "disk"@ {
        Some(("df"@, Some("-h"@)))
    } else if key == "memory"@ {
        Some(("free"@, Some("-h"@)))
    } else if key == "whoami"@ {
        Some(("whoami"@, None))
    } else if key == "date"@ {
        Some(("date"@, None))
    } else {
        None
    }
}

/// The message for a key outside the list.
pub open spec fn disallowed_message(key: Seq<char>) -> Seq<char> {
    "Unknown or disallowed diagnostic command: '"@ + key
        + "'. Allowed: uptime, disk, memory, whoami, date"@
}

/// How many bytes `c` takes in UTF-8.
pub open spec fn byte_width(c: char) -> nat {
    if (c as u32) < 0x80 {
        1
    } else if (c as u32) < 0x800 {
        2
    } else if (c as u32) < 0x10000 {
        3
    } else {
        4
    }
}

/// How many bytes the first `n` characters of `s` take in UTF-8.
pub open spec fn byte_length(s: Seq<char>, n: int) -> nat
    decreases n,
{
    if n <= 0 || n > s.len() {
        0
    } else {
        byte_length(s, n - 1) + byte_width(s[n - 1])
    }
}

/// How many characters of `s`, from its start, fit in `limit` bytes.
pub open spec fn fitting(s: Seq<char>, limit: nat, n: int) -> int
    decreases s.len() - n,
{
    if 0 <= n < s.len() && byte_length(s, n + 1) <= limit {
        fitting(s, limit, n + 1)
    } else {
        n
    }
}

/// The mark that ends a shortened output.
pub open spec fn truncation_mark() -> Seq<char> {
    "\n\n...[Output truncated by Sensei Safety Layer]..."@
}

/// The output as it is reported: whole where it takes no more bytes than
/// the limit, else its longest start that fits, then the mark.
pub open spec fn shortened(s: Seq<char>) -> Seq<char> {
    if fitting(s, MAX_OUTPUT_BYTES as nat, 0) >= s.len() {
        s
    } else {
        s.subrange(0, fitting(s, MAX_OUTPUT_BYTES as nat, 0)) + truncation_mark()
    }
}

/// How many bytes `c` takes in UTF-8.
fn width_of(c: char) -> (w: usize)
    ensures
        w == byte_width(c),
        1 <= w <= 4,
{
    let code: u32 = c as u32;
    if code < 0x80 {
        1
    } else if code < 0x800 {
        2
    } else if code < 0x10000 {
        3
    } else {
        4
    }
}

/// Shortens an output to the limit.
pub fn shorten(output: &str) -> (r: String)
    ensures
        r@ == shortened(output@),
{
    let s: Vec<char> = chars_of(output);
    let mut n: usize = 0;
    let mut bytes: usize = 0;
    while n < s.len()
        invariant
            n <= s.len(),
            s@ == output@,
            bytes == byte_length(s@, n as int),
            bytes <= MAX_OUTPUT_BYTES,
            fitting(s@, MAX_OUTPUT_BYTES as nat, 0) == fitting(s@, MAX_OUTPUT_BYTES as nat, n as int),
        decreases s.len() - n,
    {
        let w: usize = width_of(s[n]);
        assert(byte_length(s@, n + 1) == bytes + w);
        if bytes + w > MAX_OUTPUT_BYTES {
            assert(fitting(s@, MAX_OUTPUT_BYTES as nat, n as int) == n);
            let mut kept: Vec<char> = slice_of(&s, 0, n);
            extend(&mut kept, &chars_of("\n\n...[Output truncated by Sensei Safety Layer]..."));
            return string_of(&kept);
        }
        bytes = bytes + w;
        n += 1;
    }
    String::from_str(output)
}

impl SystemTool {
    /// The name under which the tool is registered.
    pub fn name(&self) -> (n: &'static str)
        ensures
            n@ == "system_diagnostic"@,
    {
        "system_diagnostic"
    }

    /// The command that `command_key` stands for, once trimmed. A key
    /// outside the list is refused with a message that holds the key as it
    /// came.
    pub fn plan(&self, command_key: &str) -> (r: Result<Invocation, SenseiError>)
        ensures
            match r {
                Ok(inv) => {
                    &&& allowed(trimmed(command_key@)) matches Some((program, arg))
                    &&& inv.program@ == program
                    &&& match arg {
                        Some(a) => inv.args@.len() == 1 && inv.args@[0]@ == a,
                        None => inv.args@.len() == 0,
                    }
                },
                Err(e) => {
                    &&& allowed(trimmed(command_key@)) is None
                    &&& e is Tool
                    &&& e.detail() == disallowed_message(command_key@)
                },
            },
    {
        let key: String = string_of(&trim(&chars_of(command_key)));
        let mut args: Vec<String> = Vec::new();
        if same_text(key.as_str(), "uptime") {
            Ok(Invocation { program: String::from_str("uptime"), args })
        } else if same_text(key.as_str(), "disk") {
            args.push(String::from_str("-h"));
            Ok(Invocation { program: String::from_str("df"), args })
        } else if same_text(key.as_str(), "memory") {
            args.push(String::from_str("-h"));
            Ok(Invocation { program: String::from_str("free"), args })
        } else if same_text(key.as_str(), "whoami") {
            Ok(Invocation { program: String::from_str("whoami"), args })
        } else if same_text(key.as_str(), "date") {
            Ok(Invocation { program: String::from_str("date"), args })
        } else {
            let mut m = String::from_str("Unknown or disallowed diagnostic command: '");
            m.append(command_key);
            m.append("'. Allowed: uptime, disk, memory, whoami, date");
            Err(SenseiError::Tool(m))
        }
    }

    /// What the finished command `program` is worth: `run` is how it ended,
    /// or why it could not be started.
    pub open spec fn report_spec(program: Seq<char>, run: Result<CommandOutput, String>) -> Result<
        Seq<char>,
        Seq<char>,
    > {
        match run {
            Ok(out) => if out.success {
                Ok(shortened(out.stdout@))
            } else {
                Err("Command '"@ + program + "' failed: "@ + out.stderr@)
            },
            Err(why) => Err("Failed to run system command '"@ + program + "': "@ + why@),
        }
    }

    /// Reports a finished command: its output, shortened to the limit, where
    /// it succeeded; else an error that says how it failed.
    pub fn report(&self, program: &str, run: Result<CommandOutput, String>) -> (r: Result<
        String,
        SenseiError,
    >)
        ensures
            match r {
                Ok(text) => Self::report_spec(program@, run) == Ok::<Seq<char>, Seq<char>>(text@),
                Err(e) => e is Tool && Self::report_spec(program@, run) == Err::<
                    Seq<char>,
                    Seq<char>,
                >(e.detail()),
            },
    {
        match run {
            Ok(out) => {
                if out.success {
                    Ok(shorten(out.stdout.as_str()))
                } else {
                    let mut m = String::from_str("Command '");
                    m.append(program);
                    m.append("' failed: ");
                    m.append(out.stderr.as_str());
                    Err(SenseiError::Tool(m))
                }
            },
            Err(why) => {
                let mut m = String::from_str("Failed to run system command '");
                m.append(program);
                m.append("': ");
                m.append(why.as_str());
                Err(SenseiError::Tool(m))
            },
        }
    }
}

} // verus!
