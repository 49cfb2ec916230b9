//! What the command line client decides: where a server is reached, how a
//! line of the conversation is shown, and how the view and the input history
//! move. The terminal and the network are the caller's part.

use vstd::prelude::*;
use vstd::string::StringExecFns;
use crate::text::{
    begins_with, chars_of, contains, has, matches_at, occurs_at, slice_of, starts_with, string_of,
};

verus! {

/// Where a server is reached.
#[derive(Debug, PartialEq, Eq)]
pub enum Target {
    /// Over the unix socket at this path.
    Unix(String),
    /// Over HTTP at this base address, which ends in no slash.
    Http(String),
}

/// The content of a `Target`.
pub enum TargetModel {
    Unix { socket: Seq<char> },
    Http { base: Seq<char> },
}

impl View for Target {
    type V = TargetModel;

    open spec fn view(&self) -> TargetModel {
        match self {
            Target::Unix(socket) => TargetModel::Unix { socket: socket@ },
            Target::Http(base) => TargetModel::Http { base: base@ },
        }
    }
}

/// The scheme that marks the address of a unix socket.
pub open spec fn unix_scheme() -> Seq<char> {
    "unix://"@
}

/// Where the copies of `pat` that stand in `s` from index `i` on, one after
/// the other, end.
pub open spec fn prefix_end(s: Seq<char>, pat: Seq<char>, i: int) -> int
    decreases s.len() - i,
{
    if pat.len() > 0 && occurs_at(s, pat, i) {
        prefix_end(s, pat, i + pat.len())
    } else {
        i
    }
}

/// Where the run of `c` that ends just before index `n` of `s` begins.
pub open spec fn trail_start(s: Seq<char>, c: char, n: int) -> int
    decreases n,
{
    if 0 < n <= s.len() && s[n - 1] == c {
        trail_start(s, c, n - 1)
    } else {
        n
    }
}

/// Where the server at `address` is reached: an address that begins with
/// the unix scheme names a socket, by what follows every leading copy of the
/// scheme; any other address is an HTTP base, without the slashes at its
/// end.
pub open spec fn target_spec(address: Seq<char>) -> TargetModel {
    if begins_with(address, unix_scheme()) {
        TargetModel::Unix {
            socket: address.subrange(prefix_end(address, unix_scheme(), 0), address.len() as int),
        }
    } else {
        TargetModel::Http { base: address.subrange(0, trail_start(address, '/', address.len() as int)) }
    }
}

/// The address of the `path` of the server at `target`: on a socket the
/// host is `localhost`.
pub open spec fn endpoint_spec(target: TargetModel, path: Seq<char>) -> Seq<char> {
    match target {
        TargetModel::Unix { .. } => "http://localhost"@ + path,
        TargetModel::Http { base } => base + path,
    }
}

/// Where the server at `address` is reached.
pub fn target_of(address: &str) -> (t: Target)
    ensures
        t@ == target_spec(address@),
{
    let s: Vec<char> = chars_of(address);
    let scheme: Vec<char> = chars_of("unix://");
    if starts_with(&s, &scheme) {
        let mut i: usize = 0;
        while scheme.len() > 0 && matches_at(&s, &scheme, i)
            invariant
                i <= s.len(),
                scheme@ == unix_scheme(),
                prefix_end(s@, scheme@, 0) == prefix_end(s@, scheme@, i as int),
            decreases s.len() - i,
        {
            i = i + scheme.len();
        }
        Target::Unix(string_of(&slice_of(&s, i, s.len())))
    } else {
        let mut n: usize = s.len();
        while n > 0 && s[n - 1] == '/'
            invariant
                n <= s.len(),
                trail_start(s@, '/', s.len() as int) == trail_start(s@, '/', n as int),
            decreases n,
        {
            n -= 1;
        }
        Target::Http(string_of(&slice_of(&s, 0, n)))
    }
}

/// The address of the `path` of the server at `target`.
pub fn endpoint(target: &Target, path: &str) -> (url: String)
    ensures
        url@ == endpoint_spec(target@, path@),
{
    match target {
        Target::Unix(_) => String::from_str("http://localhost").concat(path),
        Target::Http(base) => {
            let mut url = base.clone();
            url.append(path);
            url
        },
    }
}

/// How a line of the conversation is shown.
#[derive(Debug, PartialEq, Eq, Clone, Copy)]
pub enum LineKind {
    /// A line of a code block, or a fence that opens or closes one.
    Code,
    /// What the user asked.
    Prompt,
    /// An error.
    Failure,
    /// A heading.
    Heading,
    /// The banner of the program.
    Banner,
    /// Any other line.
    Plain,
}

/// The fence that opens and closes a code block.
pub open spec fn fence() -> Seq<char> {
    "```"@
}

/// Whether the lines after `line` stand inside a code block, given whether
/// `line` itself stands after an open fence: a fence changes it.
pub open spec fn inside_after(line: Seq<char>, inside: bool) -> bool {
    if begins_with(line, fence()) {
        !inside
    } else {
        inside
    }
}

/// How `line` is shown, given whether it stands after an open fence. The
/// first rule that fits counts: fence, code block, prompt, error, heading,
/// banner.
pub open spec fn line_kind_spec(line: Seq<char>, inside: bool) -> LineKind {
    if begins_with(line, fence()) || inside {
        LineKind::Code
    } else if begins_with(line, "> "@) {
        LineKind::Prompt
    } else if begins_with(line, "Error:"@) {
        LineKind::Failure
    } else if begins_with(line, "# "@) || begins_with(line, "## "@) {
        LineKind::Heading
    } else if has(line, "🦈 SENSEI"@) {
        LineKind::Banner
    } else {
        LineKind::Plain
    }
}

/// How `line` is shown, and whether the lines after it stand inside a code
/// block.
pub fn line_kind(line: &str, inside: bool) -> (r: (LineKind, bool))
    ensures
        r.0 == line_kind_spec(line@, inside),
        r.1 == inside_after(line@, inside),
{
    let s: Vec<char> = chars_of(line);
    if starts_with(&s, &chars_of("```")) {
        (LineKind::Code, !inside)
    } else if inside {
        (LineKind::Code, inside)
    } else if starts_with(&s, &chars_of("> ")) {
        (LineKind::Prompt, inside)
    } else if starts_with(&s, &chars_of("Error:")) {
        (LineKind::Failure, inside)
    } else if starts_with(&s, &chars_of("# ")) || starts_with(&s, &chars_of("## ")) {
        (LineKind::Heading, inside)
    } else if contains(&s, &chars_of("🦈 SENSEI")) {
        (LineKind::Banner, inside)
    } else {
        (LineKind::Plain, inside)
    }
}

/// The index of the last of `len` lines; zero where there is none.
pub open spec fn last_line(len: int) -> int {
    if len > 0 {
        len - 1
    } else {
        0
    }
}

/// The line that is selected after the view moved down by `step` from
/// `selected`, among `len` lines: never past the last line.
pub open spec fn moved_down(selected: Option<usize>, step: int, len: int) -> int {
    let from = match selected {
        Some(i) => i as int,
        None => 0,
    };
    if from + step <= last_line(len) {
        from + step
    } else {
        last_line(len)
    }
}

/// The line that is selected after the view moved up by `step` from
/// `selected`: never before the first line.
pub open spec fn moved_up(selected: Option<usize>, step: int) -> int {
    let from = match selected {
        Some(i) => i as int,
        None => 0,
    };
    if from >= step {
        from - step
    } else {
        0
    }
}

/// Moves the view down by `step`. The second result says whether the view
/// has reached the last line, and so follows new lines again.
pub fn scroll_down(selected: Option<usize>, step: usize, len: usize) -> (r: (usize, bool))
    ensures
        r.0 == moved_down(selected, step as int, len as int),
        r.1 == (r.0 >= last_line(len as int)),
{
    let from: usize = match selected {
        Some(i) => i,
        None => 0,
    };
    let last: usize = if len > 0 {
        len - 1
    } else {
        0
    };
    let to: usize = if from <= last && step <= last - from {
        from + step
    } else {
        last
    };
    (to, to >= last)
}

/// Moves the view up by `step`.
pub fn scroll_up(selected: Option<usize>, step: usize) -> (r: usize)
    ensures
        r == moved_up(selected, step as int),
{
    let from: usize = match selected {
        Some(i) => i,
        None => 0,
    };
    if from >= step {
        from - step
    } else {
        0
    }
}

/// One step back in the history of inputs, from position `pos`: the
/// position of the entry to show, or nothing at the oldest entry.
pub fn history_back(pos: usize) -> (r: Option<usize>)
    ensures
        r == if pos > 0 {
            Some((pos - 1) as usize)
        } else {
            None::<usize>
        },
{
    if pos > 0 {
        Some(pos - 1)
    } else {
        None
    }
}

/// One step forward in a history of `len` inputs, from position `pos`: the
/// new position, or nothing past the end. The new position names an entry
/// to show where it is less than `len`; at `len` the input is empty.
pub fn history_forward(pos: usize, len: usize) -> (r: Option<usize>)
    ensures
        r == if pos < len {
            Some((pos + 1) as usize)
        } else {
            None::<usize>
        },
{
    if pos < len {
        Some(pos + 1)
    } else {
        None
    }
}

} // verus!
