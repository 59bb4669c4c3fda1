//! Where reported lines go, and the exact text written for each one.

use vstd::prelude::*;

verus! {

/// The destination of reported lines.
#[derive(Debug)]
pub enum LogTarget {
    /// Standard output; each message is written as it is.
    Console,
    /// A file that each message is appended to, followed by a newline.
    File { path: String },
}

/// The target chosen by the `log` option: `console`, or else a file path.
pub open spec fn target_of(log: Seq<char>, t: LogTarget) -> bool {
    if log == "console"@ {
        t is Console
    } else {
        t matches LogTarget::File { path } && path@ == log
    }
}

/// The text written for one message.
pub open spec fn rendered(t: LogTarget, msg: Seq<char>) -> Seq<char> {
    match t {
        LogTarget::Console => msg,
        LogTarget::File { .. } => msg + "\n"@,
    }
}

/// Everything written for a sequence of messages, in order.
pub open spec fn rendered_all(t: LogTarget, msgs: Seq<Seq<char>>) -> Seq<char>
    decreases msgs.len(),
{
    if msgs.len() == 0 {
        Seq::empty()
    } else {
        rendered_all(t, msgs.drop_last()) + rendered(t, msgs.last())
    }
}

/// Each message adds to what was written before and removes nothing: on
/// the console the message itself, with no newline in between; in a file
/// the message followed by one newline.
pub proof fn output_appends(t: LogTarget, msgs: Seq<Seq<char>>, msg: Seq<char>)
    ensures
        t is Console ==> rendered_all(t, msgs.push(msg)) == rendered_all(t, msgs) + msg,
        t is File ==> rendered_all(t, msgs.push(msg)) == rendered_all(t, msgs) + msg + "\n"@,
        rendered_all(t, msgs).is_prefix_of(rendered_all(t, msgs.push(msg))),
{
    assert(msgs.push(msg).drop_last() =~= msgs);
    let all = rendered_all(t, msgs);
    let more = rendered_all(t, msgs.push(msg));
    assert(more =~= all + rendered(t, msg));
    assert(more.subrange(0, all.len() as int) =~= all);
}

/// Chooses the destination from the `log` option.
pub fn log_factory(log_name: &str) -> (r: LogTarget)
    ensures
        target_of(log_name@, r),
{
    if String::from_str(log_name) == String::from_str("console") {
        LogTarget::Console
    } else {
        LogTarget::File { path: String::from_str(log_name) }
    }
}

impl LogTarget {
    /// The text to write for `msg`.
    pub fn render(&self, msg: &str) -> (r: String)
        ensures
            r@ == rendered(*self, msg@),
    {
        match self {
            LogTarget::Console => String::from_str(msg),
            LogTarget::File { .. } => String::from_str(msg).concat("\n"),
        }
    }
}

} // verus!
