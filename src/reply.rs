use vstd::prelude::*;

verus! {

/// The answer that a line typed at the confirmation prompt gives, if any:
/// `y` or `yes` confirms, `n` or `no` declines, matched exactly and
/// case-sensitively. Anything else is no answer and asks again.
pub open spec fn answer_of(s: Seq<char>) -> Option<bool> {
    if s == "y"@ || s == "yes"@ {
        Some(true)
    } else if s == "n"@ || s == "no"@ {
        Some(false)
    } else {
        None
    }
}

/// Reads a reply typed at the confirmation prompt, the line ending already
/// taken off.
pub fn parse_reply(s: &str) -> (r: Option<bool>)
    ensures
        r == answer_of(s@),
{
    let t = s.to_owned();
    if t == "y".to_owned() || t == "yes".to_owned() {
        Some(true)
    } else if t == "n".to_owned() || t == "no".to_owned() {
        Some(false)
    } else {
        None
    }
}

} // verus!
