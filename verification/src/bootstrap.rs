use vstd::prelude::*;

verus! {

/// What the first-run flow does with one confirmation keystroke.
pub enum ConfirmAction {
    /// Keep the values just entered.
    Accept,
    /// Discard them and ask again.
    Reinput,
    /// Abort the flow.
    Cancel,
    /// Not a recognized answer; ask for the keystroke again.
    Unknown,
}

/// Interpret the first character of a confirmation answer. An empty answer
/// (just a newline) counts as acceptance.
pub fn confirm_decision(c: char) -> (r: ConfirmAction)
    ensures
        r is Accept <==> (c == 'Y' || c == 'y' || c == '\n'),
        r is Reinput <==> (c == 'N' || c == 'n'),
        r is Cancel <==> (c == 'C' || c == 'c'),
        r is Unknown <==> !(c == 'Y' || c == 'y' || c == '\n' || c == 'N' || c == 'n' || c == 'C'
            || c == 'c'),
{
    match c {
        'Y' | 'y' | '\n' => ConfirmAction::Accept,
        'N' | 'n' => ConfirmAction::Reinput,
        'C' | 'c' => ConfirmAction::Cancel,
        _ => ConfirmAction::Unknown,
    }
}

} // verus!
