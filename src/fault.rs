use vstd::prelude::*;

verus! {

/// How a job's execution ended abnormally, as the driver saw it.
#[derive(Clone, Debug, PartialEq, Eq)]
pub enum Fault {
    /// The job panicked; carries the panic payload when it was a string.
    Panic(Option<String>),
    /// The job was cancelled before it finished.
    Cancelled,
}

/// The diagnostic message recorded for a fault: the panic's own text where
/// there is one, else a fixed description.
pub open spec fn failure_message(f: Fault) -> Seq<char> {
    match f {
        Fault::Panic(Some(text)) => if text@.len() > 0 {
            text@
        } else {
            "Unknown panic"@
        },
        Fault::Panic(None) => "Unknown panic"@,
        Fault::Cancelled => "Cancelled task"@,
    }
}

/// Turns a fault into the message stored with the failed job.
pub fn diagnostic_message(f: &Fault) -> (r: String)
    ensures
        r@ == failure_message(*f),
        r@.len() > 0,
{
    proof {
        reveal_strlit("Unknown panic");
        reveal_strlit("Cancelled task");
    }
    match f {
        Fault::Panic(Some(text)) => {
            if text.as_str().unicode_len() > 0 {
                text.clone()
            } else {
                String::from_str("Unknown panic")
            }
        },
        Fault::Panic(None) => String::from_str("Unknown panic"),
        Fault::Cancelled => String::from_str("Cancelled task"),
    }
}

} // verus!
