//! Streaming readings to the Java side: whether to keep asking the hardware for more, and when
//! the Java side asks to stop.
use vstd::prelude::*;

verus! {

/// Whether to keep asking for readings, after an optional notice from the Java side: a notice
/// `false` stops the stream for good; nothing else restarts it.
pub fn update_sending(sending: bool, notice: Option<bool>) -> (r: bool)
    ensures
        r == (sending && notice != Some(false)),
{
    match notice {
        Some(it) => {
            if sending && !it {
                false
            } else {
                sending
            }
        },
        None => sending,
    }
}

/// Whether a reply of the Java side asks the stream to stop: a single zero byte.
pub fn is_stop_reply(reply: &[u8]) -> (r: bool)
    ensures
        r == (reply@.len() == 1 && reply@[0] == 0),
{
    reply.len() == 1 && reply[0] == 0
}

} // verus!
