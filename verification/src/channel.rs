//! The receiving end of the realtime command channel between the engine
//! and a playing source. The channel type comes from an outside crate;
//! the source only ever polls it without blocking.

use vstd::prelude::*;
use crate::commands::RealtimeAudioCommand;

verus! {

#[verifier::external_type_specification]
#[verifier::external_body]
#[verifier::reject_recursive_types(T)]
pub struct ExReceiver<T>(crossbeam_channel::Receiver<T>);

/// Relies on crossbeam_channel::Receiver::try_recv: pops the next
/// pending message without blocking; `None` when the channel is empty
/// or disconnected. What comes back depends on what the engine thread
/// has sent, so nothing more can be promised of the result.
#[verifier::external_body]
pub(crate) fn try_recv_command(
    rx: &crossbeam_channel::Receiver<RealtimeAudioCommand>,
) -> (r: Option<RealtimeAudioCommand>)
{
    rx.try_recv().ok()
}

} // verus!
