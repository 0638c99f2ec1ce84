//! The events that the service listens to: none so far. What comes in as an
//! event is still held to the rules of every message.

use vstd::prelude::*;
use crate::messages::{Failure, MessageKind, MessageValide, MessageValideSpec};
use crate::reply::{reply_err, Reply, ReplySpec, CODE_REGENERATING, CODE_UNKNOWN_ACTION};

verus! {

/// What an event comes to. While the collections are being rebuilt, every
/// event is turned away; a sender that is not admitted, or a message that
/// is no event, fails; and no action is known.
pub open spec fn event_outcome(regeneration: bool, msg: MessageValideSpec) -> Result<
    ReplySpec,
    Failure,
> {
    if regeneration {
        Ok(reply_err(CODE_REGENERATING, "System rebuild in progress"@))
    } else if !msg.certificat.is_admitted() {
        Err(Failure::AccessDenied)
    } else if msg.kind != MessageKind::Evenement {
        Err(Failure::BadMessageType)
    } else {
        Ok(reply_err(CODE_UNKNOWN_ACTION, "Unknown event"@))
    }
}

/// Handles an event.
pub fn consume_event(regeneration: bool, message: &MessageValide) -> (r: Result<Reply, Failure>)
    ensures
        match r {
            Ok(reply) => event_outcome(regeneration, message.deep_view()) == Ok::<
                ReplySpec,
                Failure,
            >(reply.deep_view()),
            Err(failure) => event_outcome(regeneration, message.deep_view()) == Err::<
                ReplySpec,
                Failure,
            >(failure),
        },
{
    if regeneration {
        Ok(Reply::error(CODE_REGENERATING, "System rebuild in progress"))
    } else if !message.certificat.is_admitted() {
        Err(Failure::AccessDenied)
    } else if message.kind != MessageKind::Evenement {
        Err(Failure::BadMessageType)
    } else {
        Ok(Reply::error(CODE_UNKNOWN_ACTION, "Unknown event"))
    }
}

} // verus!
