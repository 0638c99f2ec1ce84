//! The manager of the domain: what the service is called, which queues it
//! listens to, and where each kind of message goes.

use vstd::prelude::*;
use vstd::string::StringExecFns;
use crate::constants::{COLLECTION_NAME_TRANSACTIONS, DOMAIN_NAME};
use crate::file_maintenance::RequeteFuuidsVisites;
use crate::messages::{handled_view, Failure, Handled, MessageValide, Outside};
use crate::messages_commands::{command_outcome, consume_command, VOLATILE_LIFETIME};
use crate::messages_events::{consume_event, event_outcome};
use crate::reply::{Reply, ReplySpec};
use crate::messages_requests::{answer_view, consume_request, request_outcome, Answer};
use crate::messages_ticker::{consume_ticker, ticker_claims};
use crate::setup_queues::{
    declared_queues, setup_queues, trigger_queue_name, volatile_queue_name, QueueType,
};
use crate::store::Store;
use crate::transactions::{apply, consume_transaction, ApplyError};

verus! {

/// The manager of the domain. It holds nothing: what the domain knows is in
/// the collections.
#[derive(Clone, Copy, Debug)]
pub struct DataCollectorDomainManager {}

impl DataCollectorDomainManager {
    /// A manager.
    pub fn new() -> (r: DataCollectorDomainManager)
        ensures
            r == (DataCollectorDomainManager {  }),
    {
        DataCollectorDomainManager {  }
    }

    /// The collection that holds the transactions of the domain.
    pub fn get_collection_transactions(&self) -> (r: Option<String>)
        ensures
            r.deep_view() == Some(COLLECTION_NAME_TRANSACTIONS@),
    {
        Some(String::from_str(COLLECTION_NAME_TRANSACTIONS))
    }

    /// The collections that a rebuild leaves alone: none.
    pub fn get_collections_volatiles(&self) -> (r: Vec<String>)
        ensures
            r@.len() == 0,
    {
        Vec::new()
    }

    /// The domain claims the files that it refers to.
    pub fn reclame_fuuids(&self) -> (r: bool)
        ensures
            r,
    {
        true
    }

    /// The name of the domain.
    pub fn get_nom_domaine(&self) -> (r: String)
        ensures
            r@ == DOMAIN_NAME@,
    {
        String::from_str(DOMAIN_NAME)
    }

    /// The name of the queue of requests, commands and events.
    pub fn get_q_volatils(&self) -> (r: String)
        ensures
            r@ == volatile_queue_name(),
    {
        String::from_str(DOMAIN_NAME).concat("/volatiles")
    }

    /// The name of the queue of triggers.
    pub fn get_q_triggers(&self) -> (r: String)
        ensures
            r@ == trigger_queue_name(),
    {
        String::from_str(DOMAIN_NAME).concat("/triggers")
    }

    /// The queues to declare.
    pub fn preparer_queues(&self) -> (r: Vec<QueueType>)
        ensures
            r.deep_view() == declared_queues(),
    {
        setup_queues(self)
    }

    /// Answers a request.
    pub fn consommer_requete(
        &self,
        store: &Store,
        regeneration: bool,
        message: &MessageValide,
        outside: &Outside,
    ) -> (r: Result<Answer, Failure>)
        requires
            store@.wf(),
        ensures
            answer_view(r) == request_outcome(
                store@,
                regeneration,
                message.deep_view(),
                outside.deep_view(),
            ),
    {
        consume_request(store, regeneration, message, outside)
    }

    /// Handles an event.
    pub fn consommer_evenement(&self, regeneration: bool, message: &MessageValide) -> (r: Result<
        Reply,
        Failure,
    >)
        ensures
            match r {
                Ok(reply) => event_outcome(regeneration, message.deep_view()) == Ok::<
                    ReplySpec,
                    Failure,
                >(reply.deep_view()),
                Err(failure) => event_outcome(regeneration, message.deep_view()) == Err::<
                    ReplySpec,
                    Failure,
                >(failure),
            },
    {
        consume_event(regeneration, message)
    }

    /// Handles a command.
    pub fn consommer_commande(
        &self,
        store: &mut Store,
        regeneration: bool,
        message: MessageValide,
        outside: &Outside,
        now: i64,
    ) -> (r: Result<Handled, Failure>)
        requires
            old(store)@.wf(),
            now + VOLATILE_LIFETIME <= i64::MAX,
        ensures
            (final(store)@, handled_view(r)) == command_outcome(
                old(store)@,
                regeneration,
                message.deep_view(),
                outside.deep_view(),
                now,
            ),
            final(store)@.wf(),
    {
        consume_command(store, regeneration, message, outside, now)
    }

    /// Applies a transaction.
    pub fn aiguillage_transaction(&self, store: &mut Store, transaction: &MessageValide, now: i64) -> (r:
        Result<(), ApplyError>)
        requires
            old(store)@.wf(),
        ensures
            (final(store)@, r) == apply(old(store)@, transaction.deep_view(), now),
            final(store)@.wf(),
    {
        consume_transaction(store, transaction, now)
    }

    /// The claims that a tick calls for; none while the collections are
    /// rebuilt.
    pub fn traiter_cedule(&self, store: &Store, regeneration: bool, date: i64, now: i64) -> (r: Vec<
        RequeteFuuidsVisites,
    >)
        ensures
            r.deep_view() == ticker_claims(store@, regeneration, date, now),
    {
        consume_ticker(store, regeneration, date, now)
    }
}

} // verus!
