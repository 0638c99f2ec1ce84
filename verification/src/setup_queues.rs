//! The queues of the service, and what is routed to them.

use vstd::prelude::*;
use vstd::string::StringExecFns;
use crate::certificate::Securite;
use crate::domain_manager::DataCollectorDomainManager;
use crate::constants::{
    COMMAND_ADD_FUUIDS_VOLATILE, COMMAND_INSERT_VIEW_DATA, COMMAND_PROCESS_VIEW, DOMAIN_NAME,
    REQUEST_CHECK_EXISTING_DATA_IDS, REQUEST_GET_DATA_ITEMS_DATE_RANGE,
    REQUEST_GET_DATA_ITEMS_MOST_RECENT, REQUEST_GET_FEEDS, REQUEST_GET_FEEDS_FOR_SCRAPER,
    REQUEST_GET_FEED_DATA, REQUEST_GET_FEED_VIEWS, REQUEST_GET_FUUIDS_VOLATILE,
    REQUEST_GET_VIEW_DATA, TRANSACTION_CREATE_FEED, TRANSACTION_CREATE_FEED_VIEW,
    TRANSACTION_DELETE_FEED, TRANSACTION_SAVE_DATA_ITEM, TRANSACTION_SAVE_DATA_ITEM_V2,
    TRANSACTION_UPDATE_FEED, TRANSACTION_UPDATE_FEED_VIEW,
};

verus! {

/// A routing key, and the exchange on which it is listened to.
#[derive(Debug, PartialEq, Eq)]
pub struct ConfigRoutingExchange {
    pub routing_key: String,
    pub exchange: Securite,
}

/// How long a message waits in a queue.
#[derive(Clone, Copy, Debug, PartialEq, Eq, Structural)]
pub enum QueueTtl {
    /// As long as the bus lets messages wait where a queue says nothing.
    Default,
    /// So many milliseconds.
    Millis(u32),
}

/// A queue bound to routing keys.
#[derive(Debug, PartialEq, Eq)]
pub struct ConfigQueue {
    pub nom_queue: String,
    pub routing_keys: Vec<ConfigRoutingExchange>,
    pub ttl: QueueTtl,
    pub durable: bool,
    pub autodelete: bool,
}

/// A queue of the service.
#[derive(Debug, PartialEq, Eq)]
pub enum QueueType {
    /// A queue of requests, commands and events.
    ExchangeQueue(ConfigQueue),
    /// The queue of the triggers of a domain, on one exchange.
    Triggers(String, Securite),
}

/// What `ConfigQueue` holds, as plain values.
pub ghost struct ConfigQueueSpec {
    pub nom_queue: Seq<char>,
    pub routing_keys: Seq<(Seq<char>, Securite)>,
    pub ttl: QueueTtl,
    pub durable: bool,
    pub autodelete: bool,
}

/// What `QueueType` holds, as plain values.
pub ghost enum QueueTypeSpec {
    ExchangeQueue(ConfigQueueSpec),
    Triggers(Seq<char>, Securite),
}

impl DeepView for ConfigRoutingExchange {
    type V = (Seq<char>, Securite);

    open spec fn deep_view(&self) -> (Seq<char>, Securite) {
        (self.routing_key@, self.exchange)
    }
}

impl DeepView for ConfigQueue {
    type V = ConfigQueueSpec;

    open spec fn deep_view(&self) -> ConfigQueueSpec {
        ConfigQueueSpec {
            nom_queue: self.nom_queue@,
            routing_keys: self.routing_keys.deep_view(),
            ttl: self.ttl,
            durable: self.durable,
            autodelete: self.autodelete,
        }
    }
}

impl DeepView for QueueType {
    type V = QueueTypeSpec;

    open spec fn deep_view(&self) -> QueueTypeSpec {
        match self {
            QueueType::ExchangeQueue(q) => QueueTypeSpec::ExchangeQueue(q.deep_view()),
            QueueType::Triggers(domain, exchange) => QueueTypeSpec::Triggers(domain@, *exchange),
        }
    }
}

/// The routing key of a request for an action of this domain.
pub open spec fn request_key(action: Seq<char>) -> Seq<char> {
    "requete."@ + DOMAIN_NAME@ + "."@ + action
}

/// The routing key of a command for an action of this domain.
pub open spec fn command_key(action: Seq<char>) -> Seq<char> {
    "commande."@ + DOMAIN_NAME@ + "."@ + action
}

/// The name of the queue of requests, commands and events.
pub open spec fn volatile_queue_name() -> Seq<char> {
    DOMAIN_NAME@ + "/volatiles"@
}

/// The name of the queue of triggers.
pub open spec fn trigger_queue_name() -> Seq<char> {
    DOMAIN_NAME@ + "/triggers"@
}

/// What is routed to the service: each action on the exchange of those who
/// may ask for it.
pub open spec fn routing_table() -> Seq<(Seq<char>, Securite)> {
    seq![
        (request_key(REQUEST_GET_FEEDS_FOR_SCRAPER@), Securite::L1Public),
        (request_key(REQUEST_CHECK_EXISTING_DATA_IDS@), Securite::L1Public),
        (request_key(REQUEST_GET_FUUIDS_VOLATILE@), Securite::L1Public),
        (request_key(REQUEST_GET_FEEDS@), Securite::L2Prive),
        (request_key(REQUEST_GET_FEED_VIEWS@), Securite::L2Prive),
        (request_key(REQUEST_GET_DATA_ITEMS_MOST_RECENT@), Securite::L2Prive),
        (request_key(REQUEST_GET_DATA_ITEMS_DATE_RANGE@), Securite::L2Prive),
        (request_key(REQUEST_GET_FEED_DATA@), Securite::L3Protege),
        (request_key(REQUEST_GET_VIEW_DATA@), Securite::L3Protege),
        (command_key(TRANSACTION_SAVE_DATA_ITEM@), Securite::L1Public),
        (command_key(TRANSACTION_SAVE_DATA_ITEM_V2@), Securite::L1Public),
        (command_key(COMMAND_ADD_FUUIDS_VOLATILE@), Securite::L1Public),
        (command_key(TRANSACTION_CREATE_FEED@), Securite::L2Prive),
        (command_key(TRANSACTION_UPDATE_FEED@), Securite::L2Prive),
        (command_key(TRANSACTION_DELETE_FEED@), Securite::L2Prive),
        (command_key(TRANSACTION_CREATE_FEED_VIEW@), Securite::L2Prive),
        (command_key(TRANSACTION_UPDATE_FEED_VIEW@), Securite::L2Prive),
        (command_key(COMMAND_PROCESS_VIEW@), Securite::L2Prive),
        (command_key(COMMAND_INSERT_VIEW_DATA@), Securite::L3Protege),
    ]
}

/// The queues of the service: one that lasts and is not removed when
/// nobody listens, bound to every action, in which messages wait as long as
/// the bus lets them by default; and the queue of the triggers.
pub open spec fn declared_queues() -> Seq<QueueTypeSpec> {
    seq![
        QueueTypeSpec::ExchangeQueue(
            ConfigQueueSpec {
                nom_queue: volatile_queue_name(),
                routing_keys: routing_table(),
                ttl: QueueTtl::Default,
                durable: true,
                autodelete: false,
            },
        ),
        QueueTypeSpec::Triggers(DOMAIN_NAME@, Securite::L3Protege),
    ]
}

/// The binding of a request.
fn request_binding(action: &str, exchange: Securite) -> (r: ConfigRoutingExchange)
    ensures
        r.deep_view() == (request_key(action@), exchange),
{
    let key = String::from_str("requete.").concat(DOMAIN_NAME).concat(".").concat(action);
    ConfigRoutingExchange { routing_key: key, exchange: exchange }
}

/// The binding of a command.
fn command_binding(action: &str, exchange: Securite) -> (r: ConfigRoutingExchange)
    ensures
        r.deep_view() == (command_key(action@), exchange),
{
    let key = String::from_str("commande.").concat(DOMAIN_NAME).concat(".").concat(action);
    ConfigRoutingExchange { routing_key: key, exchange: exchange }
}

/// The queues to declare.
pub fn setup_queues(manager: &DataCollectorDomainManager) -> (r: Vec<QueueType>)
    ensures
        r.deep_view() == declared_queues(),
{
    let mut rk_volatils: Vec<ConfigRoutingExchange> = Vec::new();
    rk_volatils.push(request_binding(REQUEST_GET_FEEDS_FOR_SCRAPER, Securite::L1Public));
    rk_volatils.push(request_binding(REQUEST_CHECK_EXISTING_DATA_IDS, Securite::L1Public));
    rk_volatils.push(request_binding(REQUEST_GET_FUUIDS_VOLATILE, Securite::L1Public));
    rk_volatils.push(request_binding(REQUEST_GET_FEEDS, Securite::L2Prive));
    rk_volatils.push(request_binding(REQUEST_GET_FEED_VIEWS, Securite::L2Prive));
    rk_volatils.push(request_binding(REQUEST_GET_DATA_ITEMS_MOST_RECENT, Securite::L2Prive));
    rk_volatils.push(request_binding(REQUEST_GET_DATA_ITEMS_DATE_RANGE, Securite::L2Prive));
    rk_volatils.push(request_binding(REQUEST_GET_FEED_DATA, Securite::L3Protege));
    rk_volatils.push(request_binding(REQUEST_GET_VIEW_DATA, Securite::L3Protege));
    rk_volatils.push(command_binding(TRANSACTION_SAVE_DATA_ITEM, Securite::L1Public));
    rk_volatils.push(command_binding(TRANSACTION_SAVE_DATA_ITEM_V2, Securite::L1Public));
    rk_volatils.push(command_binding(COMMAND_ADD_FUUIDS_VOLATILE, Securite::L1Public));
    rk_volatils.push(command_binding(TRANSACTION_CREATE_FEED, Securite::L2Prive));
    rk_volatils.push(command_binding(TRANSACTION_UPDATE_FEED, Securite::L2Prive));
    rk_volatils.push(command_binding(TRANSACTION_DELETE_FEED, Securite::L2Prive));
    rk_volatils.push(command_binding(TRANSACTION_CREATE_FEED_VIEW, Securite::L2Prive));
    rk_volatils.push(command_binding(TRANSACTION_UPDATE_FEED_VIEW, Securite::L2Prive));
    rk_volatils.push(command_binding(COMMAND_PROCESS_VIEW, Securite::L2Prive));
    rk_volatils.push(command_binding(COMMAND_INSERT_VIEW_DATA, Securite::L3Protege));
    assert(rk_volatils.deep_view() =~= routing_table());
    let mut queues: Vec<QueueType> = Vec::new();
    queues.push(
        QueueType::ExchangeQueue(
            ConfigQueue {
                nom_queue: manager.get_q_volatils(),
                routing_keys: rk_volatils,
                ttl: QueueTtl::Default,
                durable: true,
                autodelete: false,
            },
        ),
    );
    queues.push(QueueType::Triggers(String::from_str(DOMAIN_NAME), Securite::L3Protege));
    assert(queues.deep_view() =~= declared_queues());
    queues
}

} // verus!
