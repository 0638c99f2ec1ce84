//! A message as it reaches the service: validated, with the claims of its
//! sender and its content read into the type that its action calls for.

use vstd::prelude::*;
use vstd::string::StringExecFns;
use crate::certificate::{Certificate, CertificateSpec, Securite};
use crate::constants::{
    COMMAND_CLAIM_AND_FILEHOST_VISITS, COMMAND_PROCESS_FEED_VIEW, DOMAINE_TOPOLOGIE,
    DOMAIN_DATASOURCEMAPPER, DOMAIN_NAME, EVENT_FEED_DATA_UPDATED,
};
use crate::keymaster::{EscrowOutcome, EscrowOutcomeSpec};
use crate::reply::{
    Reply, ReplySpec, CODE_BAD_INPUT, CODE_DUPLICATE, CODE_INTERNAL, CODE_TRANSPORT,
    CODE_UNAUTHORIZED, CODE_UNEXPECTED_REPLY,
};
use crate::transactions::ApplyError;
use crate::messages_commands::{
    CommandAddFuuidsVolatile, CommandAddFuuidsVolatileSpec, InsertFeedViewGroupedDatedRequest,
    InsertFeedViewGroupedDatedRequestSpec, ProcessViewRequest, ProcessViewRequestSpec,
};
use crate::messages_requests::{
    CheckExistingDataIdsRequest, CheckExistingDataIdsRequestSpec, FeedDataRequest,
    FeedDataRequestSpec, FeedViewDataRequest, FeedViewDataRequestSpec, FeedViewsRequest,
    FeedViewsRequestSpec, RequestGetDataItems, RequestGetDataItemsSpec, RequestGetFeeds,
    RequestGetFeedsSpec, RequestGetFuuidsVolatile, RequestGetFuuidsVolatileSpec,
};
use crate::transactions_struct::{
    CreateFeedTransaction, CreateFeedTransactionSpec, CreateFeedViewTransaction,
    CreateFeedViewTransactionSpec, DeleteFeedTransaction, DeleteFeedTransactionSpec,
    RestoreFeedTransaction, RestoreFeedTransactionSpec, SaveDataItemTransaction,
    SaveDataItemTransactionSpec, SaveDataItemTransactionV2, SaveDataItemTransactionV2Spec,
    UpdateFeedTransaction, UpdateFeedTransactionSpec, UpdateFeedViewTransaction,
    UpdateFeedViewTransactionSpec,
};

verus! {

/// The kinds of message that the bus delivers.
#[derive(Clone, Copy, Debug, PartialEq, Eq, Structural)]
pub enum MessageKind {
    Requete,
    Commande,
    Evenement,
    Transaction,
}

/// The content of a message, read into the type that its action calls for.
#[derive(Debug, PartialEq, Eq)]
pub enum Contenu {
    CreateFeed(CreateFeedTransaction),
    UpdateFeed(UpdateFeedTransaction),
    DeleteFeed(DeleteFeedTransaction),
    RestoreFeed(RestoreFeedTransaction),
    SaveDataItem(SaveDataItemTransaction),
    SaveDataItemV2(SaveDataItemTransactionV2),
    CreateFeedView(CreateFeedViewTransaction),
    UpdateFeedView(UpdateFeedViewTransaction),
    AddFuuidsVolatile(CommandAddFuuidsVolatile),
    ProcessView(ProcessViewRequest),
    InsertViewData(InsertFeedViewGroupedDatedRequest),
    GetFeeds(RequestGetFeeds),
    CheckExistingDataIds(CheckExistingDataIdsRequest),
    GetDataItems(RequestGetDataItems),
    GetFuuidsVolatile(RequestGetFuuidsVolatile),
    GetFeedData(FeedDataRequest),
    GetFeedViews(FeedViewsRequest),
    GetFeedViewData(FeedViewDataRequest),
    /// No content is needed, or none was read.
    Empty,
}

/// What `Contenu` holds, as plain values.
pub ghost enum ContenuSpec {
    CreateFeed(CreateFeedTransactionSpec),
    UpdateFeed(UpdateFeedTransactionSpec),
    DeleteFeed(DeleteFeedTransactionSpec),
    RestoreFeed(RestoreFeedTransactionSpec),
    SaveDataItem(SaveDataItemTransactionSpec),
    SaveDataItemV2(SaveDataItemTransactionV2Spec),
    CreateFeedView(CreateFeedViewTransactionSpec),
    UpdateFeedView(UpdateFeedViewTransactionSpec),
    AddFuuidsVolatile(CommandAddFuuidsVolatileSpec),
    ProcessView(ProcessViewRequestSpec),
    InsertViewData(InsertFeedViewGroupedDatedRequestSpec),
    GetFeeds(RequestGetFeedsSpec),
    CheckExistingDataIds(CheckExistingDataIdsRequestSpec),
    GetDataItems(RequestGetDataItemsSpec),
    GetFuuidsVolatile(RequestGetFuuidsVolatileSpec),
    GetFeedData(FeedDataRequestSpec),
    GetFeedViews(FeedViewsRequestSpec),
    GetFeedViewData(FeedViewDataRequestSpec),
    Empty,
}

impl DeepView for Contenu {
    type V = ContenuSpec;

    open spec fn deep_view(&self) -> ContenuSpec {
        match self {
            Contenu::CreateFeed(c) => ContenuSpec::CreateFeed(c.deep_view()),
            Contenu::UpdateFeed(c) => ContenuSpec::UpdateFeed(c.deep_view()),
            Contenu::DeleteFeed(c) => ContenuSpec::DeleteFeed(c.deep_view()),
            Contenu::RestoreFeed(c) => ContenuSpec::RestoreFeed(c.deep_view()),
            Contenu::SaveDataItem(c) => ContenuSpec::SaveDataItem(c.deep_view()),
            Contenu::SaveDataItemV2(c) => ContenuSpec::SaveDataItemV2(c.deep_view()),
            Contenu::CreateFeedView(c) => ContenuSpec::CreateFeedView(c.deep_view()),
            Contenu::UpdateFeedView(c) => ContenuSpec::UpdateFeedView(c.deep_view()),
            Contenu::AddFuuidsVolatile(c) => ContenuSpec::AddFuuidsVolatile(c.deep_view()),
            Contenu::ProcessView(c) => ContenuSpec::ProcessView(c.deep_view()),
            Contenu::InsertViewData(c) => ContenuSpec::InsertViewData(c.deep_view()),
            Contenu::GetFeeds(c) => ContenuSpec::GetFeeds(c.deep_view()),
            Contenu::CheckExistingDataIds(c) => ContenuSpec::CheckExistingDataIds(c.deep_view()),
            Contenu::GetDataItems(c) => ContenuSpec::GetDataItems(c.deep_view()),
            Contenu::GetFuuidsVolatile(c) => ContenuSpec::GetFuuidsVolatile(c.deep_view()),
            Contenu::GetFeedData(c) => ContenuSpec::GetFeedData(c.deep_view()),
            Contenu::GetFeedViews(c) => ContenuSpec::GetFeedViews(c.deep_view()),
            Contenu::GetFeedViewData(c) => ContenuSpec::GetFeedViewData(c.deep_view()),
            Contenu::Empty => ContenuSpec::Empty,
        }
    }
}

/// A validated message.
#[derive(Debug, PartialEq, Eq)]
pub struct MessageValide {
    /// The identifier of the message; a transaction keeps it for good.
    pub id: String,
    /// When the sender made the message.
    pub estampille: i64,
    pub kind: MessageKind,
    pub action: String,
    /// What the certificate of the sender asserts.
    pub certificat: Certificate,
    pub contenu: Contenu,
    /// The key message attached under `key`, as it was received.
    pub attached_key: Option<String>,
}

/// What `MessageValide` holds, as plain values.
pub ghost struct MessageValideSpec {
    pub id: Seq<char>,
    pub estampille: i64,
    pub kind: MessageKind,
    pub action: Seq<char>,
    pub certificat: CertificateSpec,
    pub contenu: ContenuSpec,
    pub attached_key: Option<Seq<char>>,
}

impl DeepView for MessageValide {
    type V = MessageValideSpec;

    open spec fn deep_view(&self) -> MessageValideSpec {
        MessageValideSpec {
            id: self.id@,
            estampille: self.estampille,
            kind: self.kind,
            action: self.action@,
            certificat: self.certificat.deep_view(),
            contenu: self.contenu.deep_view(),
            attached_key: self.attached_key.deep_view(),
        }
    }
}

/// What the mapper answered when it was asked to process a view.
#[derive(Debug, PartialEq, Eq)]
pub enum MapperOutcome {
    /// A confirmation, with what it says.
    Confirmation { ok: Option<bool>, code: Option<i64>, err: Option<String> },
    /// An answer that is no confirmation.
    Unreadable,
    /// No answer came in time.
    NoReply,
    /// The command could not be sent.
    Transport,
}

/// What `MapperOutcome` holds, as plain values.
pub ghost enum MapperOutcomeSpec {
    Confirmation { ok: Option<bool>, code: Option<i64>, err: Option<Seq<char>> },
    Unreadable,
    NoReply,
    Transport,
}

impl DeepView for MapperOutcome {
    type V = MapperOutcomeSpec;

    open spec fn deep_view(&self) -> MapperOutcomeSpec {
        match self {
            MapperOutcome::Confirmation { ok, code, err } => MapperOutcomeSpec::Confirmation {
                ok: *ok,
                code: *code,
                err: err.deep_view(),
            },
            MapperOutcome::Unreadable => MapperOutcomeSpec::Unreadable,
            MapperOutcome::NoReply => MapperOutcomeSpec::NoReply,
            MapperOutcome::Transport => MapperOutcomeSpec::Transport,
        }
    }
}

/// What the other services answer to what a message makes this service ask
/// of them. Nothing here is looked at unless the message gets that far.
#[derive(Debug, PartialEq, Eq)]
pub struct Outside {
    /// What came of handing the attached key to the key master.
    pub key_escrow: EscrowOutcome,
    /// The keys that the key master encrypted anew for the reader, as it
    /// sent them; none where it gave no valid answer.
    pub key_bundle: Option<String>,
    /// What the mapper answered when it was asked to process a view.
    pub mapper: MapperOutcome,
}

/// What `Outside` holds, as plain values.
pub ghost struct OutsideSpec {
    pub key_escrow: EscrowOutcomeSpec,
    pub key_bundle: Option<Seq<char>>,
    pub mapper: MapperOutcomeSpec,
}

impl DeepView for Outside {
    type V = OutsideSpec;

    open spec fn deep_view(&self) -> OutsideSpec {
        OutsideSpec {
            key_escrow: self.key_escrow.deep_view(),
            key_bundle: self.key_bundle.deep_view(),
            mapper: self.mapper.deep_view(),
        }
    }
}

/// What a command sends to other services once it has changed the
/// collections.
#[derive(Debug, PartialEq, Eq)]
pub enum SideEffect {
    /// The file registry is told that these files are referred to.
    ClaimAndVisit { fuuids: Vec<String> },
    /// Listeners on the protected exchange are told that a feed has new data.
    FeedDataUpdated { feed_id: String },
    /// The mapper is asked to process a view.
    ProcessFeedView { feed_id: String, feed_view_id: String },
}

/// What `SideEffect` holds, as plain values.
pub ghost enum SideEffectSpec {
    ClaimAndVisit { fuuids: Seq<Seq<char>> },
    FeedDataUpdated { feed_id: Seq<char> },
    ProcessFeedView { feed_id: Seq<char>, feed_view_id: Seq<char> },
}

impl DeepView for SideEffect {
    type V = SideEffectSpec;

    open spec fn deep_view(&self) -> SideEffectSpec {
        match self {
            SideEffect::ClaimAndVisit { fuuids } => SideEffectSpec::ClaimAndVisit {
                fuuids: fuuids.deep_view(),
            },
            SideEffect::FeedDataUpdated { feed_id } => SideEffectSpec::FeedDataUpdated {
                feed_id: feed_id@,
            },
            SideEffect::ProcessFeedView { feed_id, feed_view_id } => SideEffectSpec::ProcessFeedView {
                feed_id: feed_id@,
                feed_view_id: feed_view_id@,
            },
        }
    }
}

/// A command that was handled: the reply, and what it sends to other
/// services.
#[derive(Debug, PartialEq, Eq)]
pub struct Handled {
    pub reply: Reply,
    pub effects: Vec<SideEffect>,
}

/// What `Handled` holds, as plain values.
pub ghost struct HandledSpec {
    pub reply: ReplySpec,
    pub effects: Seq<SideEffectSpec>,
}

impl DeepView for Handled {
    type V = HandledSpec;

    open spec fn deep_view(&self) -> HandledSpec {
        HandledSpec { reply: self.reply.deep_view(), effects: self.effects.deep_view() }
    }
}

/// Why a message was not handled. Nothing is replied by the handler then,
/// and whatever it had begun is undone.
#[derive(Clone, Copy, Debug, PartialEq, Eq, Structural)]
pub enum Failure {
    /// The sender is neither a private user, nor a system module, nor the
    /// global owner.
    AccessDenied,
    /// The message is not of the kind that was expected.
    BadMessageType,
    /// The content is not what the action calls for.
    Malformed,
    /// The transaction was not applied.
    Apply(ApplyError),
    /// The view says that its data is of a kind that is not known.
    UnsupportedDataType,
    /// A message to another service could not be sent.
    Transport,
    /// The key master gave no valid answer to a request for keys.
    KeysUnavailable,
}

/// What a handler returned, with its texts as sequences of characters.
pub open spec fn handled_view(r: Result<Handled, Failure>) -> Result<HandledSpec, Failure> {
    match r {
        Ok(h) => Ok(h.deep_view()),
        Err(f) => Err(f),
    }
}

impl Handled {
    /// A reply with nothing sent to anyone.
    pub fn reply(reply: Reply) -> (r: Handled)
        ensures
            r.deep_view() == (HandledSpec { reply: reply.deep_view(), effects: Seq::empty() }),
    {
        let h = Handled { reply: reply, effects: Vec::new() };
        assert(h.effects.deep_view() =~= Seq::empty());
        h
    }
}

/// Where a message to another service goes: the domain, the action, the
/// exchange, and for how many milliseconds an answer is waited for, if one
/// is.
#[derive(Debug, PartialEq, Eq)]
pub struct RoutageMessageAction {
    pub domaine: String,
    pub action: String,
    pub exchange: Securite,
    pub timeout_blocking: Option<u64>,
}

/// What `RoutageMessageAction` holds, as plain values.
pub ghost struct RoutageMessageActionSpec {
    pub domaine: Seq<char>,
    pub action: Seq<char>,
    pub exchange: Securite,
    pub timeout_blocking: Option<u64>,
}

impl DeepView for RoutageMessageAction {
    type V = RoutageMessageActionSpec;

    open spec fn deep_view(&self) -> RoutageMessageActionSpec {
        RoutageMessageActionSpec {
            domaine: self.domaine@,
            action: self.action@,
            exchange: self.exchange,
            timeout_blocking: self.timeout_blocking,
        }
    }
}

impl RoutageMessageAction {
    /// A routing to the given action of the given domain.
    pub fn new(domaine: &str, action: &str, exchange: Securite, timeout_blocking: Option<u64>) -> (r:
        RoutageMessageAction)
        ensures
            r.deep_view() == (RoutageMessageActionSpec {
                domaine: domaine@,
                action: action@,
                exchange: exchange,
                timeout_blocking: timeout_blocking,
            }),
    {
        RoutageMessageAction {
            domaine: String::from_str(domaine),
            action: String::from_str(action),
            exchange: exchange,
            timeout_blocking: timeout_blocking,
        }
    }
}

/// How long an answer of the mapper is waited for, in milliseconds.
pub const MAPPER_TIMEOUT: u64 = 5000;

/// Where what a command sends goes: claims to the file registry, the news
/// of a feed to the listeners of this domain, the processing of a view to
/// the mapper, whose answer is waited for five seconds; all of it on the
/// protected exchange.
pub open spec fn effect_routing(effect: SideEffectSpec) -> RoutageMessageActionSpec {
    match effect {
        SideEffectSpec::ClaimAndVisit { .. } => RoutageMessageActionSpec {
            domaine: DOMAINE_TOPOLOGIE@,
            action: COMMAND_CLAIM_AND_FILEHOST_VISITS@,
            exchange: Securite::L3Protege,
            timeout_blocking: None,
        },
        SideEffectSpec::FeedDataUpdated { .. } => RoutageMessageActionSpec {
            domaine: DOMAIN_NAME@,
            action: EVENT_FEED_DATA_UPDATED@,
            exchange: Securite::L3Protege,
            timeout_blocking: None,
        },
        SideEffectSpec::ProcessFeedView { .. } => RoutageMessageActionSpec {
            domaine: DOMAIN_DATASOURCEMAPPER@,
            action: COMMAND_PROCESS_FEED_VIEW@,
            exchange: Securite::L3Protege,
            timeout_blocking: Some(MAPPER_TIMEOUT),
        },
    }
}

impl SideEffect {
    /// Where the message goes.
    pub fn routage(&self) -> (r: RoutageMessageAction)
        ensures
            r.deep_view() == effect_routing(self.deep_view()),
    {
        match self {
            SideEffect::ClaimAndVisit { .. } => RoutageMessageAction::new(
                DOMAINE_TOPOLOGIE,
                COMMAND_CLAIM_AND_FILEHOST_VISITS,
                Securite::L3Protege,
                None,
            ),
            SideEffect::FeedDataUpdated { .. } => RoutageMessageAction::new(
                DOMAIN_NAME,
                EVENT_FEED_DATA_UPDATED,
                Securite::L3Protege,
                None,
            ),
            SideEffect::ProcessFeedView { .. } => RoutageMessageAction::new(
                DOMAIN_DATASOURCEMAPPER,
                COMMAND_PROCESS_FEED_VIEW,
                Securite::L3Protege,
                Some(MAPPER_TIMEOUT),
            ),
        }
    }
}

/// The code under which a failure is told on the bus: a sender that is not
/// admitted is not authorised; a message of the wrong kind or with a content
/// that cannot be read is bad input; a row that a unique index refuses is a
/// conflict; the key master that gives no valid answer has replied with
/// something unexpected; a service that cannot be reached is a failure of
/// transport; and whatever else goes wrong is a failure of the service
/// itself.
pub open spec fn failure_code(failure: Failure) -> i64 {
    match failure {
        Failure::AccessDenied => CODE_UNAUTHORIZED,
        Failure::BadMessageType => CODE_BAD_INPUT,
        Failure::Malformed => CODE_BAD_INPUT,
        Failure::Apply(ApplyError::Duplicate) => CODE_DUPLICATE,
        Failure::Apply(_) => CODE_INTERNAL,
        Failure::UnsupportedDataType => CODE_INTERNAL,
        Failure::Transport => CODE_TRANSPORT,
        Failure::KeysUnavailable => CODE_UNEXPECTED_REPLY,
    }
}

impl Failure {
    /// The code under which the failure is told on the bus.
    pub fn code(&self) -> (r: i64)
        ensures
            r == failure_code(*self),
    {
        match self {
            Failure::AccessDenied => CODE_UNAUTHORIZED,
            Failure::BadMessageType => CODE_BAD_INPUT,
            Failure::Malformed => CODE_BAD_INPUT,
            Failure::Apply(ApplyError::Duplicate) => CODE_DUPLICATE,
            Failure::Apply(_) => CODE_INTERNAL,
            Failure::UnsupportedDataType => CODE_INTERNAL,
            Failure::Transport => CODE_TRANSPORT,
            Failure::KeysUnavailable => CODE_UNEXPECTED_REPLY,
        }
    }
}

} // verus!
