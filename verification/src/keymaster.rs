//! Dealings with the key master: keys handed over for safekeeping, and keys
//! asked for on behalf of a reader.

use vstd::prelude::*;
use vstd::string::StringExecFns;
use crate::certificate::Securite;
use crate::constants::DOMAIN_NAME;
use crate::messages::{RoutageMessageAction, RoutageMessageActionSpec};
use crate::reply::{
    reply_err, Reply, ReplySpec, CODE_DOWNSTREAM, CODE_GENERIC, CODE_TRANSPORT,
    CODE_UNEXPECTED_REPLY,
};
use crate::text::contains_text;

verus! {

pub const DOMAINE_NOM_MAITREDESCLES: &'static str = "MaitreDesCles";

pub const COMMANDE_AJOUTER_CLE_DOMAINES: &'static str = "ajouterCleDomaines";

/// How long an answer of the key master is waited for, in milliseconds.
pub const KEYMASTER_TIMEOUT: u64 = 3000;

/// What came of handing a key to the key master.
#[derive(Debug, PartialEq, Eq)]
pub enum EscrowOutcome {
    /// The key master confirmed that it holds the key.
    Saved,
    /// The key master answered, and not with `ok`.
    Refused { message: Option<String>, err: Option<String> },
    /// An answer came that is no valid message.
    UnexpectedReply,
    /// No answer came in time.
    Timeout,
    /// The key could not be sent; the text says why.
    Transport(String),
    /// The key message or the answer could not be read; the text says why.
    Unreadable(String),
}

/// What `EscrowOutcome` holds, as plain values.
pub ghost enum EscrowOutcomeSpec {
    Saved,
    Refused { message: Option<Seq<char>>, err: Option<Seq<char>> },
    UnexpectedReply,
    Timeout,
    Transport(Seq<char>),
    Unreadable(Seq<char>),
}

impl DeepView for EscrowOutcome {
    type V = EscrowOutcomeSpec;

    open spec fn deep_view(&self) -> EscrowOutcomeSpec {
        match self {
            EscrowOutcome::Saved => EscrowOutcomeSpec::Saved,
            EscrowOutcome::Refused { message, err } => EscrowOutcomeSpec::Refused {
                message: message.deep_view(),
                err: err.deep_view(),
            },
            EscrowOutcome::UnexpectedReply => EscrowOutcomeSpec::UnexpectedReply,
            EscrowOutcome::Timeout => EscrowOutcomeSpec::Timeout,
            EscrowOutcome::Transport(why) => EscrowOutcomeSpec::Transport(why@),
            EscrowOutcome::Unreadable(why) => EscrowOutcomeSpec::Unreadable(why@),
        }
    }
}

/// What an answer of the key master to a key comes to: the key is in
/// safekeeping where the answer says `ok`, and nowhere else; what the key
/// master says besides is kept to be handed on.
pub open spec fn escrow_answered(
    ok: Option<bool>,
    message: Option<Seq<char>>,
    err: Option<Seq<char>>,
) -> EscrowOutcomeSpec {
    if ok == Some(true) {
        EscrowOutcomeSpec::Saved
    } else {
        EscrowOutcomeSpec::Refused { message: message, err: err }
    }
}

/// What an answer of the key master to a key comes to.
pub fn escrow_answer(ok: Option<bool>, message: Option<String>, err: Option<String>) -> (r:
    EscrowOutcome)
    ensures
        r.deep_view() == escrow_answered(ok, message.deep_view(), err.deep_view()),
{
    let saved = match ok {
        Some(b) => b,
        None => false,
    };
    if saved {
        EscrowOutcome::Saved
    } else {
        EscrowOutcome::Refused { message: message, err: err }
    }
}

/// What the sender of a key is told when the key was not put in safekeeping;
/// `None` when it was.
pub open spec fn escrow_refusal(outcome: EscrowOutcomeSpec) -> Option<ReplySpec> {
    match outcome {
        EscrowOutcomeSpec::Saved => None,
        EscrowOutcomeSpec::Refused { message, err } => Some(
            ReplySpec { ok: false, code: Some(CODE_DOWNSTREAM), err: err, message: message },
        ),
        EscrowOutcomeSpec::UnexpectedReply => Some(
            reply_err(CODE_UNEXPECTED_REPLY, "Error saving key"@),
        ),
        EscrowOutcomeSpec::Timeout => Some(reply_err(CODE_GENERIC, "Timeout"@)),
        EscrowOutcomeSpec::Transport(why) => Some(reply_err(CODE_TRANSPORT, "Error: "@ + why)),
        EscrowOutcomeSpec::Unreadable(why) => Some(reply_err(CODE_GENERIC, "Error: "@ + why)),
    }
}

/// Where a key goes for safekeeping: to the key master, on the public
/// exchange, whose answer is waited for three seconds.
pub fn escrow_routage() -> (r: RoutageMessageAction)
    ensures
        r.deep_view() == (RoutageMessageActionSpec {
            domaine: DOMAINE_NOM_MAITREDESCLES@,
            action: COMMANDE_AJOUTER_CLE_DOMAINES@,
            exchange: Securite::L1Public,
            timeout_blocking: Some(KEYMASTER_TIMEOUT),
        }),
{
    RoutageMessageAction::new(
        DOMAINE_NOM_MAITREDESCLES,
        COMMANDE_AJOUTER_CLE_DOMAINES,
        Securite::L1Public,
        Some(KEYMASTER_TIMEOUT),
    )
}

/// The text of an error with what caused it.
fn error_text(why: &String) -> (r: String)
    ensures
        r@ == "Error: "@ + why@,
{
    String::from_str("Error: ").concat(why.as_str())
}

/// What the sender of a key is told when the key was not put in safekeeping;
/// `None` when it was.
pub fn transmit_attached_key(outcome: &EscrowOutcome) -> (r: Option<Reply>)
    ensures
        r.deep_view() == escrow_refusal(outcome.deep_view()),
{
    match outcome {
        EscrowOutcome::Saved => None,
        EscrowOutcome::Refused { message, err } => Some(
            Reply::relayed(Some(CODE_DOWNSTREAM), message, err),
        ),
        EscrowOutcome::UnexpectedReply => Some(
            Reply::error(CODE_UNEXPECTED_REPLY, "Error saving key"),
        ),
        EscrowOutcome::Timeout => Some(Reply::error(CODE_GENERIC, "Timeout")),
        EscrowOutcome::Transport(why) => {
            let text = error_text(why);
            Some(Reply::error(CODE_TRANSPORT, text.as_str()))
        },
        EscrowOutcome::Unreadable(why) => {
            let text = error_text(why);
            Some(Reply::error(CODE_GENERIC, text.as_str()))
        },
    }
}

/// A request for keys: for the keys of this domain with the given
/// references, encrypted anew for a certificate where one is given.
#[derive(Debug, PartialEq, Eq)]
pub struct RequeteDechiffrage {
    pub domaine: String,
    pub cle_ids: Vec<String>,
    pub certificat_rechiffrage: Option<Vec<String>>,
}

/// What `RequeteDechiffrage` holds, as plain values.
pub ghost struct RequeteDechiffrageSpec {
    pub domaine: Seq<char>,
    pub cle_ids: Seq<Seq<char>>,
    pub certificat_rechiffrage: Option<Seq<Seq<char>>>,
}

impl DeepView for RequeteDechiffrage {
    type V = RequeteDechiffrageSpec;

    open spec fn deep_view(&self) -> RequeteDechiffrageSpec {
        RequeteDechiffrageSpec {
            domaine: self.domaine@,
            cle_ids: self.cle_ids.deep_view(),
            certificat_rechiffrage: self.certificat_rechiffrage.deep_view(),
        }
    }
}

/// The texts of a list, each once, at the place where it comes first.
pub open spec fn without_repeats(texts: Seq<Seq<char>>) -> Seq<Seq<char>>
    decreases texts.len(),
{
    if texts.len() == 0 {
        Seq::empty()
    } else {
        let before = without_repeats(texts.drop_last());
        if before.contains(texts.last()) {
            before
        } else {
            before.push(texts.last())
        }
    }
}

/// A list without repeats holds what the list held, each text once.
pub proof fn lemma_without_repeats(texts: Seq<Seq<char>>)
    ensures
        without_repeats(texts).no_duplicates(),
        forall|t: Seq<char>| without_repeats(texts).contains(t) <==> texts.contains(t),
        without_repeats(texts).len() <= texts.len(),
    decreases texts.len(),
{
    if texts.len() > 0 {
        let head = texts.drop_last();
        let before = without_repeats(head);
        lemma_without_repeats(head);
        let after = without_repeats(texts);
        assert forall|t: Seq<char>| after.contains(t) <==> texts.contains(t) by {
            if texts.contains(t) {
                let i = choose|i: int| 0 <= i < texts.len() && texts[i] == t;
                if i < head.len() {
                    assert(head[i] == t);
                    assert(head.contains(t));
                    assert(before.contains(t));
                    let k = choose|k: int| 0 <= k < before.len() && before[k] == t;
                    assert(after[k] == t);
                } else {
                    if !before.contains(t) {
                        assert(after[before.len() as int] == t);
                    } else {
                        let k = choose|k: int| 0 <= k < before.len() && before[k] == t;
                        assert(after[k] == t);
                    }
                }
            }
            if after.contains(t) {
                let k = choose|k: int| 0 <= k < after.len() && after[k] == t;
                if k < before.len() {
                    assert(before[k] == t);
                    assert(before.contains(t));
                    assert(head.contains(t));
                    let i = choose|i: int| 0 <= i < head.len() && head[i] == t;
                    assert(head[i] == texts[i]);
                    assert(texts[i] == t);
                } else {
                    assert(after == before.push(texts.last()));
                    assert(texts[texts.len() - 1] == t);
                }
            }
        }
    }
}

/// The texts of a list, each once, at the place where it comes first.
pub fn dedup_texts(texts: &Vec<String>) -> (r: Vec<String>)
    ensures
        r.deep_view() == without_repeats(texts.deep_view()),
{
    let mut kept: Vec<String> = Vec::new();
    let ghost all = texts.deep_view();
    let mut i: usize = 0;
    assert(all.take(0) =~= Seq::empty());
    assert(kept.deep_view() =~= Seq::empty());
    while i < texts.len()
        invariant
            i <= texts.len(),
            all == texts.deep_view(),
            kept.deep_view() == without_repeats(all.take(i as int)),
        decreases texts.len() - i,
    {
        let ghost before = kept.deep_view();
        assert(all.take(i + 1).drop_last() =~= all.take(i as int));
        assert(all.take(i + 1).last() == texts[i as int]@);
        if !contains_text(&kept, texts[i].as_str()) {
            kept.push(texts[i].clone());
            assert(kept.deep_view() =~= before.push(texts[i as int]@));
        }
        i = i + 1;
    }
    assert(all.take(i as int) =~= all);
    kept
}

/// The request for the keys of the given references, each asked for once,
/// encrypted anew for the certificate.
pub fn get_encrypted_keys(cle_ids: &Vec<String>, certificate: Option<Vec<String>>) -> (r:
    RequeteDechiffrage)
    ensures
        r.deep_view() == (RequeteDechiffrageSpec {
            domaine: DOMAIN_NAME@,
            cle_ids: without_repeats(cle_ids.deep_view()),
            certificat_rechiffrage: certificate.deep_view(),
        }),
{
    RequeteDechiffrage {
        domaine: String::from_str(DOMAIN_NAME),
        cle_ids: dedup_texts(cle_ids),
        certificat_rechiffrage: certificate,
    }
}

/// What the key master answers to a request for keys that this service
/// reads itself.
#[derive(Debug, PartialEq, Eq)]
pub struct ReponseRequeteDechiffrageV2 {
    pub ok: bool,
    pub err: Option<String>,
    /// The keys, each as it was received.
    pub cles: Option<Vec<String>>,
}

/// Why no keys were had.
#[derive(Clone, Copy, Debug, PartialEq, Eq, Structural)]
pub enum KeyError {
    /// No answer, or one of another kind than a valid message.
    BadResponse,
    /// The key master answered, and not with `ok`.
    Refused,
    /// The answer holds no keys.
    NoKeys,
}

/// The keys that the key master answered with.
pub fn get_decrypted_keys(response: Option<ReponseRequeteDechiffrageV2>) -> (r: Result<
    Vec<String>,
    KeyError,
>)
    ensures
        match response {
            None => r == Err::<Vec<String>, KeyError>(KeyError::BadResponse),
            Some(answer) => if !answer.ok {
                r == Err::<Vec<String>, KeyError>(KeyError::Refused)
            } else {
                match answer.cles {
                    Some(keys) => r == Ok::<Vec<String>, KeyError>(keys),
                    None => r == Err::<Vec<String>, KeyError>(KeyError::NoKeys),
                }
            },
        },
{
    match response {
        None => Err(KeyError::BadResponse),
        Some(answer) => {
            if !answer.ok {
                Err(KeyError::Refused)
            } else {
                match answer.cles {
                    Some(keys) => Ok(keys),
                    None => Err(KeyError::NoKeys),
                }
            }
        },
    }
}

/// The request that fetches the keys of the given references for a reader,
/// or none where there is no key to fetch.
pub fn fetch_decryption_keys(key_ids: &Vec<String>, certificate: Vec<String>) -> (r: Option<
    RequeteDechiffrage,
>)
    ensures
        key_ids.len() == 0 ==> r is None,
        key_ids.len() > 0 ==> r.deep_view() == Some(
            RequeteDechiffrageSpec {
                domaine: DOMAIN_NAME@,
                cle_ids: without_repeats(key_ids.deep_view()),
                certificat_rechiffrage: Some(certificate.deep_view()),
            },
        ),
{
    if key_ids.len() > 0 {
        Some(get_encrypted_keys(key_ids, Some(certificate)))
    } else {
        None
    }
}

} // verus!
