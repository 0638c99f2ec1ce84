//! What the certificate of a caller asserts, and the checks made on it.

use vstd::prelude::*;
use crate::constants::{ROLE_DATASOURCE_MAPPER, ROLE_WEB_SCRAPER};
use crate::reply::{reply_err, Reply, ReplySpec, CODE_UNAUTHORIZED};
use crate::text::{contains_text, copy_text, copy_texts};

verus! {

/// An exchange of the bus, from the most open to the most closed.
#[derive(Clone, Copy, Debug, PartialEq, Eq, Structural)]
pub enum Securite {
    L1Public,
    L2Prive,
    L3Protege,
    L4Secure,
}

/// The claims of a validated certificate.
#[derive(Debug, PartialEq, Eq)]
pub struct Certificate {
    /// The user that the certificate was issued to, if it is a user's.
    pub user_id: Option<String>,
    /// Whether the certificate holds the role of a private user account.
    pub private_user_account: bool,
    /// The roles of a system module.
    pub roles: Vec<String>,
    /// The exchanges that the certificate may speak on.
    pub exchanges: Vec<Securite>,
    /// Whether the certificate carries the delegation of the global owner.
    pub global_owner: bool,
    /// The certificate and those that vouch for it, as texts; keys are
    /// encrypted anew for it.
    pub chaine_pem: Vec<String>,
}

/// What `Certificate` holds, as plain values.
pub ghost struct CertificateSpec {
    pub user_id: Option<Seq<char>>,
    pub private_user_account: bool,
    pub roles: Seq<Seq<char>>,
    pub exchanges: Seq<Securite>,
    pub global_owner: bool,
    pub chaine_pem: Seq<Seq<char>>,
}

impl DeepView for Certificate {
    type V = CertificateSpec;

    open spec fn deep_view(&self) -> CertificateSpec {
        CertificateSpec {
            user_id: self.user_id.deep_view(),
            private_user_account: self.private_user_account,
            roles: self.roles.deep_view(),
            exchanges: self.exchanges@,
            global_owner: self.global_owner,
            chaine_pem: self.chaine_pem.deep_view(),
        }
    }
}

impl CertificateSpec {
    /// Whether the certificate holds the role.
    pub open spec fn has_role(self, role: Seq<char>) -> bool {
        self.roles.contains(role)
    }

    /// Whether the certificate may speak on the exchange.
    pub open spec fn has_exchange(self, level: Securite) -> bool {
        self.exchanges.contains(level)
    }

    /// A private user: the role of a private account, with a user id.
    pub open spec fn is_private_user(self) -> bool {
        self.private_user_account && self.user_id is Some
    }

    /// A system module: it speaks on one exchange at least.
    pub open spec fn is_system_module(self) -> bool {
        self.exchanges.len() > 0
    }

    /// Whether the service listens to this caller at all: a private user, a
    /// system module or the global owner.
    pub open spec fn is_admitted(self) -> bool {
        self.is_private_user() || self.is_system_module() || self.global_owner
    }

    /// A scraper: the role `web_scraper` on the public exchange.
    pub open spec fn is_scraper(self) -> bool {
        self.has_role(ROLE_WEB_SCRAPER@) && self.has_exchange(Securite::L1Public)
    }

    /// A mapper: the role `datasource_mapper` on the protected exchange.
    pub open spec fn is_mapper(self) -> bool {
        self.has_role(ROLE_DATASOURCE_MAPPER@) && self.has_exchange(Securite::L3Protege)
    }

    /// The owner under which this caller's writes fall: no one for the global
    /// owner, whose feeds are the system's, else the user.
    pub open spec fn write_scope(self) -> Option<Seq<char>> {
        if self.global_owner {
            None
        } else {
            self.user_id
        }
    }
}

/// The refusal of a caller that lacks the role asked for.
pub open spec fn refusal_role() -> ReplySpec {
    reply_err(CODE_UNAUTHORIZED, "Access denied - invalid role"@)
}

/// The refusal of a caller that lacks the exchange asked for.
pub open spec fn refusal_exchange() -> ReplySpec {
    reply_err(CODE_UNAUTHORIZED, "Access denied - invalid security level"@)
}

/// The refusal of a caller whose certificate names no user.
pub open spec fn refusal_certificate() -> ReplySpec {
    reply_err(CODE_UNAUTHORIZED, "Invalid certificate"@)
}

/// What a caller without the given role on the given exchange is told, the
/// role being looked at first; `None` for a caller that has both.
pub open spec fn module_refusal(c: CertificateSpec, role: Seq<char>, level: Securite) -> Option<
    ReplySpec,
> {
    if !c.has_role(role) {
        Some(refusal_role())
    } else if !c.has_exchange(level) {
        Some(refusal_exchange())
    } else {
        None
    }
}

impl Certificate {
    /// Whether the certificate holds the role.
    pub fn has_role(&self, role: &str) -> (r: bool)
        ensures
            r == self.deep_view().has_role(role@),
    {
        contains_text(&self.roles, role)
    }

    /// Whether the certificate may speak on the exchange.
    pub fn has_exchange(&self, level: Securite) -> (r: bool)
        ensures
            r == self.deep_view().has_exchange(level),
    {
        let mut i: usize = 0;
        while i < self.exchanges.len()
            invariant
                i <= self.exchanges.len(),
                forall|j: int| 0 <= j < i ==> self.exchanges@[j] != level,
            decreases self.exchanges.len() - i,
        {
            if self.exchanges[i] == level {
                return true;
            }
            i = i + 1;
        }
        false
    }

    /// Whether the service listens to this caller at all.
    pub fn is_admitted(&self) -> (r: bool)
        ensures
            r == self.deep_view().is_admitted(),
    {
        (self.private_user_account && self.user_id.is_some()) || self.exchanges.len() > 0
            || self.global_owner
    }

    /// Whether the caller is a scraper.
    pub fn is_scraper(&self) -> (r: bool)
        ensures
            r == self.deep_view().is_scraper(),
    {
        self.has_role(ROLE_WEB_SCRAPER) && self.has_exchange(Securite::L1Public)
    }

    /// Whether the caller is a mapper.
    pub fn is_mapper(&self) -> (r: bool)
        ensures
            r == self.deep_view().is_mapper(),
    {
        self.has_role(ROLE_DATASOURCE_MAPPER) && self.has_exchange(Securite::L3Protege)
    }

    /// The refusal owed to a caller that is no scraper, if it is none.
    pub fn scraper_refusal(&self) -> (r: Option<Reply>)
        ensures
            r.deep_view() == module_refusal(
                self.deep_view(),
                ROLE_WEB_SCRAPER@,
                Securite::L1Public,
            ),
            r is None <==> self.deep_view().is_scraper(),
    {
        if !self.has_role(ROLE_WEB_SCRAPER) {
            Some(Reply::error(CODE_UNAUTHORIZED, "Access denied - invalid role"))
        } else if !self.has_exchange(Securite::L1Public) {
            Some(Reply::error(CODE_UNAUTHORIZED, "Access denied - invalid security level"))
        } else {
            None
        }
    }

    /// The refusal owed to a caller that is no mapper, if it is none.
    pub fn mapper_refusal(&self) -> (r: Option<Reply>)
        ensures
            r.deep_view() == module_refusal(
                self.deep_view(),
                ROLE_DATASOURCE_MAPPER@,
                Securite::L3Protege,
            ),
            r is None <==> self.deep_view().is_mapper(),
    {
        if !self.has_role(ROLE_DATASOURCE_MAPPER) {
            Some(Reply::error(CODE_UNAUTHORIZED, "Access denied - invalid role"))
        } else if !self.has_exchange(Securite::L3Protege) {
            Some(Reply::error(CODE_UNAUTHORIZED, "Access denied - invalid security level"))
        } else {
            None
        }
    }

    /// The owner under which this caller's writes fall.
    pub fn write_scope(&self) -> (r: Option<String>)
        ensures
            r.deep_view() == self.deep_view().write_scope(),
    {
        if self.global_owner {
            None
        } else {
            copy_text(&self.user_id)
        }
    }
}

impl Clone for Certificate {
    fn clone(&self) -> (r: Certificate)
        ensures
            r.deep_view() == self.deep_view(),
    {
        let roles: Vec<String> = copy_texts(&self.roles);
        let mut exchanges: Vec<Securite> = Vec::new();
        let mut k: usize = 0;
        while k < self.exchanges.len()
            invariant
                k <= self.exchanges.len(),
                exchanges@ == self.exchanges@.take(k as int),
            decreases self.exchanges.len() - k,
        {
            exchanges.push(self.exchanges[k]);
            assert(exchanges@ =~= self.exchanges@.take(k + 1));
            k = k + 1;
        }
        assert(self.exchanges@.take(k as int) =~= self.exchanges@);
        Certificate {
            user_id: copy_text(&self.user_id),
            private_user_account: self.private_user_account,
            roles: roles,
            exchanges: exchanges,
            global_owner: self.global_owner,
            chaine_pem: copy_texts(&self.chaine_pem),
        }
    }
}

} // verus!
