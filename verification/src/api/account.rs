//! The account operations of the API: the login request and result, the
//! account entity, and a credential store whose lookup-and-verify handler
//! never reveals whether a handle exists.

use crate::crypto::{check_credential, credential_tag, seal_credential, MAX_CREDENTIAL_LEN};
use crate::error::Error;
use vstd::prelude::*;
use vstd::string::StringSliceAdditionalSpecFns;

verus! {

/// The account operations; the tag selects the handler.
#[derive(Debug, Clone, Copy)]
pub enum Method<'a> {
    Login(LoginReq<'a>),
}

/// A login request: handle and password, as the client sent them.
#[derive(Debug, Clone, Copy)]
pub struct LoginReq<'a> {
    pub uname: &'a str,
    pub pword: &'a str,
}

/// An account as handed back on successful login. No credential material
/// appears here.
#[derive(Debug, PartialEq, Eq)]
pub struct Account {
    pub id: String,
    pub name: Option<String>,
}

impl Clone for Account {
    fn clone(&self) -> (r: Self)
        ensures
            r == *self,
    {
        Account {
            id: self.id.clone(),
            name: match &self.name {
                Some(n) => Some(n.clone()),
                None => None,
            },
        }
    }
}

/// The outcome of a login. Deliberately undifferentiated on failure: an
/// unknown handle and a wrong password are the same `Failed`.
#[derive(Debug, PartialEq, Eq)]
pub enum LoginRes {
    Success(Account),
    Failed,
}

/// One stored account: the handle, the credential tag sealed over the
/// password, and the account entity. The password itself is never stored.
#[derive(Debug)]
pub struct AccountRecord {
    pub uname: String,
    pub tag: Vec<u8>,
    pub account: Account,
}

/// The credential store the login handler works against: a sealing key and
/// the records, with handles unique.
#[derive(Debug)]
pub struct AccountStore {
    key: Vec<u8>,
    records: Vec<AccountRecord>,
}

impl AccountStore {
    /// The sealing key.
    pub closed spec fn key_spec(&self) -> Seq<u8> {
        self.key@
    }

    /// The stored records.
    pub closed spec fn records_spec(&self) -> Seq<AccountRecord> {
        self.records@
    }

    /// Well-formed: no two records bear the same handle.
    pub open spec fn wf(&self) -> bool {
        forall|i: int, j: int|
            0 <= i < self.records_spec().len() && 0 <= j < self.records_spec().len() && i != j
                ==> (#[trigger] self.records_spec()[i].uname@) != (
            #[trigger] self.records_spec()[j].uname@)
    }

    /// Some record bears this handle.
    pub open spec fn has_uname(&self, uname: Seq<char>) -> bool {
        exists|i: int|
            0 <= i < self.records_spec().len() && (#[trigger] self.records_spec()[i].uname@)
                == uname
    }

    /// Some record bears this handle and its tag is the credential tag of
    /// this password under the store's key.
    pub open spec fn cred_ok(&self, uname: Seq<char>, pword: Seq<char>) -> bool {
        exists|i: int|
            0 <= i < self.records_spec().len() && (#[trigger] self.records_spec()[i].uname@)
                == uname && self.records_spec()[i].tag@ == credential_tag(self.key_spec(), pword)
    }

    /// The account of the record bearing this handle.
    pub open spec fn account_for(&self, uname: Seq<char>) -> Account {
        let i = choose|i: int|
            0 <= i < self.records_spec().len() && (#[trigger] self.records_spec()[i].uname@)
                == uname;
        self.records_spec()[i].account
    }

    /// An empty store sealing with this key.
    pub fn new(key: Vec<u8>) -> (r: AccountStore)
        ensures
            r.wf(),
            r.records_spec().len() == 0,
            r.key_spec() == key@,
    {
        AccountStore { key, records: Vec::new() }
    }

    /// The index of the record bearing this handle, if any.
    fn find(&self, uname: &str) -> (r: Option<usize>)
        ensures
            r matches Some(i) ==> i < self.records_spec().len() && self.records_spec()[
                i as int
            ].uname@ == uname@,
            r is None ==> !self.has_uname(uname@),
    {
        let target = uname.to_owned();
        let mut k: usize = 0;
        while k < self.records.len()
            invariant
                k <= self.records@.len(),
                target@ == uname@,
                forall|j: int| 0 <= j < k ==> (#[trigger] self.records@[j].uname@) != uname@,
            decreases self.records@.len() - k,
        {
            if self.records[k].uname == target {
                return Some(k);
            }
            k += 1;
        }
        None
    }

    /// Adds an account under a new handle, sealing the password into a
    /// credential tag; a handle already present is refused, and the store is
    /// then unchanged.
    pub fn add_account(&mut self, uname: &str, pword: &str, account: Account) -> (r: Result<
        (),
        Error,
    >)
        requires
            old(self).wf(),
            pword.spec_bytes().len() < MAX_CREDENTIAL_LEN as nat,
        ensures
            final(self).wf(),
            final(self).key_spec() == old(self).key_spec(),
            r is Ok <==> !old(self).has_uname(uname@),
            r matches Err(e) ==> e == Error::HandleAlreadyExists && *final(self) == *old(self),
            r is Ok ==> {
                &&& final(self).records_spec().len() == old(self).records_spec().len() + 1
                &&& final(self).records_spec().last().uname@ == uname@
                &&& final(self).records_spec().last().tag@ == credential_tag(
                    old(self).key_spec(),
                    pword@,
                )
                &&& final(self).records_spec().last().account == account
                &&& forall|i: int|
                    0 <= i < old(self).records_spec().len() ==> final(self).records_spec()[i]
                        == old(self).records_spec()[i]
            },
    {
        match self.find(uname) {
            Some(_) => Err(Error::HandleAlreadyExists),
            None => {
                let tag = seal_credential(self.key.as_slice(), pword);
                let rec = AccountRecord { uname: uname.to_owned(), tag, account };
                self.records.push(rec);
                Ok(())
            },
        }
    }

    /// What a correct login outcome is: the account of the handle's record
    /// when the credential tag matches, and an undifferentiated `Failed`
    /// otherwise.
    pub open spec fn login_ok(&self, uname: Seq<char>, pword: Seq<char>, r: LoginRes) -> bool {
        if self.cred_ok(uname, pword) {
            r matches LoginRes::Success(a) && a == self.account_for(uname)
        } else {
            r == LoginRes::Failed
        }
    }

    /// The login handler: looks the handle up and verifies the credential.
    /// A lookup miss and a wrong password return the same value; a success is
    /// only ever reported for the genuine credential.
    pub fn login(&self, req: &LoginReq) -> (r: LoginRes)
        requires
            self.wf(),
        ensures
            req.pword.spec_bytes().len() < MAX_CREDENTIAL_LEN as nat ==> self.login_ok(
                req.uname@,
                req.pword@,
                r,
            ),
            r matches LoginRes::Success(a) ==> self.cred_ok(req.uname@, req.pword@) && a
                == self.account_for(req.uname@),
    {
        match self.find(req.uname) {
            None => {
                // Do the same verification work as the known-handle path, so
                // that a lookup miss is not cheaper than a wrong password.
                let burn: Vec<u8> = Vec::new();
                let _ = check_credential(self.key.as_slice(), req.pword, burn.as_slice());
                proof {
                    if self.cred_ok(req.uname@, req.pword@) {
                        let i = choose|i: int|
                            0 <= i < self.records_spec().len() && (
                            #[trigger] self.records_spec()[i].uname@) == req.uname@
                                && self.records_spec()[i].tag@ == credential_tag(
                                self.key_spec(),
                                req.pword@,
                            );
                        assert(self.has_uname(req.uname@));
                    }
                }
                LoginRes::Failed
            },
            Some(i) => {
                if check_credential(self.key.as_slice(), req.pword, self.records[i].tag.as_slice())
                {
                    proof {
                        let j = choose|j: int|
                            0 <= j < self.records_spec().len() && (
                            #[trigger] self.records_spec()[j].uname@) == req.uname@;
                        assert(j == i);
                    }
                    LoginRes::Success(self.records[i].account.clone())
                } else {
                    proof {
                        if self.cred_ok(req.uname@, req.pword@) {
                            let j = choose|j: int|
                                0 <= j < self.records_spec().len() && (
                                #[trigger] self.records_spec()[j].uname@) == req.uname@
                                    && self.records_spec()[j].tag@ == credential_tag(
                                    self.key_spec(),
                                    req.pword@,
                                );
                            assert(j == i);
                        }
                    }
                    LoginRes::Failed
                }
            },
        }
    }
}

/// Law: where a handle's stored credential verifies against the right
/// password, logging in with it yields the stored account, and logging in
/// with a password whose tag differs yields `Failed`. That the wrong
/// password's tag differs is taken as given: the tag is an uninterpreted
/// digest, so its collision-freedom on a pair of inputs cannot be stated of
/// it, only assumed here.
pub proof fn lemma_login_scenario(
    store: AccountStore,
    uname: Seq<char>,
    right: Seq<char>,
    wrong: Seq<char>,
    r_right: LoginRes,
    r_wrong: LoginRes,
)
    requires
        store.wf(),
        store.cred_ok(uname, right),
        credential_tag(store.key_spec(), wrong) != credential_tag(store.key_spec(), right),
        store.login_ok(uname, right, r_right),
        store.login_ok(uname, wrong, r_wrong),
    ensures
        r_right matches LoginRes::Success(a) && a == store.account_for(uname),
        r_wrong == LoginRes::Failed,
{
    if store.cred_ok(uname, wrong) {
        let i = choose|i: int|
            0 <= i < store.records_spec().len() && (#[trigger] store.records_spec()[i].uname@)
                == uname && store.records_spec()[i].tag@ == credential_tag(
                store.key_spec(),
                wrong,
            );
        let j = choose|j: int|
            0 <= j < store.records_spec().len() && (#[trigger] store.records_spec()[j].uname@)
                == uname && store.records_spec()[j].tag@ == credential_tag(
                store.key_spec(),
                right,
            );
        assert(i == j);
        assert(false);
    }
}

/// Law: a login for an unknown handle and a login with a wrong password for a
/// known handle both produce `Failed` — the returned value does not reveal
/// which of the two happened.
pub proof fn lemma_login_indistinguishable(
    store: AccountStore,
    u1: Seq<char>,
    p1: Seq<char>,
    r1: LoginRes,
    u2: Seq<char>,
    p2: Seq<char>,
    r2: LoginRes,
)
    requires
        !store.has_uname(u1),
        store.login_ok(u1, p1, r1),
        store.has_uname(u2),
        !store.cred_ok(u2, p2),
        store.login_ok(u2, p2, r2),
    ensures
        r1 == LoginRes::Failed,
        r2 == LoginRes::Failed,
        r1 == r2,
{
    if store.cred_ok(u1, p1) {
        let i = choose|i: int|
            0 <= i < store.records_spec().len() && (#[trigger] store.records_spec()[i].uname@)
                == u1 && store.records_spec()[i].tag@ == credential_tag(store.key_spec(), p1);
        assert(store.has_uname(u1));
    }
}

} // verus!
