//! The credential store: the persisted `User` and `Credential` records and
//! the operations the ceremonies need, with username uniqueness enforced at
//! the storage layer and the registration insert pair as one atomic step.

use vstd::prelude::*;

use webauthn_rs::prelude::Passkey;

use crate::ceremony::clone_passkey;

verus! {

/// A user that can authenticate with passkeys.
/// Timestamps are seconds since an epoch chosen by the caller.
#[derive(Debug, Clone)]
pub struct User {
    /// The storage-assigned identity of the user: its position in the store.
    pub id: u64,
    /// The client-facing unique identifier, assigned at registration start.
    pub uuid: u128,
    /// The unique username of the user.
    pub username: String,
    /// When the user was created.
    pub created_at: u64,
    /// When the user last authenticated, if ever.
    pub last_authentication: Option<u64>,
}

impl User {
    /// An exact copy of this record.
    pub fn duplicate(&self) -> (r: User)
        ensures
            r == *self,
    {
        User {
            id: self.id,
            uuid: self.uuid,
            username: self.username.clone(),
            created_at: self.created_at,
            last_authentication: self.last_authentication,
        }
    }
}

/// A stored passkey credential.
///
/// The verifier-owned material is kept opaque in `passkey`, with its
/// serialised form in `passkey_json`; what the protocol logic reads of it —
/// the credential id and the signature counter — is mirrored in plain
/// fields. The mirrored counter starts at zero and tracks the highest
/// counter a verified assertion has asserted for this credential.
#[derive(Debug)]
pub struct Credential {
    /// The storage-assigned identity of the credential: its position in the
    /// store.
    pub id: u64,
    /// The `uuid` of the user that owns this credential.
    pub user_uuid: u128,
    /// The credential id bytes of the passkey.
    pub cred_id: Vec<u8>,
    /// The highest signature counter a verified assertion has asserted.
    pub counter: u32,
    /// The opaque verifier-owned credential material.
    pub passkey: Passkey,
    /// The serialised form of the material, as persisted.
    pub passkey_json: String,
    /// When the credential was created.
    pub created_at: u64,
    /// When the credential was last updated.
    pub updated_at: u64,
}

/// An exact copy of a byte vector.
pub fn clone_bytes(v: &Vec<u8>) -> (r: Vec<u8>)
    ensures
        r@ == v@,
{
    let mut r: Vec<u8> = Vec::new();
    let mut i: usize = 0;
    while i < v.len()
        invariant
            i <= v@.len(),
            r@ == v@.subrange(0, i as int),
        decreases v@.len() - i,
    {
        r.push(v[i]);
        proof {
            assert(v@.subrange(0, i + 1).drop_last() == v@.subrange(0, i as int));
            assert(r@.drop_last() == v@.subrange(0, i as int));
            assert(r@ =~= v@.subrange(0, i + 1));
        }
        i += 1;
    }
    proof {
        assert(v@.subrange(0, v@.len() as int) == v@);
    }
    r
}

/// The credential belongs to the user with `uuid` and carries `cred_id`.
pub open spec fn cred_matches(c: Credential, uuid: u128, cred_id: Seq<u8>) -> bool {
    c.user_uuid == uuid && c.cred_id@ == cred_id
}

/// The position of the first credential in `creds` that carries `cred_id`,
/// or `creds.len()` if there is none.
pub open spec fn first_with_cred_id(creds: Seq<Credential>, cred_id: Seq<u8>) -> nat
    decreases creds.len(),
{
    if creds.len() == 0 {
        0
    } else if creds[0].cred_id@ == cred_id {
        0
    } else {
        1 + first_with_cred_id(creds.subrange(1, creds.len() as int), cred_id)
    }
}

proof fn lemma_first_with_cred_id_unique(creds: Seq<Credential>, cred_id: Seq<u8>, m: int)
    requires
        0 <= m <= creds.len(),
        m < creds.len() ==> creds[m].cred_id@ == cred_id,
        forall|k: int| 0 <= k < m ==> (#[trigger] creds[k]).cred_id@ != cred_id,
    ensures
        first_with_cred_id(creds, cred_id) == m,
    decreases creds.len(),
{
    if creds.len() == 0 {
    } else if creds[0].cred_id@ == cred_id {
        assert(m == 0);
    } else {
        assert(m >= 1);
        let t = creds.subrange(1, creds.len() as int);
        assert(forall|k: int|
            0 <= k < m - 1 ==> #[trigger] t[k] == creds[k + 1] && creds[k + 1].cred_id@
                != cred_id);
        lemma_first_with_cred_id_unique(t, cred_id, m - 1);
    }
}

/// The two records agree on every field, with byte vectors compared by
/// contents.
pub open spec fn same_credential(a: Credential, b: Credential) -> bool {
    &&& a.id == b.id
    &&& a.user_uuid == b.user_uuid
    &&& a.cred_id@ == b.cred_id@
    &&& a.counter == b.counter
    &&& a.passkey == b.passkey
    &&& a.passkey_json == b.passkey_json
    &&& a.created_at == b.created_at
    &&& a.updated_at == b.updated_at
}

impl Credential {
    /// An exact copy of this record.
    pub fn duplicate(&self) -> (r: Credential)
        ensures
            same_credential(r, *self),
    {
        Credential {
            id: self.id,
            user_uuid: self.user_uuid,
            cred_id: clone_bytes(&self.cred_id),
            counter: self.counter,
            passkey: clone_passkey(&self.passkey),
            passkey_json: self.passkey_json.clone(),
            created_at: self.created_at,
            updated_at: self.updated_at,
        }
    }
}

/// The error the store reports when an insert would break the username
/// uniqueness constraint.
#[derive(Debug, PartialEq, Eq, Structural)]
pub enum StoreError {
    UsernameTaken,
}

/// The store of `User` and `Credential` records.
///
/// Records are never deleted, so a record's identity is its position.
pub struct CredentialStore {
    pub users: Vec<User>,
    pub credentials: Vec<Credential>,
}

impl CredentialStore {
    /// Well-formedness: every record's id equals its position, and
    /// usernames are unique — the storage-layer constraint the ceremonies
    /// rely on. User uuids come from a random draw outside this model, so
    /// their uniqueness is not part of the invariant.
    pub open spec fn wf(&self) -> bool {
        &&& forall|i: int|
            0 <= i < self.users@.len() ==> (#[trigger] self.users@[i]).id == i as u64
        &&& forall|i: int, j: int|
            0 <= i < j < self.users@.len() ==> (#[trigger] self.users@[i]).username@ != (
            #[trigger] self.users@[j]).username@
        &&& forall|i: int|
            0 <= i < self.credentials@.len() ==> (#[trigger] self.credentials@[i]).id == i as u64
    }

    /// Some user carries this username.
    pub open spec fn has_username(&self, name: Seq<char>) -> bool {
        exists|i: int|
            0 <= i < self.users@.len() && (#[trigger] self.users@[i]).username@ == name
    }

    /// Some user carries this uuid.
    pub open spec fn has_user_uuid(&self, uuid: u128) -> bool {
        exists|i: int| 0 <= i < self.users@.len() && (#[trigger] self.users@[i]).uuid == uuid
    }

    /// Some credential carries these credential id bytes.
    pub open spec fn has_cred_id(&self, cred_id: Seq<u8>) -> bool {
        exists|i: int|
            0 <= i < self.credentials@.len() && (#[trigger] self.credentials@[i]).cred_id@
                == cred_id
    }

    /// An empty store.
    pub fn new() -> (s: CredentialStore)
        ensures
            s.wf(),
            s.users@ =~= Seq::<User>::empty(),
            s.credentials@ =~= Seq::<Credential>::empty(),
    {
        CredentialStore { users: Vec::new(), credentials: Vec::new() }
    }

    /// Looks a user up by username.
    pub fn get_user_by_username(&self, username: &String) -> (r: Option<User>)
        ensures
            match r {
                Some(u) => exists|i: int|
                    0 <= i < self.users@.len() && #[trigger] self.users@[i] == u && u.username@
                        == username@,
                None => !self.has_username(username@),
            },
    {
        let mut i: usize = 0;
        while i < self.users.len()
            invariant
                i <= self.users@.len(),
                forall|k: int| 0 <= k < i ==> (#[trigger] self.users@[k]).username@ != username@,
            decreases self.users@.len() - i,
        {
            if self.users[i].username.eq(username) {
                return Some(self.users[i].duplicate());
            }
            i += 1;
        }
        None
    }

    /// Looks a user up by uuid.
    pub fn get_user_by_uuid(&self, uuid: u128) -> (r: Option<User>)
        ensures
            match r {
                Some(u) => exists|i: int|
                    0 <= i < self.users@.len() && #[trigger] self.users@[i] == u && u.uuid == uuid,
                None => !self.has_user_uuid(uuid),
            },
    {
        let mut i: usize = 0;
        while i < self.users.len()
            invariant
                i <= self.users@.len(),
                forall|k: int| 0 <= k < i ==> (#[trigger] self.users@[k]).uuid != uuid,
            decreases self.users@.len() - i,
        {
            if self.users[i].uuid == uuid {
                return Some(self.users[i].duplicate());
            }
            i += 1;
        }
        None
    }

    /// Looks a user up by its storage identity.
    pub fn get_user_by_id(&self, id: u64) -> (r: Option<User>)
        requires
            self.wf(),
        ensures
            match r {
                Some(u) => id < self.users@.len() && u == self.users@[id as int],
                None => id >= self.users@.len(),
            },
    {
        if id < self.users.len() as u64 {
            Some(self.users[id as usize].duplicate())
        } else {
            None
        }
    }

    /// Inserts a new user together with its first credential, as one atomic
    /// step: on any failure nothing is inserted. A username collision is
    /// rejected here, at the storage layer; this check is authoritative.
    pub fn insert_user_with_credential(
        &mut self,
        username: String,
        uuid: u128,
        cred_id: Vec<u8>,
        passkey: Passkey,
        passkey_json: String,
        now: u64,
    ) -> (r: Result<User, StoreError>)
        requires
            old(self).wf(),
        ensures
            final(self).wf(),
            r is Err <==> old(self).has_username(username@),
            r is Err ==> *final(self) == *old(self),
            r matches Err(e) ==> e == StoreError::UsernameTaken,
            r matches Ok(u) ==> {
                &&& u.id == old(self).users@.len()
                &&& u.uuid == uuid
                &&& u.username == username
                &&& u.created_at == now
                &&& u.last_authentication is None
                &&& final(self).users@ == old(self).users@.push(u)
                &&& final(self).credentials@.len() == old(self).credentials@.len() + 1
                &&& final(self).credentials@ == old(self).credentials@.push(
                    final(self).credentials@.last(),
                )
                &&& ({
                    let c = final(self).credentials@.last();
                    &&& c.id == old(self).credentials@.len()
                    &&& c.user_uuid == uuid
                    &&& c.cred_id == cred_id
                    &&& c.counter == 0
                    &&& c.passkey == passkey
                    &&& c.passkey_json == passkey_json
                    &&& c.created_at == now
                    &&& c.updated_at == now
                })
            },
    {
        if self.get_user_by_username(&username).is_some() {
            return Err(StoreError::UsernameTaken);
        }
        let user = User {
            id: self.users.len() as u64,
            uuid,
            username,
            created_at: now,
            last_authentication: None,
        };
        let credential = Credential {
            id: self.credentials.len() as u64,
            user_uuid: uuid,
            cred_id,
            counter: 0,
            passkey,
            passkey_json,
            created_at: now,
            updated_at: now,
        };
        let record = user.duplicate();
        self.users.push(user);
        self.credentials.push(credential);
        Ok(record)
    }

    /// Inserts a further credential for an existing user, as when an
    /// account grows a second authenticator. The new record starts with the
    /// mirrored counter at zero.
    pub fn insert_credential(
        &mut self,
        user_uuid: u128,
        cred_id: Vec<u8>,
        passkey: Passkey,
        passkey_json: String,
        now: u64,
    ) -> (r: u64)
        requires
            old(self).wf(),
        ensures
            final(self).wf(),
            final(self).users@ == old(self).users@,
            r == old(self).credentials@.len(),
            final(self).credentials@ == old(self).credentials@.push(
                final(self).credentials@.last(),
            ),
            ({
                let c = final(self).credentials@.last();
                &&& c.id == r
                &&& c.user_uuid == user_uuid
                &&& c.cred_id == cred_id
                &&& c.counter == 0
                &&& c.passkey == passkey
                &&& c.passkey_json == passkey_json
                &&& c.created_at == now
                &&& c.updated_at == now
            }),
    {
        let id = self.credentials.len() as u64;
        self.credentials.push(
            Credential {
                id,
                user_uuid,
                cred_id,
                counter: 0,
                passkey,
                passkey_json,
                created_at: now,
                updated_at: now,
            },
        );
        id
    }

    /// A credential record owned by the user with this uuid.
    pub open spec fn owned_by(uuid: u128) -> spec_fn(Credential) -> bool {
        |c: Credential| c.user_uuid == uuid
    }

    /// All credentials owned by the user with this uuid, in storage order.
    pub fn get_credentials_for_user(&self, uuid: u128) -> (r: Vec<Credential>)
        ensures
            r@.len() == self.credentials@.filter(CredentialStore::owned_by(uuid)).len(),
            forall|k: int|
                0 <= k < r@.len() ==> same_credential(
                    #[trigger] r@[k],
                    self.credentials@.filter(CredentialStore::owned_by(uuid))[k],
                ),
    {
        let ghost pred = CredentialStore::owned_by(uuid);
        let mut r: Vec<Credential> = Vec::new();
        let mut i: usize = 0;
        proof {
            reveal(Seq::filter);
            assert(self.credentials@.subrange(0, 0) =~= Seq::<Credential>::empty());
        }
        while i < self.credentials.len()
            invariant
                i <= self.credentials@.len(),
                pred == CredentialStore::owned_by(uuid),
                r@.len() == self.credentials@.subrange(0, i as int).filter(pred).len(),
                forall|k: int|
                    0 <= k < r@.len() ==> same_credential(
                        #[trigger] r@[k],
                        self.credentials@.subrange(0, i as int).filter(pred)[k],
                    ),
            decreases self.credentials@.len() - i,
        {
            proof {
                reveal(Seq::filter);
                assert(self.credentials@.subrange(0, i + 1).drop_last() == self.credentials@
                    .subrange(0, i as int));
                assert(self.credentials@.subrange(0, i + 1).last() == self.credentials@[i as int]);
            }
            if self.credentials[i].user_uuid == uuid {
                r.push(self.credentials[i].duplicate());
            }
            i += 1;
        }
        proof {
            assert(self.credentials@.subrange(0, self.credentials@.len() as int) == self
                .credentials@);
        }
        r
    }

    /// Looks the first credential up that carries these credential id bytes.
    pub fn get_credential_by_cred_id(&self, cred_id: &Vec<u8>) -> (r: Option<Credential>)
        ensures
            match r {
                Some(c) => {
                    let m = first_with_cred_id(self.credentials@, cred_id@) as int;
                    &&& m < self.credentials@.len()
                    &&& same_credential(self.credentials@[m], c)
                    &&& c.cred_id@ == cred_id@
                },
                None => !self.has_cred_id(cred_id@),
            },
    {
        let mut i: usize = 0;
        while i < self.credentials.len()
            invariant
                i <= self.credentials@.len(),
                forall|k: int|
                    0 <= k < i ==> (#[trigger] self.credentials@[k]).cred_id@ != cred_id@,
            decreases self.credentials@.len() - i,
        {
            if bytes_eq(&self.credentials[i].cred_id, cred_id) {
                proof {
                    lemma_first_with_cred_id_unique(self.credentials@, cred_id@, i as int);
                }
                return Some(self.credentials[i].duplicate());
            }
            i += 1;
        }
        None
    }

    /// Overwrites the counter, material and update time of the credential at
    /// position `index`, leaving every other record untouched.
    pub fn write_back_credential(
        &mut self,
        index: usize,
        counter: u32,
        passkey: Passkey,
        passkey_json: String,
        now: u64,
    ) -> (r: ())
        requires
            old(self).wf(),
            index < old(self).credentials@.len(),
        ensures
            final(self).wf(),
            final(self).users@ == old(self).users@,
            final(self).credentials@.len() == old(self).credentials@.len(),
            forall|j: int|
                0 <= j < final(self).credentials@.len() && j != index ==> final(self).credentials@[j]
                    == old(self).credentials@[j],
            ({
                let c = final(self).credentials@[index as int];
                let o = old(self).credentials@[index as int];
                &&& c.id == o.id
                &&& c.user_uuid == o.user_uuid
                &&& c.cred_id@ == o.cred_id@
                &&& c.created_at == o.created_at
                &&& c.counter == counter
                &&& c.passkey == passkey
                &&& c.passkey_json == passkey_json
                &&& c.updated_at == now
            }),
    {
        let old_cred = &self.credentials[index];
        let updated = Credential {
            id: old_cred.id,
            user_uuid: old_cred.user_uuid,
            cred_id: clone_bytes(&old_cred.cred_id),
            counter,
            passkey,
            passkey_json,
            created_at: old_cred.created_at,
            updated_at: now,
        };
        self.credentials[index] = updated;
    }
}

/// Compares two byte vectors for equality.
pub fn bytes_eq(a: &Vec<u8>, b: &Vec<u8>) -> (r: bool)
    ensures
        r == (a@ == b@),
{
    if a.len() != b.len() {
        return false;
    }
    let mut i: usize = 0;
    while i < a.len()
        invariant
            i <= a@.len(),
            a@.len() == b@.len(),
            forall|k: int| 0 <= k < i ==> a@[k] == b@[k],
        decreases a@.len() - i,
    {
        if a[i] != b[i] {
            return false;
        }
        i += 1;
    }
    proof {
        assert(a@ =~= b@);
    }
    true
}

} // verus!
