//! The credential store: registering users with Argon2-hashed passwords and
//! checking presented credentials.
//!
//! A user matches a login when the presented username or the presented email
//! equals the stored one (either alone suffices); that policy is stated once
//! in `login_matches` and nowhere else.

use crate::errors::CoreError;
use crate::external::{fresh_uuid, now_ts};
use crate::models::{LoginInput, RegisterInput, User};
use crate::store::{lookup, spec_save, Keyed, RepositoryCore};
use argon2::PasswordHasher;
use argon2::PasswordVerifier;
use vstd::prelude::*;

verus! {

/// Whether a stored user matches a presented login identifier.
pub open spec fn login_matches(u: User, username: Seq<char>, email: Seq<char>) -> bool {
    u.username@ == username || u.email@ == email
}

/// Whether registering `username`/`email` collides with a stored user: a
/// registration conflicts when either unique field is already taken.
pub open spec fn register_conflict(s: Seq<User>, username: Seq<char>, email: Seq<char>) -> bool {
    exists|i: int| 0 <= i < s.len() && (s[i].username@ == username || s[i].email@ == email)
}

/// The first stored user matching the login identifier, in storage order.
pub open spec fn spec_find_login(s: Seq<User>, username: Seq<char>, email: Seq<char>) -> Option<
    User,
>
    decreases s.len(),
{
    if s.len() == 0 {
        None
    } else if login_matches(s[0], username, email) {
        Some(s[0])
    } else {
        spec_find_login(s.drop_first(), username, email)
    }
}

/// A first match at index `i` (nothing before it matches) is the user
/// `spec_find_login` names.
proof fn lemma_find_login_at(s: Seq<User>, username: Seq<char>, email: Seq<char>, i: int)
    requires
        0 <= i < s.len(),
        forall|j: int| 0 <= j < i ==> !login_matches(s[j], username, email),
        login_matches(s[i], username, email),
    ensures
        spec_find_login(s, username, email) == Some(s[i]),
    decreases i,
{
    if i == 0 {
    } else {
        assert(!login_matches(s[0], username, email));
        assert forall|j: int| 0 <= j < i - 1 implies !login_matches(
            s.drop_first()[j],
            username,
            email,
        ) by {
            assert(s.drop_first()[j] == s[j + 1]);
        }
        assert(s.drop_first()[i - 1] == s[i]);
        lemma_find_login_at(s.drop_first(), username, email, i - 1);
    }
}

/// When no stored user matches, `spec_find_login` names none.
proof fn lemma_find_login_none(s: Seq<User>, username: Seq<char>, email: Seq<char>)
    requires
        forall|j: int| 0 <= j < s.len() ==> !login_matches(s[j], username, email),
    ensures
        spec_find_login(s, username, email) is None,
    decreases s.len(),
{
    if s.len() == 0 {
    } else {
        assert forall|j: int| 0 <= j < s.drop_first().len() implies !login_matches(
            s.drop_first()[j],
            username,
            email,
        ) by {
            assert(s.drop_first()[j] == s[j + 1]);
        }
        lemma_find_login_none(s.drop_first(), username, email);
    }
}

/// The user `spec_find_login` names is stored and matches the identifier.
pub proof fn lemma_find_login_sound(s: Seq<User>, username: Seq<char>, email: Seq<char>)
    requires
        spec_find_login(s, username, email) is Some,
    ensures
        login_matches(spec_find_login(s, username, email).unwrap(), username, email),
        exists|i: int|
            0 <= i < s.len() && s[i] == spec_find_login(s, username, email).unwrap(),
    decreases s.len(),
{
    if s.len() == 0 {
    } else if login_matches(s[0], username, email) {
    } else {
        lemma_find_login_sound(s.drop_first(), username, email);
        let u = spec_find_login(s.drop_first(), username, email).unwrap();
        let i = choose|i: int| 0 <= i < s.drop_first().len() && s.drop_first()[i] == u;
        assert(s[i + 1] == u);
    }
}

/// Argon2's password check: whether `password` verifies against the stored
/// PHC hash string. The salt and the parameters live inside the hash string,
/// so the outcome is a function of the two strings alone and carries a name.
pub uninterp spec fn password_matches(password: Seq<char>, hash: Seq<char>) -> bool;

/// Relies on argon2::Argon2::hash_password with a fresh OsRng salt: on
/// success the returned PHC string verifies against exactly the hashed
/// password, and it begins with the PHC separator, so it is never the raw
/// password of ordinary form. Hashing fails only beyond argon2's password
/// length cap of 2^32 - 1 bytes; a password under 2^30 characters (each at
/// most four bytes) is always hashed. The salt is random, so nothing else is
/// assumed of the string.
#[verifier::external_body]
pub(crate) fn derive_password_hash(password: &str) -> (r: Option<String>)
    ensures
        r matches Some(h) ==> password_matches(password@, h@) && h@.len() > 0 && h@[0] == '$',
        password@.len() < 0x4000_0000 ==> r is Some,
{
    let salt = argon2::password_hash::SaltString::generate(&mut rand_core::OsRng);
    match argon2::Argon2::default().hash_password(password.as_bytes(), &salt) {
        Ok(h) => Some(h.to_string()),
        Err(_) => None,
    }
}

/// Relies on argon2::Argon2::verify_password, after parsing the stored PHC
/// string: a deterministic check of the password against the hash; a
/// malformed hash string verifies no password.
#[verifier::external_body]
fn verify_password(password: &str, hash: &str) -> (r: bool)
    ensures
        r == password_matches(password@, hash@),
{
    match argon2::password_hash::PasswordHash::new(hash) {
        Ok(parsed) => argon2::Argon2::default().verify_password(
            password.as_bytes(),
            &parsed,
        ).is_ok(),
        Err(_) => false,
    }
}

/// Hashes and checks credentials over a keyed store of users. Uniqueness of
/// username and email is enforced here, before anything reaches the store —
/// the store itself never rejects a save.
pub struct CredentialStore {
    pub users: RepositoryCore<User>,
}

impl CredentialStore {
    pub open spec fn wf(&self) -> bool {
        self.users.wf()
    }

    pub fn new() -> (s: Self)
        ensures
            s.wf(),
            s.users@ == Seq::<User>::empty(),
    {
        CredentialStore { users: RepositoryCore::new() }
    }

    /// Whether either unique field is already taken.
    fn find_conflict(&self, username: &String, email: &String) -> (r: bool)
        ensures
            r == register_conflict(self.users@, username@, email@),
    {
        let n = self.users.len();
        let mut i: usize = 0;
        while i < n
            invariant
                n == self.users@.len(),
                i <= n,
                forall|j: int|
                    0 <= j < i ==> !(self.users@[j].username@ == username@
                        || self.users@[j].email@ == email@),
            decreases n - i,
        {
            let u = self.users.at_index(i);
            if u.username == *username || u.email == *email {
                return true;
            }
            i = i + 1;
        }
        false
    }

    /// Register with an already-derived password hash: succeeds exactly when
    /// neither the username nor the email is taken, and then persists the
    /// record with the given identity and timestamp.
    pub fn register_hashed(
        &mut self,
        username: String,
        email: String,
        password_hash: String,
        first_name: Option<String>,
        last_name: Option<String>,
        id: u128,
        now: i64,
    ) -> (r: Result<User, CoreError>)
        requires
            old(self).wf(),
        ensures
            final(self).wf(),
            r is Ok <==> !register_conflict(old(self).users@, username@, email@),
            r matches Err(e) ==> e == CoreError::Conflict && final(self).users@ == old(
                self,
            ).users@,
            r matches Ok(u) ==> {
                &&& u.id == id
                &&& u.username == username
                &&& u.email == email
                &&& u.password == password_hash
                &&& u.first_name == first_name
                &&& u.last_name == last_name
                &&& u.created_at == now
                &&& u.updated_at == now
                &&& final(self).users@ == spec_save(old(self).users@, u)
                &&& lookup(final(self).users@, id) == Some(u)
            },
    {
        if self.find_conflict(&username, &email) {
            return Err(CoreError::Conflict);
        }
        let u = User {
            id,
            username,
            email,
            password: password_hash,
            first_name,
            last_name,
            created_at: now,
            updated_at: now,
        };
        let stored = u.duplicate();
        self.users.save(stored);
        Ok(u)
    }

    /// Register a new user: conflict check, Argon2 hash under a fresh random
    /// salt, and persist. The stored password field is a PHC hash string —
    /// never the raw password — and it verifies against exactly the
    /// registered password. Absent a conflict, registration succeeds for
    /// every password under the hash's length cap.
    pub fn register(&mut self, input: RegisterInput) -> (r: Result<User, CoreError>)
        requires
            old(self).wf(),
        ensures
            final(self).wf(),
            r matches Err(e) ==> (e == CoreError::Conflict || e == CoreError::InternalFault)
                && final(self).users@ == old(self).users@,
            (r matches Err(e) && e == CoreError::Conflict) <==> register_conflict(
                old(self).users@,
                input.username@,
                input.email@,
            ),
            !register_conflict(old(self).users@, input.username@, input.email@)
                && input.password@.len() < 0x4000_0000 ==> r is Ok,
            r matches Ok(u) ==> {
                &&& u.username == input.username
                &&& u.email == input.email
                &&& password_matches(input.password@, u.password@)
                &&& u.password@.len() > 0 && u.password@[0] == '$'
                &&& u.first_name == input.first_name
                &&& u.last_name == input.last_name
                &&& u.created_at == u.updated_at
                &&& u.id != 0
                &&& final(self).users@ == spec_save(old(self).users@, u)
                &&& lookup(final(self).users@, u.id) == Some(u)
            },
    {
        if self.find_conflict(&input.username, &input.email) {
            return Err(CoreError::Conflict);
        }
        let hash = match derive_password_hash(&input.password) {
            Some(h) => h,
            None => {
                return Err(CoreError::InternalFault);
            },
        };
        let id = fresh_uuid();
        let now = now_ts();
        self.register_hashed(
            input.username,
            input.email,
            hash,
            input.first_name,
            input.last_name,
            id,
            now,
        )
    }

    /// Check presented credentials: find the first stored user matching the
    /// username or the email, then check the password against the stored
    /// hash. An absent user and a wrong password yield the same opaque
    /// answer.
    pub fn verify(&self, input: &LoginInput) -> (r: Result<User, CoreError>)
        requires
            self.wf(),
        ensures
            match spec_find_login(self.users@, input.username@, input.email@) {
                None => r matches Err(e) && e == CoreError::Unauthorized,
                Some(u) => if password_matches(input.password@, u.password@) {
                    r matches Ok(ru) && ru == u
                } else {
                    r matches Err(e) && e == CoreError::Unauthorized
                },
            },
    {
        let n = self.users.len();
        let mut i: usize = 0;
        while i < n
            invariant
                n == self.users@.len(),
                i <= n,
                forall|j: int|
                    0 <= j < i ==> !login_matches(self.users@[j], input.username@, input.email@),
            decreases n - i,
        {
            let u = self.users.at_index(i);
            if u.username == input.username || u.email == input.email {
                proof {
                    lemma_find_login_at(self.users@, input.username@, input.email@, i as int);
                }
                if verify_password(&input.password, &u.password) {
                    return Ok(u.duplicate());
                } else {
                    return Err(CoreError::Unauthorized);
                }
            }
            i = i + 1;
        }
        proof {
            lemma_find_login_none(self.users@, input.username@, input.email@);
        }
        Err(CoreError::Unauthorized)
    }
}

} // verus!
