//! Code for managing user accounts on the server

use crate::text::push_str;
use crypto::digest::Digest;
use vstd::prelude::*;

verus! {

/// The lowercase hexadecimal MD5 digest of the UTF-8 bytes of `input`
pub uninterp spec fn md5_hex(input: Seq<char>) -> Seq<char>;

/// The lowercase hexadecimal SHA-256 digest of the UTF-8 bytes of `input`
pub uninterp spec fn sha256_hex(input: Seq<char>) -> Seq<char>;

/// Is `c` a lowercase hexadecimal digit?
pub open spec fn is_hex_digit(c: char) -> bool {
    ('0' <= c <= '9') || ('a' <= c <= 'f')
}

/// The MD5 digest of `input` (`crypto::md5::Md5` fed with `input_str`, read with
/// `result_str`). Claimed: the digest depends on the input alone, and it is written as 32
/// lowercase hexadecimal digits (16 bytes, two digits each).
#[verifier::external_body]
fn md5_digest(input: &str) -> (r: String)
    ensures
        r@ == md5_hex(input@),
        r@.len() == 32,
        forall|i: int| 0 <= i < r@.len() ==> is_hex_digit(#[trigger] r@[i]),
{
    let mut h = crypto::md5::Md5::new();
    h.input_str(input);
    h.result_str()
}

/// The SHA-256 digest of `input` (`crypto::sha2::Sha256` fed with `input_str`, read with
/// `result_str`). Claimed: the digest depends on the input alone, and it is written as 64
/// lowercase hexadecimal digits (32 bytes, two digits each).
#[verifier::external_body]
fn sha256_digest(input: &str) -> (r: String)
    ensures
        r@ == sha256_hex(input@),
        r@.len() == 64,
        forall|i: int| 0 <= i < r@.len() ==> is_hex_digit(#[trigger] r@[i]),
{
    let mut h = crypto::sha2::Sha256::new();
    h.input_str(input);
    h.result_str()
}

/// The stored form of the password `pw` of the account `name` with the salt `salt`: the
/// SHA-256 digest of the salt, the password and the MD5 digest of the account name
pub open spec fn password_hash(name: Seq<char>, salt: Seq<char>, pw: Seq<char>) -> Seq<char> {
    sha256_hex(salt + pw + md5_hex(name))
}

/// Hash the password for the database
pub fn hash_password(name: &str, salt: &str, pw: &str) -> (r: String)
    ensures
        r@ == password_hash(name@, salt@, pw@),
        r@.len() == 64,
{
    let m = md5_digest(name);
    let mut inp = String::new();
    push_str(&mut inp, salt);
    push_str(&mut inp, pw);
    push_str(&mut inp, m.as_str());
    assert(inp@ =~= salt@ + pw@ + md5_hex(name@));
    sha256_digest(inp.as_str())
}

/// What a user account holds
pub struct UserAccountView {
    pub name: Seq<char>,
    pub password: Seq<char>,
    pub active: i64,
    pub access: u32,
    pub ip: Seq<char>,
    pub host: Seq<char>,
    pub banned: bool,
    pub slot: u32,
}

/// A user account on the server
#[derive(Debug)]
pub struct UserAccount {
    /// The name for the account in the database
    name: String,
    /// the hashed password
    password: String,
    /// Last time the account was active, in seconds since 1970-01-01 00:00:00 UTC
    active: i64,
    /// The access level of the account
    access: u32,
    /// The last login ip address
    ip: String,
    /// The host the account logged in from
    host: String,
    /// Is the account banned?
    banned: bool,
    /// The number of characters slots the account has
    slot: u32,
}

impl View for UserAccount {
    type V = UserAccountView;

    closed spec fn view(&self) -> UserAccountView {
        UserAccountView {
            name: self.name@,
            password: self.password@,
            active: self.active,
            access: self.access,
            ip: self.ip@,
            host: self.host@,
            banned: self.banned,
            slot: self.slot,
        }
    }
}

impl UserAccount {
    /// An account as stored; a nonzero banned value marks a banned account
    pub fn from_stored(
        name: String,
        password: String,
        access: u32,
        ip: String,
        host: String,
        banned: u32,
        slot: u32,
        active: i64,
    ) -> (u: UserAccount)
        ensures
            u@ == (UserAccountView {
                name: name@,
                password: password@,
                active,
                access,
                ip: ip@,
                host: host@,
                banned: banned != 0,
                slot,
            }),
    {
        UserAccount { name, password, active, access, ip, host, banned: banned != 0, slot }
    }

    /// Check login to see if the password was correct
    pub fn check_login(&self, salt: &str, pw: &str) -> (b: bool)
        ensures
            b == (password_hash(self@.name, salt@, pw@) == self@.password),
    {
        let hash = hash_password(self.name.as_str(), salt, pw);
        hash == self.password
    }

    /// Construct a new user account: the password is stored hashed, the account was last
    /// active one second after 1970-01-01 00:00:00 UTC, it has access level 0, no slots, is
    /// not banned, and its host is its ip address
    pub fn new(name: String, pass: String, ip: String, salt: String) -> (u: UserAccount)
        ensures
            u@ == (UserAccountView {
                name: name@,
                password: password_hash(name@, salt@, pass@),
                active: 1,
                access: 0,
                ip: ip@,
                host: ip@,
                banned: false,
                slot: 0,
            }),
    {
        let hashpass = hash_password(name.as_str(), salt.as_str(), pass.as_str());
        let host = ip.clone();
        UserAccount {
            name,
            password: hashpass,
            active: 1,
            access: 0,
            ip,
            host,
            banned: false,
            slot: 0,
        }
    }

    /// Get the account name
    pub fn account_name(&self) -> (n: &str)
        ensures
            n@ == self@.name,
    {
        self.name.as_str()
    }

    /// Get the stored password hash
    pub fn password(&self) -> (p: &str)
        ensures
            p@ == self@.password,
    {
        self.password.as_str()
    }

    /// Get the access level
    pub fn access(&self) -> (a: u32)
        ensures
            a == self@.access,
    {
        self.access
    }

    /// Get the last login ip address
    pub fn ip(&self) -> (i: &str)
        ensures
            i@ == self@.ip,
    {
        self.ip.as_str()
    }

    /// Get the host the account logged in from
    pub fn host(&self) -> (h: &str)
        ensures
            h@ == self@.host,
    {
        self.host.as_str()
    }

    /// Is the account banned?
    pub fn banned(&self) -> (b: bool)
        ensures
            b == self@.banned,
    {
        self.banned
    }

    /// The number of character slots
    pub fn slot(&self) -> (s: u32)
        ensures
            s == self@.slot,
    {
        self.slot
    }

    /// Last time the account was active, in seconds since 1970-01-01 00:00:00 UTC
    pub fn active(&self) -> (a: i64)
        ensures
            a == self@.active,
    {
        self.active
    }
}

/// A new account accepts the password it was made with, under the same salt
pub proof fn lemma_new_account_accepts_password(
    name: Seq<char>,
    salt: Seq<char>,
    pass: Seq<char>,
    u: UserAccountView,
)
    requires
        u.name == name,
        u.password == password_hash(name, salt, pass),
    ensures
        password_hash(u.name, salt, pass) == u.password,
{
}

} // verus!
