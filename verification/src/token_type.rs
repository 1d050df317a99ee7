//! The kind and status of a stored token, and how the database stores them.

use vstd::prelude::*;
use vstd::string::*;

verus! {

/// What a stored token grants: a session, or the right to a new token pair.
#[derive(Debug, Clone, Copy, PartialEq, Eq, Structural)]
pub enum UserTokenType {
    SESSION,
    REFRESH,
}

/// Whether a stored token may still be used.
#[derive(Debug, Clone, Copy, PartialEq, Eq, Structural)]
pub enum UserTokenStatus {
    ACTIVE,
    INACTIVE,
}

/// The bytes the database holds for a token kind: its name in ASCII.
pub open spec fn token_type_bytes(t: UserTokenType) -> Seq<u8> {
    match t {
        UserTokenType::SESSION => seq![83u8, 69u8, 83u8, 83u8, 73u8, 79u8, 78u8], // "SESSION"
        UserTokenType::REFRESH => seq![82u8, 69u8, 70u8, 82u8, 69u8, 83u8, 72u8], // "REFRESH"
    }
}

/// The token kind read back from the bytes the database holds: an unknown
/// value reads as a session token.
pub open spec fn token_type_from_bytes(b: Seq<u8>) -> UserTokenType {
    if b == token_type_bytes(UserTokenType::REFRESH) {
        UserTokenType::REFRESH
    } else {
        UserTokenType::SESSION
    }
}

/// The bytes the database holds for a token status: its name in ASCII.
pub open spec fn token_status_bytes(s: UserTokenStatus) -> Seq<u8> {
    match s {
        UserTokenStatus::ACTIVE => seq![65u8, 67u8, 84u8, 73u8, 86u8, 69u8], // "ACTIVE"
        UserTokenStatus::INACTIVE => seq![73u8, 78u8, 65u8, 67u8, 84u8, 73u8, 86u8, 69u8], // "INACTIVE"
    }
}

/// The token status read back from the bytes the database holds: an
/// unknown value reads as active.
pub open spec fn token_status_from_bytes(b: Seq<u8>) -> UserTokenStatus {
    if b == token_status_bytes(UserTokenStatus::INACTIVE) {
        UserTokenStatus::INACTIVE
    } else {
        UserTokenStatus::ACTIVE
    }
}

/// The name of the only database column type these values are stored in.
pub open spec fn varchar_name() -> Seq<u8> {
    seq![118u8, 97u8, 114u8, 99u8, 104u8, 97u8, 114u8] // "varchar"
}

/// Whether two byte strings are equal.
fn bytes_equal(a: &[u8], b: &[u8]) -> (r: bool)
    ensures
        r == (a@ == b@),
{
    if a.len() != b.len() {
        return false;
    }
    let mut i: usize = 0;
    while i < a.len()
        invariant
            a@.len() == b@.len(),
            i <= a@.len(),
            forall|j: int| 0 <= j < i ==> a@[j] == b@[j],
        decreases a@.len() - i,
    {
        if a[i] != b[i] {
            return false;
        }
        i = i + 1;
    }
    assert(a@ =~= b@);
    true
}

/// Whether a column of the named database type can hold these values.
pub fn accepts_column_type(column_type: &str) -> (r: bool)
    ensures
        r == (column_type.spec_bytes() == varchar_name()),
{
    let expected: Vec<u8> = vec![118u8, 97u8, 114u8, 99u8, 104u8, 97u8, 114u8]; // "varchar"
    assert(expected@ =~= varchar_name());
    bytes_equal(column_type.as_bytes(), expected.as_slice())
}

impl Default for UserTokenType {
    fn default() -> (t: Self)
        ensures
            t == UserTokenType::SESSION,
    {
        UserTokenType::SESSION
    }
}

impl Default for UserTokenStatus {
    fn default() -> (s: Self)
        ensures
            s == UserTokenStatus::ACTIVE,
    {
        UserTokenStatus::ACTIVE
    }
}

impl UserTokenType {
    /// The bytes written to the database for this kind.
    pub fn to_sql_bytes(&self) -> (b: Vec<u8>)
        ensures
            b@ == token_type_bytes(*self),
    {
        let b: Vec<u8> = match self {
            UserTokenType::SESSION => vec![83u8, 69u8, 83u8, 83u8, 73u8, 79u8, 78u8], // "SESSION"
            UserTokenType::REFRESH => vec![82u8, 69u8, 70u8, 82u8, 69u8, 83u8, 72u8], // "REFRESH"
        };
        assert(b@ =~= token_type_bytes(*self));
        b
    }

    /// The kind that the bytes read from the database stand for.
    pub fn from_sql_bytes(value: &[u8]) -> (t: Self)
        ensures
            t == token_type_from_bytes(value@),
    {
        let refresh = UserTokenType::REFRESH.to_sql_bytes();
        if bytes_equal(value, refresh.as_slice()) {
            UserTokenType::REFRESH
        } else {
            UserTokenType::SESSION
        }
    }

    /// Whether a column of the named database type can hold a token kind.
    pub fn accepts(column_type: &str) -> (r: bool)
        ensures
            r == (column_type.spec_bytes() == varchar_name()),
    {
        accepts_column_type(column_type)
    }
}

impl UserTokenStatus {
    /// The bytes written to the database for this status.
    pub fn to_sql_bytes(&self) -> (b: Vec<u8>)
        ensures
            b@ == token_status_bytes(*self),
    {
        let b: Vec<u8> = match self {
            UserTokenStatus::ACTIVE => vec![65u8, 67u8, 84u8, 73u8, 86u8, 69u8], // "ACTIVE"
            UserTokenStatus::INACTIVE => vec![73u8, 78u8, 65u8, 67u8, 84u8, 73u8, 86u8, 69u8], // "INACTIVE"
        };
        assert(b@ =~= token_status_bytes(*self));
        b
    }

    /// The status that the bytes read from the database stand for.
    pub fn from_sql_bytes(value: &[u8]) -> (s: Self)
        ensures
            s == token_status_from_bytes(value@),
    {
        let inactive = UserTokenStatus::INACTIVE.to_sql_bytes();
        if bytes_equal(value, inactive.as_slice()) {
            UserTokenStatus::INACTIVE
        } else {
            UserTokenStatus::ACTIVE
        }
    }

    /// Whether a column of the named database type can hold a token status.
    pub fn accepts(column_type: &str) -> (r: bool)
        ensures
            r == (column_type.spec_bytes() == varchar_name()),
    {
        accepts_column_type(column_type)
    }
}

/// Reading back what was written gives the same token kind.
pub proof fn token_type_round_trip(t: UserTokenType)
    ensures
        token_type_from_bytes(token_type_bytes(t)) == t,
{
    assert(token_type_bytes(UserTokenType::SESSION) != token_type_bytes(UserTokenType::REFRESH)) by {
        assert(token_type_bytes(UserTokenType::SESSION)[0] != token_type_bytes(UserTokenType::REFRESH)[0]);
    }
}

/// Reading back what was written gives the same token status.
pub proof fn token_status_round_trip(s: UserTokenStatus)
    ensures
        token_status_from_bytes(token_status_bytes(s)) == s,
{
    assert(token_status_bytes(UserTokenStatus::ACTIVE) != token_status_bytes(UserTokenStatus::INACTIVE)) by {
        assert(token_status_bytes(UserTokenStatus::ACTIVE).len() != token_status_bytes(UserTokenStatus::INACTIVE).len());
    }
}

} // verus!
