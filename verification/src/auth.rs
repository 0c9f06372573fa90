//! Roles and their ranking, and the tokens that say who asks.

use crate::error::Error;
use crate::text::{
    ascii_lowered, begins_with, push_char, starts_with, str_eq, text_of_utf8, to_ascii_lowercase,
    trim_start_matches, without_prefixes,
};

use vstd::prelude::*;
use vstd::string::StringExecFns;

verus! {

/// What a user may do. The roles are ranked: `User` below `Designer` below
/// `Admin`.
#[derive(Debug, Clone, Copy, PartialEq, Eq, Structural, PartialOrd, Hash)]
pub enum Role {
    User,
    Designer,
    Admin,
}

impl Default for Role {
    fn default() -> (r: Self)
        ensures
            r == Role::User,
    {
        Role::User
    }
}

impl Role {
    /// The place of the role in the ranking, lowest first.
    pub open spec fn rank(self) -> nat {
        match self {
            Role::User => 0,
            Role::Designer => 1,
            Role::Admin => 2,
        }
    }

    /// The place of the role in the ranking, lowest first.
    pub fn position(&self) -> (r: u8)
        ensures
            r == self.rank(),
    {
        match self {
            Role::User => 0,
            Role::Designer => 1,
            Role::Admin => 2,
        }
    }

    /// Whether this role ranks strictly below `other`.
    pub fn lt(&self, other: &Self) -> (r: bool)
        ensures
            r == (self.rank() < other.rank()),
    {
        self.position() < other.position()
    }

    /// Whether this role ranks below `other` or equals it.
    pub fn le(&self, other: &Self) -> (r: bool)
        ensures
            r == (self.rank() <= other.rank()),
    {
        self.position() <= other.position()
    }

    /// Whether this role ranks strictly above `other`.
    pub fn gt(&self, other: &Self) -> (r: bool)
        ensures
            r == (self.rank() > other.rank()),
    {
        self.position() > other.position()
    }

    /// Whether this role ranks above `other` or equals it.
    pub fn ge(&self, other: &Self) -> (r: bool)
        ensures
            r == (self.rank() >= other.rank()),
    {
        self.position() >= other.position()
    }
}

/// The ranking is a total order: two roles of one rank are one role, and of
/// two roles one ranks below the other or they are equal.
pub proof fn lemma_role_ranking_total(a: Role, b: Role)
    ensures
        a.rank() == b.rank() <==> a == b,
        a.rank() < b.rank() || a == b || b.rank() < a.rank(),
{
}

impl Role {
    /// The name of the role.
    pub open spec fn name(self) -> Seq<char> {
        match self {
            Role::User => "User"@,
            Role::Designer => "Designer"@,
            Role::Admin => "Admin"@,
        }
    }

    /// The role of that name, whatever the case of its letters; a name that
    /// is none of a role stands for `User`.
    pub open spec fn named(role: Seq<char>) -> Role {
        if ascii_lowered(role) == "admin"@ {
            Role::Admin
        } else if ascii_lowered(role) == "designer"@ {
            Role::Designer
        } else {
            Role::User
        }
    }

    /// The role of that name, `User` where the name is unknown.
    pub fn from_str(role: &str) -> (r: Role)
        ensures
            r == Role::named(role@),
    {
        let lowered = to_ascii_lowercase(role);
        if str_eq(lowered.as_str(), "admin") {
            Role::Admin
        } else if str_eq(lowered.as_str(), "designer") {
            Role::Designer
        } else {
            Role::User
        }
    }

    /// The name of the role.
    pub fn to_string(&self) -> (r: String)
        ensures
            r@ == self.name(),
    {
        match self {
            Role::User => String::from_str("User"),
            Role::Designer => String::from_str("Designer"),
            Role::Admin => String::from_str("Admin"),
        }
    }
}

/// A role's own name names it.
pub proof fn lemma_role_name_round_trip(role: Role)
    ensures
        Role::named(role.name()) == role,
{
    reveal_strlit("User");
    reveal_strlit("Designer");
    reveal_strlit("Admin");
    reveal_strlit("admin");
    reveal_strlit("designer");
    assert(ascii_lowered("Admin"@) =~= "admin"@);
    assert(ascii_lowered("Designer"@) =~= "designer"@);
    assert(ascii_lowered("User"@).len() == 4);
    assert("admin"@.len() == 5);
    assert("designer"@.len() == 8);
}

/// The secret with which tokens are signed.
#[derive(Debug)]
pub struct JwtSecretKey {
    pub token: Vec<u8>,
}

/// The hexadecimal digit, in upper case, of a number below sixteen.
pub open spec fn hex_digit(n: int) -> char {
    if n < 10 {
        ('0' as u8 + n) as char
    } else {
        ('A' as u8 + n - 10) as char
    }
}

/// A byte in hexadecimal digits of upper case, without a leading zero.
pub open spec fn byte_hex(b: u8) -> Seq<char> {
    if b < 16 {
        seq![hex_digit(b as int)]
    } else {
        seq![hex_digit(b as int / 16), hex_digit(b as int % 16)]
    }
}

/// Bytes in hexadecimal digits, one after the other.
pub open spec fn bytes_hex(bytes: Seq<u8>) -> Seq<char>
    decreases bytes.len(),
{
    if bytes.len() == 0 {
        Seq::empty()
    } else {
        bytes_hex(bytes.drop_last()) + byte_hex(bytes.last())
    }
}

/// The hexadecimal digit of a number below sixteen.
fn hex_digit_of(n: u8) -> (r: char)
    requires
        n < 16,
    ensures
        r == hex_digit(n as int),
{
    if n < 10 {
        (48u8 + n) as char
    } else {
        (55u8 + n) as char
    }
}

impl JwtSecretKey {
    /// A secret of no bytes.
    pub fn new() -> (r: JwtSecretKey)
        ensures
            r.token@.len() == 0,
    {
        JwtSecretKey { token: Vec::new() }
    }

    /// The secret in hexadecimal digits of upper case, each byte without a
    /// leading zero.
    pub fn to_string(&self) -> (r: String)
        ensures
            r@ == bytes_hex(self.token@),
    {
        let mut out = String::new();
        let mut i: usize = 0;
        assert(self.token@.take(0) =~= Seq::empty());
        while i < self.token.len()
            invariant
                i <= self.token.len(),
                out@ == bytes_hex(self.token@.take(i as int)),
            decreases self.token.len() - i,
        {
            let b = self.token[i];
            assert(self.token@.take(i + 1).drop_last() =~= self.token@.take(i as int));
            let ghost before = out@;
            if b >= 16 {
                push_char(&mut out, hex_digit_of(b / 16));
            }
            push_char(&mut out, hex_digit_of(b % 16));
            assert(out@ =~= before + byte_hex(b));
            i += 1;
        }
        assert(self.token@.take(self.token.len() as int) =~= self.token@);
        out
    }
}

/// The words with which an authorization header begins.
pub open spec fn bearer() -> Seq<char> {
    "Bearer "@
}

/// The token that an authorization header carries. A request without the
/// header, or with one that is no text, has none; a header must begin with
/// `Bearer `, and what follows those words, however often they are repeated,
/// is the token.
pub open spec fn header_token(header: Option<Seq<u8>>) -> Result<Seq<char>, Error> {
    match header {
        None => Err(Error::NoAuthHeaderError),
        Some(bytes) => if !vstd::utf8::valid_utf8(bytes) {
            Err(Error::NoAuthHeaderError)
        } else if !begins_with(vstd::utf8::decode_utf8(bytes), bearer()) {
            Err(Error::InvalidAuthHeaderError)
        } else {
            Ok(without_prefixes(vstd::utf8::decode_utf8(bytes), bearer()))
        },
    }
}

/// The view of an optional header.
pub open spec fn header_view(header: Option<&[u8]>) -> Option<Seq<u8>> {
    match header {
        Some(bytes) => Some(bytes@),
        None => None,
    }
}

/// Reads the token from the authorization header of a request.
pub fn jwt_from_header(header: Option<&[u8]>) -> (r: Result<String, Error>)
    ensures
        match header_token(header_view(header)) {
            Ok(token) => r matches Ok(t) && t@ == token,
            Err(e) => r matches Err(x) && x == e,
        },
{
    let bytes = match header {
        Some(bytes) => bytes,
        None => {
            return Err(Error::NoAuthHeaderError);
        },
    };
    let auth_header = match text_of_utf8(bytes) {
        Some(text) => text,
        None => {
            return Err(Error::NoAuthHeaderError);
        },
    };
    proof {
        reveal_strlit("Bearer ");
    }
    if !starts_with(auth_header.as_str(), "Bearer ") {
        return Err(Error::InvalidAuthHeaderError);
    }
    Ok(trim_start_matches(auth_header.as_str(), "Bearer "))
}

/// Whom a token speaks for, given what it claims. A token that does not name
/// its subject and its role in text is not valid; a request that is for
/// admins alone needs a token whose role is `Admin`, and any other request
/// is open to every role.
pub open spec fn authorized(required: Role, sub: Option<Seq<char>>, role: Option<Seq<char>>) -> Result<
    Seq<char>,
    Error,
> {
    match (sub, role) {
        (Some(sub), Some(role)) => if required == Role::Admin && Role::named(role) != Role::Admin {
            Err(Error::NoPermissionError)
        } else {
            Ok(sub)
        },
        _ => Err(Error::JWTTokenError),
    }
}

/// Decides whom a token speaks for, given what it claims.
pub fn authorize_claims(required: Role, sub: Option<String>, role: Option<String>) -> (r: Result<
    String,
    Error,
>)
    ensures
        match authorized(required, crate::model::text_view(sub), crate::model::text_view(role)) {
            Ok(name) => r matches Ok(n) && n@ == name,
            Err(e) => r matches Err(x) && x == e,
        },
{
    let sub = match sub {
        Some(sub) => sub,
        None => {
            return Err(Error::JWTTokenError);
        },
    };
    let role = match role {
        Some(role) => role,
        None => {
            return Err(Error::JWTTokenError);
        },
    };
    if required == Role::Admin && Role::from_str(role.as_str()) != Role::Admin {
        return Err(Error::NoPermissionError);
    }
    Ok(sub)
}

} // verus!
