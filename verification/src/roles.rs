//! Role management around the ledger's access-control methods: address
//! validation and the shaping of the responses the role endpoints return.
//! The ledger calls themselves are pass-throughs made by the shell.

use vstd::prelude::*;
use crate::errors::Error;

verus! {

/// The value of a hexadecimal digit of either case; 16 for any other
/// character.
pub open spec fn spec_hex_val_any(c: char) -> int {
    if c == 'A' { 10 } else if c == 'B' { 11 } else if c == 'C' { 12 }
    else if c == 'D' { 13 } else if c == 'E' { 14 } else if c == 'F' { 15 }
    else { crate::text::spec_hex_val(c) }
}

fn hex_val_any(c: char) -> (r: u8)
    ensures
        r as int == spec_hex_val_any(c),
{
    match c {
        'A' => 10, 'B' => 11, 'C' => 12, 'D' => 13, 'E' => 14, 'F' => 15,
        _ => crate::text::hex_val(c),
    }
}

/// The address digits: the text less an optional `0x` prefix.
pub open spec fn spec_address_digits(s: Seq<char>) -> Seq<char> {
    if s.len() >= 2 && s[0] == '0' && s[1] == 'x' {
        s.skip(2)
    } else {
        s
    }
}

/// A well-formed ledger address: exactly forty hexadecimal digits, of
/// either case, after the optional prefix.
pub open spec fn spec_valid_address(s: Seq<char>) -> bool {
    let d = spec_address_digits(s);
    d.len() == 40 && forall|i: int| 0 <= i < 40 ==> spec_hex_val_any(#[trigger] d[i]) < 16
}

/// The twenty bytes an address spells, two digits per byte.
pub open spec fn spec_address_byte(d: Seq<char>, i: int) -> int {
    spec_hex_val_any(d[2 * i]) * 16 + spec_hex_val_any(d[2 * i + 1])
}

/// Parses a ledger address into its twenty bytes; anything not spelling
/// forty hexadecimal digits is refused.
pub fn parse_eth_address(s: &str) -> (r: Result<Vec<u8>, Error>)
    ensures
        r is Ok <==> spec_valid_address(s@),
        r is Ok ==> ({
            &&& r->Ok_0@.len() == 20
            &&& forall|i: int| 0 <= i < 20 ==> (#[trigger] r->Ok_0@[i]) as int
                == spec_address_byte(spec_address_digits(s@), i)
        }),
        r is Err ==> (r->Err_0 matches Error::Malformed { message }
            && message@ =~= "Invalid address format"@),
{
    let len: usize = s.unicode_len();
    let start: usize = if len >= 2 && s.get_char(0) == '0' && s.get_char(1) == 'x' {
        2
    } else {
        0
    };
    proof {
        if start == 2 {
            assert(spec_address_digits(s@) =~= s@.skip(2));
        } else {
            assert(spec_address_digits(s@) =~= s@);
        }
    }
    let ghost digits = spec_address_digits(s@);
    if len - start != 40 {
        return Err(Error::Malformed { message: "Invalid address format".to_owned() });
    }
    let mut out: Vec<u8> = Vec::new();
    let mut i: usize = 0;
    while i < 20
        invariant
            len == s@.len(),
            start + 40 == len,
            start == 0 || start == 2,
            digits == spec_address_digits(s@),
            digits.len() == 40,
            forall|k: int| 0 <= k < digits.len() ==> digits[k] == s@[k + start],
            i <= 20,
            out@.len() == i,
            forall|k: int| 0 <= k < 2 * i ==> spec_hex_val_any(#[trigger] digits[k]) < 16,
            forall|k: int| 0 <= k < i ==> (#[trigger] out@[k]) as int
                == spec_address_byte(digits, k),
        decreases 20 - i,
    {
        let hi = hex_val_any(s.get_char(start + 2 * i));
        let lo = hex_val_any(s.get_char(start + 2 * i + 1));
        if hi >= 16 || lo >= 16 {
            proof {
                let k = 2 * (i as int);
                assert(digits[k] == s@[k + start]);
                assert(digits[k + 1] == s@[k + 1 + start]);
                assert(spec_hex_val_any(digits[k]) >= 16 || spec_hex_val_any(digits[k + 1]) >= 16);
                assert(!spec_valid_address(s@));
            }
            return Err(Error::Malformed { message: "Invalid address format".to_owned() });
        }
        out.push(hi * 16 + lo);
        i = i + 1;
    }
    Ok(out)
}

/// The two roles the ledger records.
#[derive(Debug, Clone, Copy, PartialEq, Eq)]
pub enum Role {
    Pusher,
    Admin,
}

impl Role {
    /// The role's wire name.
    pub open spec fn spec_name(self) -> Seq<char> {
        match self {
            Role::Pusher => "pusher"@,
            Role::Admin => "admin"@,
        }
    }

    /// Renders the role's wire name.
    pub fn name(&self) -> (r: String)
        ensures
            r@ =~= self.spec_name(),
    {
        match self {
            Role::Pusher => "pusher".to_owned(),
            Role::Admin => "admin".to_owned(),
        }
    }
}

/// The response of a grant or revoke operation.
#[derive(Debug, Clone)]
pub struct RoleResponse {
    pub repo: String,
    pub address: String,
    pub role: String,
    pub granted: bool,
}

/// The response of a role check.
#[derive(Debug, Clone)]
pub struct RoleCheckResponse {
    pub repo: String,
    pub address: String,
    pub role: String,
    pub has_role: bool,
}

/// Shapes the response of a grant or revoke that the ledger accepted.
pub fn role_response(repo: String, address: String, role: Role, granted: bool) -> (r:
    RoleResponse)
    ensures
        r.repo@ == repo@,
        r.address@ == address@,
        r.role@ =~= role.spec_name(),
        r.granted == granted,
{
    RoleResponse { repo, address, role: role.name(), granted }
}

/// Shapes the response of a role check the ledger answered.
pub fn role_check_response(repo: String, address: String, role: Role, has_role: bool) -> (r:
    RoleCheckResponse)
    ensures
        r.repo@ == repo@,
        r.address@ == address@,
        r.role@ =~= role.spec_name(),
        r.has_role == has_role,
{
    RoleCheckResponse { repo, address, role: role.name(), has_role }
}

} // verus!
