//! The closed set of denominations and their command-line tokens.

use vstd::prelude::*;
use vstd::utf8::encode_utf8_decode_utf8;

verus! {

/// A denomination of the native currency.
#[derive(Clone, Copy, Debug, PartialEq, Eq, Structural)]
pub enum Unit {
    /// The display unit.
    Sol,
    /// The smallest indivisible unit.
    Lamport,
    /// A millionth of a lamport, used to price fees.
    MicroLamport,
}

/// The unit that a token names, if it names one. Tokens are matched exactly:
/// lower case, no surrounding space.
pub open spec fn unit_of_token(token: Seq<char>) -> Option<Unit> {
    if token == "sol"@ {
        Some(Unit::Sol)
    } else if token == "lamport"@ {
        Some(Unit::Lamport)
    } else if token == "micro_lamport"@ {
        Some(Unit::MicroLamport)
    } else {
        None
    }
}

impl Unit {
    /// The token that names the unit.
    pub open spec fn token(self) -> Seq<char> {
        match self {
            Unit::Sol => "sol"@,
            Unit::Lamport => "lamport"@,
            Unit::MicroLamport => "micro_lamport"@,
        }
    }

    /// Reads a unit from its token: `sol`, `lamport` or `micro_lamport`.
    pub fn from_str(s: &str) -> (parsed: Result<Unit, &'static str>)
        ensures
            match unit_of_token(s@) {
                Some(unit) => parsed == Ok::<Unit, &'static str>(unit),
                None => parsed matches Err(message) && message@ == "Invalid unit type"@,
            },
    {
        if same_text(s, "sol") {
            Ok(Unit::Sol)
        } else if same_text(s, "lamport") {
            Ok(Unit::Lamport)
        } else if same_text(s, "micro_lamport") {
            Ok(Unit::MicroLamport)
        } else {
            Err("Invalid unit type")
        }
    }
}

/// A token names a unit exactly when it is that unit's token: each unit has
/// one name, and no name serves two units.
pub proof fn lemma_token_names_unit(token: Seq<char>, unit: Unit)
    ensures
        unit_of_token(token) == Some(unit) <==> token == unit.token(),
{
    reveal_strlit("sol");
    reveal_strlit("lamport");
    reveal_strlit("micro_lamport");
    assert("sol"@.len() == 3);
    assert("lamport"@.len() == 7);
    assert("micro_lamport"@.len() == 13);
}

/// Whether two byte strings are the same.
fn same_bytes(a: &[u8], b: &[u8]) -> (same: bool)
    ensures
        same == (a@ == b@),
{
    if a.len() != b.len() {
        return false;
    }
    let mut i: usize = 0;
    while i < a.len()
        invariant
            a@.len() == b@.len(),
            i <= a@.len(),
            forall|j: int| 0 <= j < i ==> a@[j] == b@[j],
        decreases a@.len() - i,
    {
        if a[i] != b[i] {
            return false;
        }
        i += 1;
    }
    assert(a@ =~= b@);
    true
}

/// Whether two strings hold the same characters.
fn same_text(a: &str, b: &str) -> (same: bool)
    ensures
        same == (a@ == b@),
{
    let same: bool = same_bytes(a.as_bytes(), b.as_bytes());
    proof {
        // Two strings with one encoding decode to one sequence of characters.
        encode_utf8_decode_utf8(a@);
        encode_utf8_decode_utf8(b@);
    }
    same
}

} // verus!
