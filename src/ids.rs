//! Entity ids and lock tokens: twelve-byte object ids written as 24 hex digits.
use mongodb::bson::oid::ObjectId;
use vstd::prelude::*;

verus! {

#[verifier::external_type_specification]
#[verifier::external_body]
pub struct ExOidError(mongodb::bson::oid::Error);

pub open spec fn is_hex_digit(c: char) -> bool {
    ('0' <= c && c <= '9') || ('a' <= c && c <= 'f') || ('A' <= c && c <= 'F')
}

pub open spec fn hex_digit_value(c: char) -> nat {
    if '0' <= c && c <= '9' {
        (c as u32 - '0' as u32) as nat
    } else if 'a' <= c && c <= 'f' {
        (c as u32 - 'a' as u32 + 10) as nat
    } else {
        (c as u32 - 'A' as u32 + 10) as nat
    }
}

/// Text that names an object id: exactly 24 hex digits, either case.
pub open spec fn is_object_id_text(s: Seq<char>) -> bool {
    s.len() == 24 && forall|i: int| 0 <= i < 24 ==> #[trigger] is_hex_digit(s[i])
}

/// The `i`-th byte that the hex text `s` stands for.
pub open spec fn decoded_byte(s: Seq<char>, i: int) -> nat {
    hex_digit_value(s[2 * i]) * 16 + hex_digit_value(s[2 * i + 1])
}

pub open spec fn pow256(n: nat) -> nat
    decreases n,
{
    if n == 0 {
        1
    } else {
        256 * pow256((n - 1) as nat)
    }
}

/// The number that the first `n` bytes of `b` spell, most significant first.
pub open spec fn be_value(b: Seq<u8>, n: nat) -> nat
    decreases n,
{
    if n == 0 {
        0
    } else {
        be_value(b, (n - 1) as nat) * 256 + b[n - 1] as nat
    }
}

/// The number that the object id text `s` stands for.
pub open spec fn object_id_number(s: Seq<char>) -> nat {
    be_value(Seq::new(12, |i: int| decoded_byte(s, i) as u8), 12)
}

/// Relies on `ObjectId::parse_str`, which hex-decodes the text (digits of
/// either case) and accepts exactly twelve bytes; `ObjectId::bytes` hands
/// those bytes back.
#[verifier::external_body]
fn parse_object_id(s: &str) -> (r: Result<[u8; 12], mongodb::bson::oid::Error>)
    ensures
        r is Ok <==> is_object_id_text(s@),
        r is Ok ==> forall|i: int| 0 <= i < 12 ==> #[trigger] r->Ok_0[i] as nat == decoded_byte(s@, i),
{
    ObjectId::parse_str(s).map(|o| o.bytes())
}

/// Why a text is not an object id.
#[derive(Debug, Clone, Copy, PartialEq, Eq, Structural)]
pub enum IdError {
    /// Not exactly 24 hex digits.
    Malformed,
}

proof fn lemma_be_value_bound(b: Seq<u8>, n: nat)
    requires
        n <= b.len(),
    ensures
        be_value(b, n) < pow256(n),
    decreases n,
{
    if n > 0 {
        lemma_be_value_bound(b, (n - 1) as nat);
        let v = be_value(b, (n - 1) as nat);
        let p = pow256((n - 1) as nat);
        let x = b[n - 1] as nat;
        assert(v * 256 + x < 256 * p) by (nonlinear_arith)
            requires
                v < p,
                x < 256,
        ;
    }
}

/// The number spelled by the twelve bytes of an object id.
fn key_of_bytes(b: [u8; 12]) -> (r: u128)
    ensures
        r as nat == be_value(b@, 12),
{
    let mut v: u128 = 0;
    let mut i: usize = 0;
    proof {
        reveal_with_fuel(pow256, 13);
        assert(pow256(12) == 0x1_0000_0000_0000_0000_0000_0000nat);
    }
    while i < 12
        invariant
            0 <= i <= 12,
            v as nat == be_value(b@, i as nat),
            pow256(12) == 0x1_0000_0000_0000_0000_0000_0000nat,
        decreases 12 - i,
    {
        proof {
            lemma_be_value_bound(b@, i as nat);
            lemma_be_value_bound(b@, (i + 1) as nat);
            assert(pow256((i + 1) as nat) <= pow256(12)) by {
                lemma_pow256_mono((i + 1) as nat, 12);
            }
        }
        v = v * 256 + b[i] as u128;
        i = i + 1;
    }
    v
}

proof fn lemma_pow256_mono(a: nat, b: nat)
    requires
        a <= b,
    ensures
        pow256(a) <= pow256(b),
    decreases b,
{
    if a < b {
        lemma_pow256_mono(a, (b - 1) as nat);
    }
}

/// Parses object id text into the number it stands for.
fn parse_key(s: &str) -> (r: Result<u128, IdError>)
    ensures
        r is Ok <==> is_object_id_text(s@),
        r is Ok ==> r->Ok_0 as nat == object_id_number(s@),
{
    match parse_object_id(s) {
        Ok(b) => {
            let v = key_of_bytes(b);
            proof {
                assert(b@ == Seq::new(12, |i: int| decoded_byte(s@, i) as u8));
            }
            Ok(v)
        },
        Err(_) => Err(IdError::Malformed),
    }
}

/// The id of an entity (a video file or an archive), as the number its
/// twelve bytes spell.
#[derive(Debug, Clone, Copy, PartialEq, Eq, Structural)]
pub struct EntityId {
    pub value: u128,
}

/// A token that proves who holds the lock on an entity.
#[derive(Debug, Clone, Copy, PartialEq, Eq, Structural)]
pub struct LockToken {
    pub value: u128,
}

impl EntityId {
    /// Parses 24 hex digits; anything else is `Malformed`.
    pub fn parse(s: &str) -> (r: Result<EntityId, IdError>)
        ensures
            r is Ok <==> is_object_id_text(s@),
            r is Ok ==> r->Ok_0.value as nat == object_id_number(s@),
    {
        match parse_key(s) {
            Ok(value) => Ok(EntityId { value }),
            Err(e) => Err(e),
        }
    }
}

impl LockToken {
    /// Parses 24 hex digits; anything else is `Malformed`.
    pub fn parse(s: &str) -> (r: Result<LockToken, IdError>)
        ensures
            r is Ok <==> is_object_id_text(s@),
            r is Ok ==> r->Ok_0.value as nat == object_id_number(s@),
    {
        match parse_key(s) {
            Ok(value) => Ok(LockToken { value }),
            Err(e) => Err(e),
        }
    }
}

} // verus!
