//! The default content set, and the digest that fingerprints it.

use vstd::prelude::*;

use sha2::{Digest, Sha256};

use crate::cards::{all_card_defs, is_shipped_card_defs};
use crate::content_tables::ContentTables;
use crate::enemies::{all_enemy_defs, is_shipped_enemy_defs, spec_all_enemy_ids};

verus! {

/// Load the default content set: every card and every enemy definition.
pub fn load_content() -> (r: ContentTables)
    ensures
        is_shipped_card_defs(r.card_defs@),
        is_shipped_enemy_defs(r.enemy_defs@),
        r.card_defs@.len() == 307,
        r.enemy_defs@.len() == 50,
        forall|k: int| 0 <= k < r.enemy_defs@.len() ==> #[trigger] r.enemy_defs@[k].id@ == spec_all_enemy_ids()[k],
        forall|k: int| 0 <= k < r.enemy_defs@.len() ==> 0 < (#[trigger] r.enemy_defs@[k]).max_hp <= 1000,
{
    ContentTables { card_defs: all_card_defs(), enemy_defs: all_enemy_defs() }
}

/// The SHA-256 digest of a byte string.
pub uninterp spec fn sha256(data: Seq<u8>) -> Seq<u8>;

/// `sha2::Sha256::digest`: the SHA-256 digest of the bytes. The contract
/// names the digest and states only its length, 32 bytes (`Sha256`'s output
/// size is `U32`).
#[verifier::external_body]
fn sha256_digest(data: &Vec<u8>) -> (r: Vec<u8>)
    ensures
        r@ == sha256(data@),
        r@.len() == 32,
{
    Sha256::digest(data.as_slice()).to_vec()
}

/// The lower-case hexadecimal digit of a value below 16.
pub open spec fn hex_digit(d: nat) -> char {
    if d < 10 {
        ((48 + d) as u8) as char
    } else {
        ((87 + d) as u8) as char
    }
}

/// Two lower-case hexadecimal digits per byte, high nibble first.
pub open spec fn hex_lower(bytes: Seq<u8>) -> Seq<char>
    decreases bytes.len(),
{
    if bytes.len() == 0 {
        Seq::empty()
    } else {
        hex_lower(bytes.drop_last()) + seq![hex_digit((bytes.last() / 16) as nat), hex_digit((bytes.last() % 16) as nat)]
    }
}

proof fn lemma_hex_len(bytes: Seq<u8>)
    ensures
        hex_lower(bytes).len() == 2 * bytes.len(),
    decreases bytes.len(),
{
    if bytes.len() > 0 {
        lemma_hex_len(bytes.drop_last());
    }
}

fn hex_digit_str(d: u8) -> (r: &'static str)
    requires
        d < 16,
    ensures
        r@ == seq![hex_digit(d as nat)],
{
    proof {
        reveal_strlit("0");
        reveal_strlit("1");
        reveal_strlit("2");
        reveal_strlit("3");
        reveal_strlit("4");
        reveal_strlit("5");
        reveal_strlit("6");
        reveal_strlit("7");
        reveal_strlit("8");
        reveal_strlit("9");
        reveal_strlit("a");
        reveal_strlit("b");
        reveal_strlit("c");
        reveal_strlit("d");
        reveal_strlit("e");
        reveal_strlit("f");
    }
    let r = if d == 0 { "0" } else if d == 1 { "1" } else if d == 2 { "2" } else if d == 3 { "3" }
    else if d == 4 { "4" } else if d == 5 { "5" } else if d == 6 { "6" } else if d == 7 { "7" }
    else if d == 8 { "8" } else if d == 9 { "9" } else if d == 10 { "a" } else if d == 11 { "b" }
    else if d == 12 { "c" } else if d == 13 { "d" } else if d == 14 { "e" } else { "f" };
    proof {
        assert(r@ =~= seq![hex_digit(d as nat)]);
    }
    r
}

/// The lower-case hexadecimal notation of the bytes.
pub fn to_hex_lower(bytes: &Vec<u8>) -> (r: String)
    ensures
        r@ == hex_lower(bytes@),
        r@.len() == 2 * bytes@.len(),
{
    let mut s = String::new();
    let mut i: usize = 0;
    while i < bytes.len()
        invariant
            i <= bytes@.len(),
            s@ == hex_lower(bytes@.take(i as int)),
        decreases bytes@.len() - i,
    {
        let b = bytes[i];
        s.append(hex_digit_str(b / 16));
        s.append(hex_digit_str(b % 16));
        proof {
            assert(bytes@.take(i + 1).drop_last() =~= bytes@.take(i as int));
            assert(bytes@.take(i + 1).last() == b);
        }
        i = i + 1;
    }
    proof {
        assert(bytes@.take(i as int) =~= bytes@);
        lemma_hex_len(bytes@);
    }
    s
}

/// The content hash of a serialised content set: the SHA-256 digest of the
/// bytes in lower-case hexadecimal, 64 characters.
pub fn content_hash_from_bytes(data: &Vec<u8>) -> (r: String)
    ensures
        r@ == hex_lower(sha256(data@)),
        r@.len() == 64,
{
    let digest = sha256_digest(data);
    to_hex_lower(&digest)
}

} // verus!
