//! Peer identifiers: the account address derived from a network public key,
//! and its text form.

use crate::crypto::X25519PublicKey;
use vstd::arithmetic::power::pow;
use vstd::prelude::*;

verus! {

/// A peer's identifier: the 16-byte account address, read as a big-endian
/// 128-bit integer. The default identifier is 0, all bytes zero.
pub type PeerId = u128;

/// The unsigned integer that the bytes `s` spell in big-endian order.
pub open spec fn be_value(s: Seq<u8>) -> nat
    decreases s.len(),
{
    if s.len() == 0 {
        0
    } else {
        be_value(s.drop_last()) * 256 + s.last() as nat
    }
}

/// The peer identifier that an x25519 public key `key` derives: its bytes are
/// taken as an authentication key, and the address is the last 16 of them.
pub open spec fn spec_derived_peer_id(key: Seq<u8>) -> PeerId {
    be_value(key.subrange(16, 32)) as u128
}

proof fn lemma_be_value_bound(s: Seq<u8>)
    ensures
        be_value(s) < pow(256, s.len()),
    decreases s.len(),
{
    reveal(pow);
    if s.len() > 0 {
        let t = s.drop_last();
        lemma_be_value_bound(t);
        let v = be_value(t);
        let p = pow(256, t.len());
        assert(pow(256, s.len()) == 256 * p) by {
            assert(s.len() == t.len() + 1);
        }
        assert(v * 256 + s.last() < 256 * p) by (nonlinear_arith)
            requires
                v < p,
                s.last() < 256,
        ;
    }
}

/// The peer identifier derived from a network public key: the account
/// address of the authentication key made of the key's 32 bytes, that is,
/// its last 16 bytes.
pub fn derived_peer_id(key: &X25519PublicKey) -> (id: PeerId)
    ensures
        id == spec_derived_peer_id(key.bytes@),
{
    let ghost bytes = key.bytes@;
    let mut acc: u128 = 0;
    let mut i: usize = 16;
    assert(bytes.subrange(16, 16) =~= Seq::<u8>::empty());
    assert(pow(256, 16) == 0x1_0000_0000_0000_0000_0000_0000_0000_0000) by {
        reveal(pow);
        reveal_with_fuel(pow, 17);
    }
    while i < 32
        invariant
            16 <= i <= 32,
            bytes == key.bytes@,
            bytes.len() == 32,
            acc as nat == be_value(bytes.subrange(16, i as int)),
            pow(256, 16) == 0x1_0000_0000_0000_0000_0000_0000_0000_0000,
        decreases 32 - i,
    {
        let b = key.bytes[i];
        let ghost next = bytes.subrange(16, i + 1);
        assert(next.drop_last() =~= bytes.subrange(16, i as int));
        proof {
            lemma_be_value_bound(next);
            vstd::arithmetic::power::lemma_pow_increases(256, next.len(), 16);
        }
        acc = acc * 256 + b as u128;
        i = i + 1;
    }
    acc
}

proof fn lemma_be_value_injective(s: Seq<u8>, t: Seq<u8>)
    requires
        s.len() == t.len(),
        be_value(s) == be_value(t),
    ensures
        s == t,
    decreases s.len(),
{
    if s.len() > 0 {
        let vs = be_value(s.drop_last());
        let vt = be_value(t.drop_last());
        let a = s.last() as int;
        let b = t.last() as int;
        assert(vs * 256 + a == vt * 256 + b);
        assert(a == b && vs == vt) by (nonlinear_arith)
            requires
                vs * 256 + a == vt * 256 + b,
                0 <= a < 256,
                0 <= b < 256,
                vs >= 0,
                vt >= 0,
        ;
        lemma_be_value_injective(s.drop_last(), t.drop_last());
        assert(s =~= s.drop_last().push(s.last()));
        assert(t =~= t.drop_last().push(t.last()));
    } else {
        assert(s =~= t);
    }
}

/// The peer identifier derived from a public key is told by the key's last
/// 16 bytes and by nothing else: two keys derive the same identifier exactly
/// when those bytes agree, so keys that differ there give different peers.
pub proof fn lemma_derived_peer_id_from_last_bytes(a: Seq<u8>, b: Seq<u8>)
    requires
        a.len() == 32,
        b.len() == 32,
    ensures
        (spec_derived_peer_id(a) == spec_derived_peer_id(b)) <==> (a.subrange(16, 32)
            == b.subrange(16, 32)),
{
    let sa = a.subrange(16, 32);
    let sb = b.subrange(16, 32);
    lemma_be_value_bound(sa);
    lemma_be_value_bound(sb);
    assert(pow(256, 16) == 0x1_0000_0000_0000_0000_0000_0000_0000_0000) by {
        reveal(pow);
        reveal_with_fuel(pow, 17);
    }
    if spec_derived_peer_id(a) == spec_derived_peer_id(b) {
        assert(be_value(sa) == be_value(sb));
        lemma_be_value_injective(sa, sb);
    }
}

/// The last byte of the public key is the low byte of the derived peer
/// identifier, and byte 16 is its high byte.
pub proof fn lemma_derived_peer_id_bytes(key: Seq<u8>)
    requires
        key.len() == 32,
    ensures
        spec_derived_peer_id(key) as int % 256 == key[31] as int,
        spec_derived_peer_id(key) as int / 0x1_0000_0000_0000_0000_0000_0000_0000_00 == key[16] as int,
{
    let s = key.subrange(16, 32);
    lemma_be_value_bound(s);
    assert(pow(256, 16) == 0x1_0000_0000_0000_0000_0000_0000_0000_0000) by {
        reveal(pow);
        reveal_with_fuel(pow, 17);
    }
    let v = be_value(s.drop_last());
    assert(be_value(s) == v * 256 + key[31]);
    assert((v * 256 + key[31]) % 256 == key[31] as int) by (nonlinear_arith)
        requires
            0 <= key[31] < 256,
            v >= 0,
    ;
    lemma_be_value_high_byte(s);
    assert(pow(256, 15) == 0x1_0000_0000_0000_0000_0000_0000_0000_00) by {
        reveal(pow);
        reveal_with_fuel(pow, 16);
    }
}

proof fn lemma_be_value_high_byte(s: Seq<u8>)
    requires
        s.len() > 0,
    ensures
        be_value(s) as int / pow(256, (s.len() - 1) as nat) == s[0] as int,
    decreases s.len(),
{
    reveal(pow);
    if s.len() == 1 {
        assert(s.drop_last() =~= Seq::<u8>::empty());
        assert(be_value(s.drop_last()) == 0);
        assert(be_value(s) == s[0]);
        assert(pow(256, 0) == 1);
    } else {
        let t = s.drop_last();
        lemma_be_value_high_byte(t);
        lemma_be_value_bound(t);
        let p = pow(256, (t.len() - 1) as nat);
        vstd::arithmetic::power::lemma_pow_positive(256, (t.len() - 1) as nat);
        let v = be_value(t) as int;
        let c = s.last() as int;
        assert(pow(256, (s.len() - 1) as nat) == 256 * p) by {
            assert((s.len() - 1) as nat == ((t.len() - 1) as nat) + 1);
        }
        assert(pow(256, t.len()) == 256 * p) by {
            assert(t.len() == ((t.len() - 1) as nat) + 1);
        }
        assert(t[0] == s[0]);
        assert((v * 256 + c) / (256 * p) == v / p) by (nonlinear_arith)
            requires
                p > 0,
                v >= 0,
                0 <= c < 256,
        {
            vstd::arithmetic::div_mod::lemma_div_denominator(v * 256 + c, 256, p);
            assert((v * 256 + c) / 256 == v);
        }
        assert(be_value(s) == v * 256 + c);
        assert(be_value(s) as int / pow(256, (s.len() - 1) as nat) == v / p);
    }
}

/// The upper-case hexadecimal digits.
pub open spec fn hex_digit(d: nat) -> char {
    seq!['0', '1', '2', '3', '4', '5', '6', '7', '8', '9', 'A', 'B', 'C', 'D', 'E', 'F'][d as int]
}

/// The last `n` upper-case hexadecimal digits of `v`, most significant first.
pub open spec fn spec_hex_upper(v: nat, n: nat) -> Seq<char>
    decreases n,
{
    if n == 0 {
        Seq::empty()
    } else {
        spec_hex_upper(v / 16, (n - 1) as nat).push(hex_digit(v % 16))
    }
}

/// The text form of a peer identifier: its 16 bytes as 32 upper-case
/// hexadecimal digits.
pub open spec fn spec_peer_id_text(id: PeerId) -> Seq<char> {
    spec_hex_upper(id as nat, 32)
}

/// The text form of a number has as many digits as asked for.
pub proof fn lemma_hex_upper_len(v: nat, n: nat)
    ensures
        spec_hex_upper(v, n).len() == n,
    decreases n,
{
    if n > 0 {
        lemma_hex_upper_len(v / 16, (n - 1) as nat);
    }
}

proof fn lemma_hex_digit_injective(a: nat, b: nat)
    requires
        a < 16,
        b < 16,
        hex_digit(a) == hex_digit(b),
    ensures
        a == b,
{
    let digits = seq!['0', '1', '2', '3', '4', '5', '6', '7', '8', '9', 'A', 'B', 'C', 'D', 'E', 'F'];
    assert(forall|i: int, j: int| 0 <= i < 16 && 0 <= j < 16 && i != j ==> digits[i] != digits[j]);
}

proof fn lemma_hex_upper_determines(v: nat, w: nat, n: nat)
    requires
        spec_hex_upper(v, n) == spec_hex_upper(w, n),
    ensures
        v % pow(16, n) as nat == w % pow(16, n) as nat,
    decreases n,
{
    reveal(pow);
    if n > 0 {
        let m = (n - 1) as nat;
        let hv = spec_hex_upper(v, n);
        let hw = spec_hex_upper(w, n);
        assert(hv.drop_last() == spec_hex_upper(v / 16, m));
        assert(hw.drop_last() == spec_hex_upper(w / 16, m));
        lemma_hex_upper_determines(v / 16, w / 16, m);
        assert(hv.last() == hw.last());
        lemma_hex_digit_injective(v % 16, w % 16);
        vstd::arithmetic::power::lemma_pow_positive(16, m);
        let p = pow(16, m);
        vstd::arithmetic::div_mod::lemma_mod_breakdown(v as int, 16, p);
        vstd::arithmetic::div_mod::lemma_mod_breakdown(w as int, 16, p);
        assert(pow(16, n) == 16 * p);
    }
}

/// Two peers with the same text form are the same peer: the text form of a
/// peer identifier, and so the default file names built from it, tell peers
/// apart.
pub proof fn lemma_peer_id_text_injective(a: PeerId, b: PeerId)
    requires
        spec_peer_id_text(a) == spec_peer_id_text(b),
    ensures
        a == b,
{
    lemma_hex_upper_determines(a as nat, b as nat, 32);
    assert(pow(16, 32) == 0x1_0000_0000_0000_0000_0000_0000_0000_0000) by {
        reveal(pow);
        reveal_with_fuel(pow, 33);
    }
    vstd::arithmetic::div_mod::lemma_small_mod(a as nat, pow(16, 32) as nat);
    vstd::arithmetic::div_mod::lemma_small_mod(b as nat, pow(16, 32) as nat);
}

/// The value of one hexadecimal digit, in either case.
pub open spec fn hex_char_value(c: char) -> Option<nat> {
    if '0' <= c && c <= '9' {
        Some((c as int - '0' as int) as nat)
    } else if 'a' <= c && c <= 'f' {
        Some((c as int - 'a' as int + 10) as nat)
    } else if 'A' <= c && c <= 'F' {
        Some((c as int - 'A' as int + 10) as nat)
    } else {
        None
    }
}

/// The number that the hexadecimal digits `s` spell, most significant first,
/// if they are all hexadecimal digits.
pub open spec fn spec_hex_value(s: Seq<char>) -> Option<nat>
    decreases s.len(),
{
    if s.len() == 0 {
        Some(0)
    } else {
        match (spec_hex_value(s.drop_last()), hex_char_value(s.last())) {
            (Some(v), Some(d)) => Some(v * 16 + d),
            _ => None,
        }
    }
}

/// The peer identifier written as `s`: exactly 32 hexadecimal digits, in
/// either case.
pub open spec fn spec_peer_id_from_text(s: Seq<char>) -> Option<PeerId> {
    if s.len() == 32 {
        match spec_hex_value(s) {
            Some(v) => Some(v as u128),
            None => None,
        }
    } else {
        None
    }
}

proof fn lemma_hex_value_bound(s: Seq<char>)
    ensures
        spec_hex_value(s) matches Some(v) ==> v < pow(16, s.len()),
    decreases s.len(),
{
    reveal(pow);
    if s.len() > 0 {
        let t = s.drop_last();
        lemma_hex_value_bound(t);
        if let (Some(v), Some(d)) = (spec_hex_value(t), hex_char_value(s.last())) {
            let p = pow(16, t.len());
            assert(pow(16, s.len()) == 16 * p) by {
                assert(s.len() == t.len() + 1);
            }
            assert(v * 16 + d < 16 * p) by (nonlinear_arith)
                requires
                    v < p,
                    d < 16,
            ;
        }
    }
}

fn hex_char_to_value(c: char) -> (d: Option<u128>)
    ensures
        d matches Some(x) ==> hex_char_value(c) == Some(x as nat),
        d is None ==> hex_char_value(c) is None,
{
    if '0' <= c && c <= '9' {
        Some((c as u32 - '0' as u32) as u128)
    } else if 'a' <= c && c <= 'f' {
        Some((c as u32 - 'a' as u32 + 10) as u128)
    } else if 'A' <= c && c <= 'F' {
        Some((c as u32 - 'A' as u32 + 10) as u128)
    } else {
        None
    }
}

/// Reads a peer identifier from its text form: exactly 32 hexadecimal
/// digits, in either case.
pub fn peer_id_from_text(s: &str) -> (id: Option<PeerId>)
    ensures
        id == spec_peer_id_from_text(s@),
{
    let n = s.unicode_len();
    if n != 32 {
        return None;
    }
    let mut acc: u128 = 0;
    let mut i: usize = 0;
    assert(s@.subrange(0, 0) =~= Seq::<char>::empty());
    assert(pow(16, 32) == 0x1_0000_0000_0000_0000_0000_0000_0000_0000) by {
        reveal(pow);
        reveal_with_fuel(pow, 33);
    }
    while i < 32
        invariant
            n == 32,
            s@.len() == 32,
            i <= 32,
            spec_hex_value(s@.subrange(0, i as int)) == Some(acc as nat),
            pow(16, 32) == 0x1_0000_0000_0000_0000_0000_0000_0000_0000,
        decreases 32 - i,
    {
        let c = s.get_char(i);
        let ghost next = s@.subrange(0, i + 1);
        assert(next.drop_last() =~= s@.subrange(0, i as int));
        assert(next.last() == c);
        match hex_char_to_value(c) {
            Some(d) => {
                proof {
                    lemma_hex_value_bound(next);
                    vstd::arithmetic::power::lemma_pow_increases(16, next.len(), 32);
                }
                acc = acc * 16 + d;
            },
            None => {
                assert(spec_hex_value(next) is None);
                assert(s@ =~= next + s@.subrange(i + 1, 32));
                proof {
                    lemma_hex_value_prefix_none(s@, i + 1);
                }
                return None;
            },
        }
        i = i + 1;
    }
    assert(s@.subrange(0, 32) =~= s@);
    Some(acc)
}

proof fn lemma_hex_value_prefix_none(s: Seq<char>, k: int)
    requires
        0 <= k <= s.len(),
        spec_hex_value(s.subrange(0, k)) is None,
    ensures
        spec_hex_value(s) is None,
    decreases s.len() - k,
{
    if k < s.len() {
        let t = s.subrange(0, k + 1);
        assert(t.drop_last() =~= s.subrange(0, k));
        lemma_hex_value_prefix_none(s, k + 1);
    } else {
        assert(s.subrange(0, k) =~= s);
    }
}

proof fn lemma_hex_digit_value(d: nat)
    requires
        d < 16,
    ensures
        hex_char_value(hex_digit(d)) == Some(d),
{
    let digits = seq!['0', '1', '2', '3', '4', '5', '6', '7', '8', '9', 'A', 'B', 'C', 'D', 'E', 'F'];
    assert(hex_digit(d) == digits[d as int]);
    if d < 10 {
        assert(digits[d as int] as int == '0' as int + d);
    } else {
        assert(digits[d as int] as int == 'A' as int + d - 10);
    }
}

proof fn lemma_hex_value_of_text(v: nat, n: nat)
    ensures
        spec_hex_value(spec_hex_upper(v, n)) == Some(v % pow(16, n) as nat),
    decreases n,
{
    reveal(pow);
    if n > 0 {
        let m = (n - 1) as nat;
        let h = spec_hex_upper(v, n);
        assert(h.drop_last() == spec_hex_upper(v / 16, m));
        lemma_hex_value_of_text(v / 16, m);
        lemma_hex_digit_value(v % 16);
        vstd::arithmetic::power::lemma_pow_positive(16, m);
        let p = pow(16, m);
        vstd::arithmetic::div_mod::lemma_mod_breakdown(v as int, 16, p);
        assert(pow(16, n) == 16 * p);
        let q = ((v / 16) as int) % p;
        assert(16 * q == q * 16) by (nonlinear_arith);
    }
}

/// Reading the text form of a peer identifier gives back the identifier.
pub proof fn lemma_peer_id_text_round_trip(id: PeerId)
    ensures
        spec_peer_id_from_text(spec_peer_id_text(id)) == Some(id),
{
    lemma_hex_upper_len(id as nat, 32);
    lemma_hex_value_of_text(id as nat, 32);
    assert(pow(16, 32) == 0x1_0000_0000_0000_0000_0000_0000_0000_0000) by {
        reveal(pow);
        reveal_with_fuel(pow, 33);
    }
    vstd::arithmetic::div_mod::lemma_small_mod(id as nat, pow(16, 32) as nat);
}

/// Appends one character: `String::push`.
#[verifier::external_body]
pub(crate) fn push_char(s: &mut String, c: char)
    ensures
        final(s)@ == old(s)@.push(c),
{
    s.push(c);
}

fn hex_digit_char(d: u128) -> (c: char)
    requires
        d < 16,
    ensures
        c == hex_digit(d as nat),
{
    let digits: [char; 16] = [
        '0', '1', '2', '3', '4', '5', '6', '7', '8', '9', 'A', 'B', 'C', 'D', 'E', 'F',
    ];
    assert(digits@ =~= seq![
        '0', '1', '2', '3', '4', '5', '6', '7', '8', '9', 'A', 'B', 'C', 'D', 'E', 'F',
    ]);
    digits[d as usize]
}

fn hex_upper(v: u128, n: usize) -> (s: String)
    ensures
        s@ == spec_hex_upper(v as nat, n as nat),
    decreases n,
{
    if n == 0 {
        String::new()
    } else {
        let mut s = hex_upper(v / 16, n - 1);
        push_char(&mut s, hex_digit_char(v % 16));
        s
    }
}

/// The text form of a peer identifier, as a node writes it in file names.
pub fn peer_id_text(id: PeerId) -> (s: String)
    ensures
        s@ == spec_peer_id_text(id),
{
    hex_upper(id, 32)
}

} // verus!
