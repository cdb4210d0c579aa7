//! The compact binary callback codec: every inline-button payload is
//! encoded into bytes, packed into the printable alphabet the platform
//! accepts, and decoded back on the way in. Payloads that would exceed the
//! platform's size ceiling are refused, never truncated.

use vstd::prelude::*;
use vstd::bytes::{
    lemma_auto_spec_u32_to_from_le_bytes, lemma_auto_spec_u64_to_from_le_bytes,
    spec_u32_from_le_bytes, spec_u32_to_le_bytes, spec_u64_from_le_bytes, spec_u64_to_le_bytes,
    u32_from_le_bytes, u32_to_le_bytes, u64_from_le_bytes, u64_to_le_bytes,
};
use vstd::utf8::{decode_utf8, encode_utf8, valid_utf8};
use crate::entity::{CallbackResponse, Target};

verus! {

broadcast use vstd::string::group_string_axioms;

/// The platform caps callback payloads at 64 characters; the printable
/// packing grows data by about a quarter, so at most this many bytes may
/// be encoded.
pub const MAX_CALLBACK_BYTES: usize = 52;

/// The value a callback payload carries, with its strings as character
/// sequences: what the byte codec is specified against.
pub ghost enum CallbackV {
    Yes,
    No,
    Target(Target),
    User(u64),
    Remove(Seq<i32>),
    AdminToRemove(u64),
    AddTag(Seq<char>, i32),
    RemoveTag(Seq<char>, i32),
    ApproveSubscribe(u64, i64),
    DeclineSubscribe(u64),
    BanSubscribe(u64),
}

/// The value a concrete callback stands for.
pub open spec fn view_of(c: CallbackResponse) -> CallbackV {
    match c {
        CallbackResponse::Yes => CallbackV::Yes,
        CallbackResponse::No => CallbackV::No,
        CallbackResponse::Target(t) => CallbackV::Target(t),
        CallbackResponse::User(u) => CallbackV::User(u),
        CallbackResponse::Remove(ids) => CallbackV::Remove(ids@),
        CallbackResponse::AdminToRemove(u) => CallbackV::AdminToRemove(u),
        CallbackResponse::AddTag(s, m) => CallbackV::AddTag(s@, m),
        CallbackResponse::RemoveTag(s, m) => CallbackV::RemoveTag(s@, m),
        CallbackResponse::ApproveSubscribe(u, c) => CallbackV::ApproveSubscribe(u, c),
        CallbackResponse::DeclineSubscribe(u) => CallbackV::DeclineSubscribe(u),
        CallbackResponse::BanSubscribe(u) => CallbackV::BanSubscribe(u),
    }
}

pub open spec fn target_byte(t: Target) -> u8 {
    match t {
        Target::Buy => 0,
        Target::Sell => 1,
        Target::Ask => 2,
        Target::Recommend => 3,
    }
}

pub open spec fn byte_target(b: u8) -> Option<Target> {
    if b == 0 {
        Some(Target::Buy)
    } else if b == 1 {
        Some(Target::Sell)
    } else if b == 2 {
        Some(Target::Ask)
    } else if b == 3 {
        Some(Target::Recommend)
    } else {
        None
    }
}

/// A signed 32-bit number as a sign byte and its magnitude.
pub open spec fn enc_i32v(x: i32) -> Seq<u8> {
    if x >= 0 {
        seq![0u8] + spec_u32_to_le_bytes(x as u32)
    } else {
        seq![1u8] + spec_u32_to_le_bytes((-(x as int)) as u32)
    }
}

/// A signed 64-bit number as a sign byte and its magnitude.
pub open spec fn enc_i64v(x: i64) -> Seq<u8> {
    if x >= 0 {
        seq![0u8] + spec_u64_to_le_bytes(x as u64)
    } else {
        seq![1u8] + spec_u64_to_le_bytes((-(x as int)) as u64)
    }
}

/// A string field: one length byte, then its UTF-8 bytes.
pub open spec fn enc_str_field(s: Seq<char>) -> Seq<u8> {
    seq![(encode_utf8(s).len() % 256) as u8] + encode_utf8(s)
}

/// A list of signed 32-bit numbers, one after the other.
pub open spec fn enc_i32s(v: Seq<i32>) -> Seq<u8>
    decreases v.len(),
{
    if v.len() == 0 {
        Seq::empty()
    } else {
        enc_i32v(v[0]) + enc_i32s(v.drop_first())
    }
}

/// The byte encoding of a callback value: one tag byte, then its fields.
pub open spec fn spec_encode_v(v: CallbackV) -> Seq<u8> {
    match v {
        CallbackV::Yes => seq![0u8],
        CallbackV::No => seq![1u8],
        CallbackV::Target(t) => seq![2u8, target_byte(t)],
        CallbackV::User(u) => seq![3u8] + spec_u64_to_le_bytes(u),
        CallbackV::Remove(ids) => seq![4u8, (ids.len() % 256) as u8] + enc_i32s(ids),
        CallbackV::AdminToRemove(u) => seq![5u8] + spec_u64_to_le_bytes(u),
        CallbackV::AddTag(s, m) => seq![6u8] + enc_str_field(s) + enc_i32v(m),
        CallbackV::RemoveTag(s, m) => seq![7u8] + enc_str_field(s) + enc_i32v(m),
        CallbackV::ApproveSubscribe(u, c) => seq![8u8] + spec_u64_to_le_bytes(u) + enc_i64v(c),
        CallbackV::DeclineSubscribe(u) => seq![9u8] + spec_u64_to_le_bytes(u),
        CallbackV::BanSubscribe(u) => seq![10u8] + spec_u64_to_le_bytes(u),
    }
}

/// A callback that fits the platform's payload ceiling.
pub open spec fn encodable_v(v: CallbackV) -> bool {
    spec_encode_v(v).len() <= MAX_CALLBACK_BYTES
}

// ---------------------------------------------------------------------
// The specification-level parser the decoder is held to.
// ---------------------------------------------------------------------

pub open spec fn p_u8(s: Seq<u8>) -> Option<(u8, Seq<u8>)> {
    if s.len() >= 1 {
        Some((s[0], s.drop_first()))
    } else {
        None
    }
}

pub open spec fn p_u32(s: Seq<u8>) -> Option<(u32, Seq<u8>)> {
    if s.len() >= 4 {
        Some((spec_u32_from_le_bytes(s.take(4)), s.skip(4)))
    } else {
        None
    }
}

pub open spec fn p_u64(s: Seq<u8>) -> Option<(u64, Seq<u8>)> {
    if s.len() >= 8 {
        Some((spec_u64_from_le_bytes(s.take(8)), s.skip(8)))
    } else {
        None
    }
}

pub open spec fn p_i32(s: Seq<u8>) -> Option<(i32, Seq<u8>)> {
    match p_u8(s) {
        None => None,
        Some((sign, r1)) => match p_u32(r1) {
            None => None,
            Some((mag, r2)) => {
                if sign == 0 && mag <= 0x7FFF_FFFF {
                    Some((mag as i32, r2))
                } else if sign == 1 && 1 <= mag && mag <= 0x8000_0000 {
                    Some(((-(mag as int)) as i32, r2))
                } else {
                    None
                }
            },
        },
    }
}

pub open spec fn p_i64(s: Seq<u8>) -> Option<(i64, Seq<u8>)> {
    match p_u8(s) {
        None => None,
        Some((sign, r1)) => match p_u64(r1) {
            None => None,
            Some((mag, r2)) => {
                if sign == 0 && mag <= 0x7FFF_FFFF_FFFF_FFFF {
                    Some((mag as i64, r2))
                } else if sign == 1 && 1 <= mag && mag <= 0x8000_0000_0000_0000 {
                    Some(((-(mag as int)) as i64, r2))
                } else {
                    None
                }
            },
        },
    }
}

pub open spec fn p_str(s: Seq<u8>) -> Option<(Seq<char>, Seq<u8>)> {
    match p_u8(s) {
        None => None,
        Some((n, r1)) => {
            if r1.len() >= n {
                let b = r1.take(n as int);
                if valid_utf8(b) {
                    Some((decode_utf8(b), r1.skip(n as int)))
                } else {
                    None
                }
            } else {
                None
            }
        },
    }
}

pub open spec fn p_i32s(s: Seq<u8>, n: nat) -> Option<(Seq<i32>, Seq<u8>)>
    decreases n,
{
    if n == 0 {
        Some((Seq::empty(), s))
    } else {
        match p_i32(s) {
            None => None,
            Some((v, r)) => match p_i32s(r, (n - 1) as nat) {
                None => None,
                Some((vs, r2)) => Some((seq![v] + vs, r2)),
            },
        }
    }
}

/// The value a byte string decodes to: `None` for anything that is not
/// exactly one callback encoding.
pub open spec fn spec_decode(s: Seq<u8>) -> Option<CallbackV> {
    match p_u8(s) {
        None => None,
        Some((tag, r)) => {
            if tag == 0 {
                if r.len() == 0 {
                    Some(CallbackV::Yes)
                } else {
                    None
                }
            } else if tag == 1 {
                if r.len() == 0 {
                    Some(CallbackV::No)
                } else {
                    None
                }
            } else if tag == 2 {
                match p_u8(r) {
                    Some((tb, r2)) => if r2.len() == 0 {
                        match byte_target(tb) {
                            Some(t) => Some(CallbackV::Target(t)),
                            None => None,
                        }
                    } else {
                        None
                    },
                    None => None,
                }
            } else if tag == 3 {
                match p_u64(r) {
                    Some((u, r2)) => if r2.len() == 0 {
                        Some(CallbackV::User(u))
                    } else {
                        None
                    },
                    None => None,
                }
            } else if tag == 4 {
                match p_u8(r) {
                    Some((n, r2)) => match p_i32s(r2, n as nat) {
                        Some((ids, r3)) => if r3.len() == 0 {
                            Some(CallbackV::Remove(ids))
                        } else {
                            None
                        },
                        None => None,
                    },
                    None => None,
                }
            } else if tag == 5 {
                match p_u64(r) {
                    Some((u, r2)) => if r2.len() == 0 {
                        Some(CallbackV::AdminToRemove(u))
                    } else {
                        None
                    },
                    None => None,
                }
            } else if tag == 6 {
                match p_str(r) {
                    Some((s2, r2)) => match p_i32(r2) {
                        Some((m, r3)) => if r3.len() == 0 {
                            Some(CallbackV::AddTag(s2, m))
                        } else {
                            None
                        },
                        None => None,
                    },
                    None => None,
                }
            } else if tag == 7 {
                match p_str(r) {
                    Some((s2, r2)) => match p_i32(r2) {
                        Some((m, r3)) => if r3.len() == 0 {
                            Some(CallbackV::RemoveTag(s2, m))
                        } else {
                            None
                        },
                        None => None,
                    },
                    None => None,
                }
            } else if tag == 8 {
                match p_u64(r) {
                    Some((u, r2)) => match p_i64(r2) {
                        Some((c, r3)) => if r3.len() == 0 {
                            Some(CallbackV::ApproveSubscribe(u, c))
                        } else {
                            None
                        },
                        None => None,
                    },
                    None => None,
                }
            } else if tag == 9 {
                match p_u64(r) {
                    Some((u, r2)) => if r2.len() == 0 {
                        Some(CallbackV::DeclineSubscribe(u))
                    } else {
                        None
                    },
                    None => None,
                }
            } else if tag == 10 {
                match p_u64(r) {
                    Some((u, r2)) => if r2.len() == 0 {
                        Some(CallbackV::BanSubscribe(u))
                    } else {
                        None
                    },
                    None => None,
                }
            } else {
                None
            }
        },
    }
}

// ---------------------------------------------------------------------
// Round trip: parsing inverts encoding.
// ---------------------------------------------------------------------

proof fn lemma_p_u8_enc(x: u8, rest: Seq<u8>)
    ensures
        p_u8(seq![x] + rest) == Some((x, rest)),
{
    assert((seq![x] + rest).drop_first() =~= rest);
}

proof fn lemma_p_u32_enc(x: u32, rest: Seq<u8>)
    ensures
        p_u32(spec_u32_to_le_bytes(x) + rest) == Some((x, rest)),
{
    lemma_auto_spec_u32_to_from_le_bytes();
    let s = spec_u32_to_le_bytes(x) + rest;
    assert(s.take(4) =~= spec_u32_to_le_bytes(x));
    assert(s.skip(4) =~= rest);
}

proof fn lemma_p_u64_enc(x: u64, rest: Seq<u8>)
    ensures
        p_u64(spec_u64_to_le_bytes(x) + rest) == Some((x, rest)),
{
    lemma_auto_spec_u64_to_from_le_bytes();
    let s = spec_u64_to_le_bytes(x) + rest;
    assert(s.take(8) =~= spec_u64_to_le_bytes(x));
    assert(s.skip(8) =~= rest);
}

proof fn lemma_p_i32_enc(x: i32, rest: Seq<u8>)
    ensures
        p_i32(enc_i32v(x) + rest) == Some((x, rest)),
{
    lemma_auto_spec_u32_to_from_le_bytes();
    if x >= 0 {
        let s = seq![0u8] + spec_u32_to_le_bytes(x as u32) + rest;
        assert(enc_i32v(x) + rest =~= seq![0u8] + (spec_u32_to_le_bytes(x as u32) + rest));
        lemma_p_u8_enc(0u8, spec_u32_to_le_bytes(x as u32) + rest);
        lemma_p_u32_enc(x as u32, rest);
    } else {
        let mag = (-(x as int)) as u32;
        assert(enc_i32v(x) + rest =~= seq![1u8] + (spec_u32_to_le_bytes(mag) + rest));
        lemma_p_u8_enc(1u8, spec_u32_to_le_bytes(mag) + rest);
        lemma_p_u32_enc(mag, rest);
    }
}

proof fn lemma_p_i64_enc(x: i64, rest: Seq<u8>)
    ensures
        p_i64(enc_i64v(x) + rest) == Some((x, rest)),
{
    lemma_auto_spec_u64_to_from_le_bytes();
    if x >= 0 {
        assert(enc_i64v(x) + rest =~= seq![0u8] + (spec_u64_to_le_bytes(x as u64) + rest));
        lemma_p_u8_enc(0u8, spec_u64_to_le_bytes(x as u64) + rest);
        lemma_p_u64_enc(x as u64, rest);
    } else {
        let mag = (-(x as int)) as u64;
        assert(enc_i64v(x) + rest =~= seq![1u8] + (spec_u64_to_le_bytes(mag) + rest));
        lemma_p_u8_enc(1u8, spec_u64_to_le_bytes(mag) + rest);
        lemma_p_u64_enc(mag, rest);
    }
}

proof fn lemma_p_str_enc(s: Seq<char>, rest: Seq<u8>)
    requires
        encode_utf8(s).len() <= 255,
    ensures
        p_str(enc_str_field(s) + rest) == Some((s, rest)),
{
    broadcast use vstd::utf8::encode_utf8_valid_utf8, vstd::utf8::encode_utf8_decode_utf8;

    let b = encode_utf8(s);
    let n = (b.len() % 256) as u8;
    assert(n == b.len());
    assert(enc_str_field(s) + rest =~= seq![n] + (b + rest));
    lemma_p_u8_enc(n, b + rest);
    assert((b + rest).take(n as int) =~= b);
    assert((b + rest).skip(n as int) =~= rest);
}

proof fn lemma_p_i32s_enc(ids: Seq<i32>, rest: Seq<u8>)
    ensures
        p_i32s(enc_i32s(ids) + rest, ids.len()) == Some((ids, rest)),
    decreases ids.len(),
{
    if ids.len() == 0 {
        assert(enc_i32s(ids) + rest =~= rest);
    } else {
        assert(enc_i32s(ids) + rest =~= enc_i32v(ids[0]) + (enc_i32s(ids.drop_first()) + rest));
        lemma_p_i32_enc(ids[0], enc_i32s(ids.drop_first()) + rest);
        lemma_p_i32s_enc(ids.drop_first(), rest);
        assert(seq![ids[0]] + ids.drop_first() =~= ids);
    }
}

/// Each encoded number takes five bytes.
proof fn lemma_enc_i32s_len(ids: Seq<i32>)
    ensures
        enc_i32s(ids).len() == 5 * ids.len(),
    decreases ids.len(),
{
    lemma_auto_spec_u32_to_from_le_bytes();
    if ids.len() > 0 {
        lemma_enc_i32s_len(ids.drop_first());
    }
}

/// Decoding inverts encoding: every callback value that fits the ceiling
/// comes back from its own byte encoding unchanged.
pub proof fn lemma_callback_round_trip(v: CallbackV)
    requires
        encodable_v(v),
    ensures
        spec_decode(spec_encode_v(v)) == Some(v),
{
    lemma_auto_spec_u32_to_from_le_bytes();
    lemma_auto_spec_u64_to_from_le_bytes();
    let e = spec_encode_v(v);
    match v {
        CallbackV::Yes => {
            lemma_p_u8_enc(0u8, Seq::empty());
            assert(e =~= seq![0u8] + Seq::<u8>::empty());
        },
        CallbackV::No => {
            lemma_p_u8_enc(1u8, Seq::empty());
            assert(e =~= seq![1u8] + Seq::<u8>::empty());
        },
        CallbackV::Target(t) => {
            assert(e =~= seq![2u8] + (seq![target_byte(t)] + Seq::<u8>::empty()));
            lemma_p_u8_enc(2u8, seq![target_byte(t)] + Seq::<u8>::empty());
            lemma_p_u8_enc(target_byte(t), Seq::empty());
        },
        CallbackV::User(u) => {
            assert(e =~= seq![3u8] + (spec_u64_to_le_bytes(u) + Seq::<u8>::empty()));
            lemma_p_u8_enc(3u8, spec_u64_to_le_bytes(u) + Seq::<u8>::empty());
            lemma_p_u64_enc(u, Seq::empty());
        },
        CallbackV::Remove(ids) => {
            lemma_enc_i32s_len(ids);
            assert(ids.len() <= 10);
            let n = (ids.len() % 256) as u8;
            assert(n as nat == ids.len());
            assert(e =~= seq![4u8] + (seq![n] + (enc_i32s(ids) + Seq::<u8>::empty())));
            lemma_p_u8_enc(4u8, seq![n] + (enc_i32s(ids) + Seq::<u8>::empty()));
            lemma_p_u8_enc(n, enc_i32s(ids) + Seq::<u8>::empty());
            lemma_p_i32s_enc(ids, Seq::empty());
        },
        CallbackV::AdminToRemove(u) => {
            assert(e =~= seq![5u8] + (spec_u64_to_le_bytes(u) + Seq::<u8>::empty()));
            lemma_p_u8_enc(5u8, spec_u64_to_le_bytes(u) + Seq::<u8>::empty());
            lemma_p_u64_enc(u, Seq::empty());
        },
        CallbackV::AddTag(s, m) => {
            assert(e =~= seq![6u8] + (enc_str_field(s) + (enc_i32v(m) + Seq::<u8>::empty())));
            lemma_p_u8_enc(6u8, enc_str_field(s) + (enc_i32v(m) + Seq::<u8>::empty()));
            assert(enc_str_field(s).len() >= 1);
            lemma_p_str_enc(s, enc_i32v(m) + Seq::<u8>::empty());
            lemma_p_i32_enc(m, Seq::empty());
        },
        CallbackV::RemoveTag(s, m) => {
            assert(e =~= seq![7u8] + (enc_str_field(s) + (enc_i32v(m) + Seq::<u8>::empty())));
            lemma_p_u8_enc(7u8, enc_str_field(s) + (enc_i32v(m) + Seq::<u8>::empty()));
            lemma_p_str_enc(s, enc_i32v(m) + Seq::<u8>::empty());
            lemma_p_i32_enc(m, Seq::empty());
        },
        CallbackV::ApproveSubscribe(u, c) => {
            assert(e =~= seq![8u8] + (spec_u64_to_le_bytes(u) + (enc_i64v(c)
                + Seq::<u8>::empty())));
            lemma_p_u8_enc(8u8, spec_u64_to_le_bytes(u) + (enc_i64v(c) + Seq::<u8>::empty()));
            lemma_p_u64_enc(u, enc_i64v(c) + Seq::<u8>::empty());
            lemma_p_i64_enc(c, Seq::empty());
        },
        CallbackV::DeclineSubscribe(u) => {
            assert(e =~= seq![9u8] + (spec_u64_to_le_bytes(u) + Seq::<u8>::empty()));
            lemma_p_u8_enc(9u8, spec_u64_to_le_bytes(u) + Seq::<u8>::empty());
            lemma_p_u64_enc(u, Seq::empty());
        },
        CallbackV::BanSubscribe(u) => {
            assert(e =~= seq![10u8] + (spec_u64_to_le_bytes(u) + Seq::<u8>::empty()));
            lemma_p_u8_enc(10u8, spec_u64_to_le_bytes(u) + Seq::<u8>::empty());
            lemma_p_u64_enc(u, Seq::empty());
        },
    }
}


// ---------------------------------------------------------------------
// The executable encoder.
// ---------------------------------------------------------------------

fn push_u32(out: &mut Vec<u8>, x: u32)
    ensures
        final(out)@ == old(out)@ + spec_u32_to_le_bytes(x),
{
    let mut b = u32_to_le_bytes(x);
    out.append(&mut b);
}

fn push_u64(out: &mut Vec<u8>, x: u64)
    ensures
        final(out)@ == old(out)@ + spec_u64_to_le_bytes(x),
{
    let mut b = u64_to_le_bytes(x);
    out.append(&mut b);
}

fn push_i32(out: &mut Vec<u8>, x: i32)
    ensures
        final(out)@ == old(out)@ + enc_i32v(x),
{
    if x >= 0 {
        out.push(0);
        push_u32(out, x as u32);
        proof {
            assert(final(out)@ =~= old(out)@ + enc_i32v(x));
        }
    } else {
        let mag: u32 = ((-(x + 1)) as u32) + 1;
        proof {
            assert(mag as int == -(x as int));
        }
        out.push(1);
        push_u32(out, mag);
        proof {
            assert(final(out)@ =~= old(out)@ + enc_i32v(x));
        }
    }
}

fn push_i64(out: &mut Vec<u8>, x: i64)
    ensures
        final(out)@ == old(out)@ + enc_i64v(x),
{
    if x >= 0 {
        out.push(0);
        push_u64(out, x as u64);
        proof {
            assert(final(out)@ =~= old(out)@ + enc_i64v(x));
        }
    } else {
        let mag: u64 = ((-(x + 1)) as u64) + 1;
        proof {
            assert(mag as int == -(x as int));
        }
        out.push(1);
        push_u64(out, mag);
        proof {
            assert(final(out)@ =~= old(out)@ + enc_i64v(x));
        }
    }
}

impl CallbackResponse {
    /// The byte encoding of this callback, or nothing when it would not
    /// fit the platform's payload ceiling.
    pub fn to_bytes(&self) -> (r: Option<Vec<u8>>)
        ensures
            match r {
                Some(out) => encodable_v(view_of(*self)) && out@ == spec_encode_v(
                    view_of(*self),
                ),
                None => !encodable_v(view_of(*self)),
            },
    {
        proof {
            lemma_auto_spec_u32_to_from_le_bytes();
            lemma_auto_spec_u64_to_from_le_bytes();
        }
        let mut out: Vec<u8> = Vec::new();
        match self {
            CallbackResponse::Yes => {
                out.push(0);
                proof {
                    assert(out@ =~= spec_encode_v(view_of(*self)));
                }
            },
            CallbackResponse::No => {
                out.push(1);
                proof {
                    assert(out@ =~= spec_encode_v(view_of(*self)));
                }
            },
            CallbackResponse::Target(t) => {
                out.push(2);
                let tb: u8 = match t {
                    Target::Buy => 0,
                    Target::Sell => 1,
                    Target::Ask => 2,
                    Target::Recommend => 3,
                };
                out.push(tb);
                proof {
                    assert(out@ =~= spec_encode_v(view_of(*self)));
                }
            },
            CallbackResponse::User(u) => {
                out.push(3);
                push_u64(&mut out, *u);
                proof {
                    assert(out@ =~= spec_encode_v(view_of(*self)));
                }
            },
            CallbackResponse::Remove(ids) => {
                out.push(4);
                if ids.len() > 10 {
                    proof {
                        lemma_enc_i32s_len(ids@);
                    }
                    return None;
                }
                out.push(ids.len() as u8);
                let ghost i0 = out@;
                let mut k: usize = 0;
                while k < ids.len()
                    invariant
                        k <= ids@.len(),
                        out@ == i0 + enc_i32s(ids@.take(k as int)),
                    decreases ids.len() - k,
                {
                    push_i32(&mut out, ids[k]);
                    proof {
                        lemma_enc_i32s_snoc(ids@.take(k + 1));
                        assert(ids@.take(k + 1).drop_last() =~= ids@.take(k as int));
                        assert(out@ =~= i0 + enc_i32s(ids@.take(k + 1)));
                    }
                    k += 1;
                }
                proof {
                    assert(ids@.take(ids@.len() as int) =~= ids@);
                    lemma_enc_i32s_len(ids@);
                    assert(out@ =~= spec_encode_v(view_of(*self)));
                }
            },
            CallbackResponse::AdminToRemove(u) => {
                out.push(5);
                push_u64(&mut out, *u);
                proof {
                    assert(out@ =~= spec_encode_v(view_of(*self)));
                }
            },
            CallbackResponse::AddTag(tag, m) => {
                out.push(6);
                if !push_str_field(&mut out, tag.as_str()) {
                    return None;
                }
                push_i32(&mut out, *m);
                proof {
                    assert(out@ =~= spec_encode_v(view_of(*self)));
                }
            },
            CallbackResponse::RemoveTag(tag, m) => {
                out.push(7);
                if !push_str_field(&mut out, tag.as_str()) {
                    return None;
                }
                push_i32(&mut out, *m);
                proof {
                    assert(out@ =~= spec_encode_v(view_of(*self)));
                }
            },
            CallbackResponse::ApproveSubscribe(u, c) => {
                out.push(8);
                push_u64(&mut out, *u);
                push_i64(&mut out, *c);
                proof {
                    assert(out@ =~= spec_encode_v(view_of(*self)));
                }
            },
            CallbackResponse::DeclineSubscribe(u) => {
                out.push(9);
                push_u64(&mut out, *u);
                proof {
                    assert(out@ =~= spec_encode_v(view_of(*self)));
                }
            },
            CallbackResponse::BanSubscribe(u) => {
                out.push(10);
                push_u64(&mut out, *u);
                proof {
                    assert(out@ =~= spec_encode_v(view_of(*self)));
                }
            },
        }
        Some(out)
    }
}

/// Writes a string field when its UTF-8 form leaves room under the
/// ceiling; refuses anything longer.
fn push_str_field(out: &mut Vec<u8>, s: &str) -> (ok: bool)
    ensures
        ok ==> final(out)@ == old(out)@ + enc_str_field(s@) && encode_utf8(s@).len() <= 45,
        !ok ==> encode_utf8(s@).len() > 45,
{
    let mut b = s.as_bytes_vec();
    if b.len() > 45 {
        return false;
    }
    out.push(b.len() as u8);
    out.append(&mut b);
    proof {
        assert(final(out)@ =~= old(out)@ + enc_str_field(s@));
    }
    true
}

proof fn lemma_enc_i32s_snoc(ids: Seq<i32>)
    requires
        ids.len() > 0,
    ensures
        enc_i32s(ids) == enc_i32s(ids.drop_last()) + enc_i32v(ids.last()),
    decreases ids.len(),
{
    if ids.len() == 1 {
        assert(ids.drop_last() =~= Seq::<i32>::empty());
        assert(ids.drop_first() =~= Seq::<i32>::empty());
        assert(enc_i32s(ids) =~= enc_i32s(ids.drop_last()) + enc_i32v(ids.last()));
    } else {
        lemma_enc_i32s_snoc(ids.drop_first());
        assert(ids.drop_first().drop_last() =~= ids.drop_last().drop_first());
        assert(ids.drop_last()[0] == ids[0]);
        assert(ids.drop_first().last() == ids.last());
        assert(enc_i32s(ids) == enc_i32v(ids[0]) + enc_i32s(ids.drop_first()));
        assert(enc_i32s(ids.drop_last()) == enc_i32v(ids[0]) + enc_i32s(
            ids.drop_last().drop_first(),
        ));
        assert(enc_i32s(ids) =~= enc_i32s(ids.drop_last()) + enc_i32v(ids.last()));
    }
}


// ---------------------------------------------------------------------
// The executable decoder.
// ---------------------------------------------------------------------

/// The input not yet consumed at cursor position `i`.
pub open spec fn rem(bytes: Seq<u8>, i: int) -> Seq<u8> {
    bytes.skip(i)
}

fn read_u8(bytes: &Vec<u8>, i: &mut usize) -> (r: Option<u8>)
    requires
        *old(i) <= bytes@.len(),
    ensures
        *final(i) <= bytes@.len(),
        match r {
            Some(v) => p_u8(rem(bytes@, *old(i) as int)) == Some((v, rem(bytes@, *final(i) as int))),
            None => p_u8(rem(bytes@, *old(i) as int)) is None && *final(i) == *old(i),
        },
{
    if *i < bytes.len() {
        let v = bytes[*i];
        *i = *i + 1;
        proof {
            assert(rem(bytes@, *old(i) as int)[0] == v);
            assert(rem(bytes@, *old(i) as int).drop_first() =~= rem(bytes@, *old(i) + 1));
        }
        Some(v)
    } else {
        None
    }
}

fn read_u32(bytes: &Vec<u8>, i: &mut usize) -> (r: Option<u32>)
    requires
        *old(i) <= bytes@.len(),
    ensures
        *final(i) <= bytes@.len(),
        match r {
            Some(v) => p_u32(rem(bytes@, *old(i) as int)) == Some((v, rem(bytes@, *final(i) as int))),
            None => p_u32(rem(bytes@, *old(i) as int)) is None && *final(i) == *old(i),
        },
{
    if bytes.len() - *i >= 4 {
        let mut tmp: Vec<u8> = Vec::new();
        tmp.push(bytes[*i]);
        tmp.push(bytes[*i + 1]);
        tmp.push(bytes[*i + 2]);
        tmp.push(bytes[*i + 3]);
        proof {
            assert(tmp@ =~= rem(bytes@, *old(i) as int).take(4));
        }
        let v = u32_from_le_bytes(tmp.as_slice());
        *i = *i + 4;
        proof {
            assert(rem(bytes@, *old(i) as int).skip(4) =~= rem(bytes@, *old(i) + 4));
        }
        Some(v)
    } else {
        None
    }
}

fn read_u64(bytes: &Vec<u8>, i: &mut usize) -> (r: Option<u64>)
    requires
        *old(i) <= bytes@.len(),
    ensures
        *final(i) <= bytes@.len(),
        match r {
            Some(v) => p_u64(rem(bytes@, *old(i) as int)) == Some((v, rem(bytes@, *final(i) as int))),
            None => p_u64(rem(bytes@, *old(i) as int)) is None && *final(i) == *old(i),
        },
{
    if bytes.len() - *i >= 8 {
        let mut tmp: Vec<u8> = Vec::new();
        tmp.push(bytes[*i]);
        tmp.push(bytes[*i + 1]);
        tmp.push(bytes[*i + 2]);
        tmp.push(bytes[*i + 3]);
        tmp.push(bytes[*i + 4]);
        tmp.push(bytes[*i + 5]);
        tmp.push(bytes[*i + 6]);
        tmp.push(bytes[*i + 7]);
        proof {
            assert(tmp@ =~= rem(bytes@, *old(i) as int).take(8));
        }
        let v = u64_from_le_bytes(tmp.as_slice());
        *i = *i + 8;
        proof {
            assert(rem(bytes@, *old(i) as int).skip(8) =~= rem(bytes@, *old(i) + 8));
        }
        Some(v)
    } else {
        None
    }
}

fn read_i32(bytes: &Vec<u8>, i: &mut usize) -> (r: Option<i32>)
    requires
        *old(i) <= bytes@.len(),
    ensures
        *final(i) <= bytes@.len(),
        match r {
            Some(v) => p_i32(rem(bytes@, *old(i) as int)) == Some((v, rem(bytes@, *final(i) as int))),
            None => p_i32(rem(bytes@, *old(i) as int)) is None,
        },
{
    let sign = match read_u8(bytes, i) {
        Some(s) => s,
        None => {
            return None;
        },
    };
    let mag = match read_u32(bytes, i) {
        Some(m) => m,
        None => {
            return None;
        },
    };
    if sign == 0 && mag <= 0x7FFF_FFFF {
        Some(mag as i32)
    } else if sign == 1 && 1 <= mag && mag <= 0x8000_0000 {
        if mag == 0x8000_0000 {
            Some(i32::MIN)
        } else {
            Some(-(mag as i32))
        }
    } else {
        None
    }
}

fn read_i64(bytes: &Vec<u8>, i: &mut usize) -> (r: Option<i64>)
    requires
        *old(i) <= bytes@.len(),
    ensures
        *final(i) <= bytes@.len(),
        match r {
            Some(v) => p_i64(rem(bytes@, *old(i) as int)) == Some((v, rem(bytes@, *final(i) as int))),
            None => p_i64(rem(bytes@, *old(i) as int)) is None,
        },
{
    let sign = match read_u8(bytes, i) {
        Some(s) => s,
        None => {
            return None;
        },
    };
    let mag = match read_u64(bytes, i) {
        Some(m) => m,
        None => {
            return None;
        },
    };
    if sign == 0 && mag <= 0x7FFF_FFFF_FFFF_FFFF {
        Some(mag as i64)
    } else if sign == 1 && 1 <= mag && mag <= 0x8000_0000_0000_0000 {
        if mag == 0x8000_0000_0000_0000 {
            Some(i64::MIN)
        } else {
            Some(-(mag as i64))
        }
    } else {
        None
    }
}

/// Relies on std's `String::from_utf8`: it succeeds exactly on valid
/// UTF-8 input and yields its decoding.
#[verifier::external_body]
fn bytes_to_string(v: Vec<u8>) -> (r: Option<String>)
    ensures
        match r {
            Some(s) => valid_utf8(v@) && s@ == decode_utf8(v@),
            None => !valid_utf8(v@),
        },
{
    match String::from_utf8(v) {
        Ok(s) => Some(s),
        Err(_) => None,
    }
}

fn read_str(bytes: &Vec<u8>, i: &mut usize) -> (r: Option<String>)
    requires
        *old(i) <= bytes@.len(),
    ensures
        *final(i) <= bytes@.len(),
        match r {
            Some(v) => p_str(rem(bytes@, *old(i) as int)) == Some((v@, rem(bytes@, *final(i) as int))),
            None => p_str(rem(bytes@, *old(i) as int)) is None,
        },
{
    let n = match read_u8(bytes, i) {
        Some(n) => n,
        None => {
            return None;
        },
    };
    let ghost r1 = rem(bytes@, *i as int);
    let base: usize = *i;
    if bytes.len() - base < n as usize {
        return None;
    }
    let end: usize = base + n as usize;
    let mut tmp: Vec<u8> = Vec::new();
    let mut k: usize = 0;
    while k < n as usize
        invariant
            k <= n as usize,
            end == base + n as usize,
            end <= bytes@.len(),
            tmp@ =~= bytes@.subrange(base as int, base + k),
        decreases n as usize - k,
    {
        tmp.push(bytes[base + k]);
        k += 1;
    }
    proof {
        assert(tmp@ =~= r1.take(n as int));
    }
    match bytes_to_string(tmp) {
        Some(s) => {
            *i = *i + n as usize;
            proof {
                assert(r1.skip(n as int) =~= rem(bytes@, *i as int));
            }
            Some(s)
        },
        None => None,
    }
}

impl CallbackResponse {
    /// The callback a byte string decodes to: `None` for anything that is
    /// not exactly one callback encoding.
    #[verifier::loop_isolation(false)]
    pub fn from_bytes(bytes: &Vec<u8>) -> (r: Option<CallbackResponse>)
        ensures
            match r {
                Some(d) => spec_decode(bytes@) == Some(view_of(d)),
                None => spec_decode(bytes@) is None,
            },
    {
        let mut i: usize = 0;
        proof {
            assert(rem(bytes@, 0) =~= bytes@);
        }
        let tag = match read_u8(bytes, &mut i) {
            Some(t) => t,
            None => {
                return None;
            },
        };
        if tag == 0 {
            if i == bytes.len() {
                Some(CallbackResponse::Yes)
            } else {
                None
            }
        } else if tag == 1 {
            if i == bytes.len() {
                Some(CallbackResponse::No)
            } else {
                None
            }
        } else if tag == 2 {
            let tb = match read_u8(bytes, &mut i) {
                Some(t) => t,
                None => {
                    return None;
                },
            };
            if i != bytes.len() {
                return None;
            }
            if tb == 0 {
                Some(CallbackResponse::Target(Target::Buy))
            } else if tb == 1 {
                Some(CallbackResponse::Target(Target::Sell))
            } else if tb == 2 {
                Some(CallbackResponse::Target(Target::Ask))
            } else if tb == 3 {
                Some(CallbackResponse::Target(Target::Recommend))
            } else {
                None
            }
        } else if tag == 3 {
            let u = match read_u64(bytes, &mut i) {
                Some(u) => u,
                None => {
                    return None;
                },
            };
            if i == bytes.len() {
                Some(CallbackResponse::User(u))
            } else {
                None
            }
        } else if tag == 4 {
            let n = match read_u8(bytes, &mut i) {
                Some(n) => n,
                None => {
                    return None;
                },
            };
            let ghost r2 = rem(bytes@, i as int);
            let mut ids: Vec<i32> = Vec::new();
            let mut k: usize = 0;
            while k < n as usize
                invariant
                    k <= n as usize,
                    i <= bytes@.len(),
                    p_i32s(r2, n as nat) == (match p_i32s(rem(bytes@, i as int), (n - k) as nat) {
                        Some((vs, rest)) => Some((ids@ + vs, rest)),
                        None => None::<(Seq<i32>, Seq<u8>)>,
                    }),
                decreases n as usize - k,
            {
                let ghost pre = rem(bytes@, i as int);
                let v = match read_i32(bytes, &mut i) {
                    Some(v) => v,
                    None => {
                        proof {
                            assert((n - k) as nat != 0);
                            assert(p_i32s(pre, (n - k) as nat) is None);
                            assert(p_i32s(r2, n as nat) is None);
                        }
                        return None;
                    },
                };
                ids.push(v);
                proof {
                    assert forall|vs: Seq<i32>, rest: Seq<u8>|
                        p_i32s(rem(bytes@, i as int), (n - k - 1) as nat) == Some(
                            (vs, rest),
                        ) implies (ids@ + vs =~= ids@.drop_last() + (seq![v] + vs)) by {}
                    if p_i32s(rem(bytes@, i as int), (n - k - 1) as nat) is Some {
                        let (vs, rest) = p_i32s(rem(bytes@, i as int), (n - k - 1) as nat)->0;
                        assert(ids@.drop_last() + (seq![v] + vs) =~= ids@ + vs);
                    }
                }
                k += 1;
            }
            proof {
                assert(p_i32s(rem(bytes@, i as int), 0) == Some(
                    (Seq::<i32>::empty(), rem(bytes@, i as int)),
                ));
                assert(ids@ + Seq::<i32>::empty() =~= ids@);
            }
            if i == bytes.len() {
                Some(CallbackResponse::Remove(ids))
            } else {
                None
            }
        } else if tag == 5 {
            let u = match read_u64(bytes, &mut i) {
                Some(u) => u,
                None => {
                    return None;
                },
            };
            if i == bytes.len() {
                Some(CallbackResponse::AdminToRemove(u))
            } else {
                None
            }
        } else if tag == 6 {
            let s = match read_str(bytes, &mut i) {
                Some(s) => s,
                None => {
                    return None;
                },
            };
            let m = match read_i32(bytes, &mut i) {
                Some(m) => m,
                None => {
                    return None;
                },
            };
            if i == bytes.len() {
                Some(CallbackResponse::AddTag(s, m))
            } else {
                None
            }
        } else if tag == 7 {
            let s = match read_str(bytes, &mut i) {
                Some(s) => s,
                None => {
                    return None;
                },
            };
            let m = match read_i32(bytes, &mut i) {
                Some(m) => m,
                None => {
                    return None;
                },
            };
            if i == bytes.len() {
                Some(CallbackResponse::RemoveTag(s, m))
            } else {
                None
            }
        } else if tag == 8 {
            let u = match read_u64(bytes, &mut i) {
                Some(u) => u,
                None => {
                    return None;
                },
            };
            let c = match read_i64(bytes, &mut i) {
                Some(c) => c,
                None => {
                    return None;
                },
            };
            if i == bytes.len() {
                Some(CallbackResponse::ApproveSubscribe(u, c))
            } else {
                None
            }
        } else if tag == 9 {
            let u = match read_u64(bytes, &mut i) {
                Some(u) => u,
                None => {
                    return None;
                },
            };
            if i == bytes.len() {
                Some(CallbackResponse::DeclineSubscribe(u))
            } else {
                None
            }
        } else if tag == 10 {
            let u = match read_u64(bytes, &mut i) {
                Some(u) => u,
                None => {
                    return None;
                },
            };
            if i == bytes.len() {
                Some(CallbackResponse::BanSubscribe(u))
            } else {
                None
            }
        } else {
            None
        }
    }
}

// ---------------------------------------------------------------------
// The printable packing, through the outside encoder.
// ---------------------------------------------------------------------

/// The printable form the outside base91 encoder gives a byte string.
pub uninterp spec fn b91_str_of(b: Seq<u8>) -> Seq<char>;

/// The byte string the outside base91 decoder reads out of characters.
pub uninterp spec fn b91_bytes_of(s: Seq<char>) -> Seq<u8>;

/// Relies on base91::slice_encode: the printable encoding of the bytes,
/// ASCII only, and restored exactly by base91::slice_decode (the crate's
/// own round-trip tests show the inverse).
#[verifier::external_body]
fn b91_encode(data: &Vec<u8>) -> (r: String)
    ensures
        r@ == b91_str_of(data@),
        b91_bytes_of(r@) == data@,
        data@.len() == 0 ==> r@.len() == 0,
{
    let encoded = base91::slice_encode(data.as_slice());
    String::from_utf8(encoded).unwrap_or_default()
}

/// Relies on base91::slice_decode: reads the bytes back out of the
/// printable form, skipping characters outside the alphabet.
#[verifier::external_body]
fn b91_decode(s: &str) -> (r: Vec<u8>)
    ensures
        r@ == b91_bytes_of(s@),
{
    base91::slice_decode(s.as_bytes())
}

impl CallbackResponse {
    /// The printable payload for an inline button, or nothing when the
    /// callback would not fit the platform's ceiling.
    pub fn to_msg_text(&self) -> (r: Option<String>)
        ensures
            match r {
                Some(s) => encodable_v(view_of(*self)) && s@ == b91_str_of(
                    spec_encode_v(view_of(*self)),
                ) && b91_bytes_of(s@) == spec_encode_v(view_of(*self)),
                None => !encodable_v(view_of(*self)),
            },
    {
        match self.to_bytes() {
            Some(b) => Some(b91_encode(&b)),
            None => None,
        }
    }

    /// The callback a button payload decodes to; anything malformed or
    /// stale is `None`, never an error.
    pub fn from_mst_text(s: &str) -> (r: Option<CallbackResponse>)
        ensures
            match r {
                Some(d) => spec_decode(b91_bytes_of(s@)) == Some(view_of(d)),
                None => spec_decode(b91_bytes_of(s@)) is None,
            },
    {
        let bytes = b91_decode(s);
        Self::from_bytes(&bytes)
    }
}

} // verus!
