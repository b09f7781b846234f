//! Wire codec for the authorization structure's payload entries: a
//! little-endian length-prefixed byte format. Encoding and decoding are
//! exact inverses, so a seed-list or Merkle-proof entry sent over the wire
//! reproduces the original byte content exactly.

use vstd::prelude::*;

use crate::payload::{ProofInfoLocal, SeedsVecLocal, MAX_SEEDS, MAX_SEED_LEN, PROOF_HASH_LEN};

verus! {

// ------------------------------------------------------------------ u32

/// A 32-bit count or length, little endian.
pub open spec fn enc_u32(n: u32) -> Seq<u8> {
    seq![
        (n & 0xff) as u8,
        ((n >> 8) & 0xff) as u8,
        ((n >> 16) & 0xff) as u8,
        ((n >> 24) & 0xff) as u8,
    ]
}

/// The value of four little-endian bytes.
pub open spec fn dec_u32(b: Seq<u8>) -> u32
    recommends
        b.len() == 4,
{
    (b[0] as u32) | ((b[1] as u32) << 8) | ((b[2] as u32) << 16) | ((b[3] as u32) << 24)
}

/// Law: a 32-bit value round-trips through its little-endian bytes.
pub proof fn lemma_u32_round_trip(n: u32)
    ensures
        dec_u32(enc_u32(n)) == n,
{
    assert((((n & 0xff) as u8) as u32) | (((((n >> 8) & 0xff) as u8) as u32) << 8) | (((((n
        >> 16) & 0xff) as u8) as u32) << 16) | (((((n >> 24) & 0xff) as u8) as u32) << 24)
        == n) by (bit_vector);
}

/// Emits the little-endian bytes of a 32-bit value.
pub fn encode_u32(n: u32) -> (r: Vec<u8>)
    ensures
        r@ == enc_u32(n),
{
    proof {
        assert((n & 0xff) < 256 && ((n >> 8) & 0xff) < 256 && ((n >> 16) & 0xff) < 256 && ((n
            >> 24) & 0xff) < 256) by (bit_vector);
    }
    let mut r: Vec<u8> = Vec::new();
    r.push((n & 0xff) as u8);
    r.push(((n >> 8) & 0xff) as u8);
    r.push(((n >> 16) & 0xff) as u8);
    r.push(((n >> 24) & 0xff) as u8);
    proof {
        assert(r@ =~= enc_u32(n));
    }
    r
}

/// Reads a 32-bit little-endian value at `pos`.
fn read_u32(b: &Vec<u8>, pos: usize) -> (r: Option<(u32, usize)>)
    requires
        pos <= b@.len(),
    ensures
        match r {
            Some(pair) => pos + 4 <= b@.len() && pair.1 == pos + 4 && pair.0 == dec_u32(
                b@.subrange(pos as int, pos as int + 4),
            ),
            None => pos + 4 > b@.len(),
        },
{
    if b.len() < 4 || pos > b.len() - 4 {
        return None;
    }
    let n: u32 = (b[pos] as u32) | ((b[pos + 1] as u32) << 8) | ((b[pos + 2] as u32) << 16) | ((b[
        pos + 3] as u32) << 24);
    proof {
        let s = b@.subrange(pos as int, pos as int + 4);
        assert(s[0] == b@[pos as int] && s[1] == b@[pos as int + 1] && s[2] == b@[pos as int + 2]
            && s[3] == b@[pos as int + 3]);
    }
    Some((n, pos + 4))
}

// -------------------------------------------------------------- helpers

/// Appends a copy of `src` to `dst`.
fn append_bytes(dst: &mut Vec<u8>, src: &Vec<u8>)
    ensures
        final(dst)@ == old(dst)@ + src@,
{
    let mut i: usize = 0;
    while i < src.len()
        invariant
            0 <= i <= src@.len(),
            dst@ == old(dst)@ + src@.subrange(0, i as int),
        decreases src@.len() - i,
    {
        dst.push(src[i]);
        proof {
            assert(old(dst)@ + src@.subrange(0, i as int) + seq![src@[i as int]] =~= old(dst)@
                + src@.subrange(0, i as int + 1));
        }
        i += 1;
    }
    proof {
        assert(old(dst)@ + src@.subrange(0, src@.len() as int) =~= old(dst)@ + src@);
    }
}

/// Copies `n` bytes of `b` starting at `start`.
fn copy_range(b: &Vec<u8>, start: usize, n: usize) -> (r: Vec<u8>)
    requires
        start + n <= b@.len(),
    ensures
        r@ == b@.subrange(start as int, start as int + n as int),
{
    let blen: usize = b.len();
    let mut r: Vec<u8> = Vec::new();
    let mut i: usize = 0;
    while i < n
        invariant
            0 <= i <= n,
            start + n <= b@.len(),
            b@.len() == blen,
            r@ == b@.subrange(start as int, start as int + i as int),
        decreases n - i,
    {
        r.push(b[start + i]);
        proof {
            assert(b@.subrange(start as int, start as int + i as int) + seq![b@[start as int
                + i as int]] =~= b@.subrange(start as int, start as int + i as int + 1));
        }
        i += 1;
    }
    r
}

// ------------------------------------------------------------ seed lists

/// One seed: its length, then its bytes.
pub open spec fn enc_seed(s: Seq<u8>) -> Seq<u8> {
    enc_u32(s.len() as u32) + s
}

/// A run of seeds, in order.
pub open spec fn enc_seed_list(s: Seq<Seq<u8>>) -> Seq<u8>
    decreases s.len(),
{
    if s.len() == 0 {
        Seq::empty()
    } else {
        enc_seed(s[0]) + enc_seed_list(s.drop_first())
    }
}

/// A whole seed-list entry: the seed count, then each seed.
pub open spec fn enc_seeds(s: Seq<Seq<u8>>) -> Seq<u8> {
    enc_u32(s.len() as u32) + enc_seed_list(s)
}

/// Reads one seed off the front of `b`: a length at most `MAX_SEED_LEN`,
/// then that many bytes; yields the seed and the remainder.
pub open spec fn dec_seed(b: Seq<u8>) -> Option<(Seq<u8>, Seq<u8>)> {
    if b.len() < 4 {
        None
    } else {
        let n = dec_u32(b.take(4)) as int;
        if n > MAX_SEED_LEN || b.len() - 4 < n {
            None
        } else {
            Some((b.subrange(4, 4 + n), b.skip(4 + n)))
        }
    }
}

/// Reads `count` seeds off the front of `b`.
pub open spec fn dec_seed_list(b: Seq<u8>, count: nat) -> Option<(Seq<Seq<u8>>, Seq<u8>)>
    decreases count,
{
    if count == 0 {
        Some((Seq::empty(), b))
    } else {
        match dec_seed(b) {
            Some(pair) => match dec_seed_list(pair.1, (count - 1) as nat) {
                Some(rest) => Some((seq![pair.0] + rest.0, rest.1)),
                None => None,
            },
            None => None,
        }
    }
}

/// Decodes a whole seed-list entry; the input must be consumed exactly.
pub open spec fn dec_seeds(b: Seq<u8>) -> Option<Seq<Seq<u8>>> {
    if b.len() < 4 {
        None
    } else {
        let count = dec_u32(b.take(4));
        if count > MAX_SEEDS as u32 {
            None
        } else {
            match dec_seed_list(b.skip(4), count as nat) {
                Some(pair) => if pair.1.len() == 0 {
                    Some(pair.0)
                } else {
                    None
                },
                None => None,
            }
        }
    }
}

proof fn lemma_seed_round_trip(s: Seq<u8>, tail: Seq<u8>)
    requires
        s.len() <= MAX_SEED_LEN,
    ensures
        dec_seed(enc_seed(s) + tail) == Some((s, tail)),
{
    let b = enc_seed(s) + tail;
    lemma_u32_round_trip(s.len() as u32);
    assert(b.take(4) =~= enc_u32(s.len() as u32));
    let n = s.len() as int;
    assert(b.subrange(4, 4 + n) =~= s);
    assert(b.skip(4 + n) =~= tail);
}

#[verifier::rlimit(100)]
proof fn lemma_seed_list_round_trip(s: Seq<Seq<u8>>, tail: Seq<u8>)
    requires
        forall|i: int| 0 <= i < s.len() ==> (#[trigger] s[i]).len() <= MAX_SEED_LEN,
    ensures
        dec_seed_list(enc_seed_list(s) + tail, s.len()) == Some((s, tail)),
    decreases s.len(),
{
    if s.len() == 0 {
        assert(enc_seed_list(s) + tail =~= tail);
        assert(s =~= Seq::<Seq<u8>>::empty());
    } else {
        let rest_enc = enc_seed_list(s.drop_first()) + tail;
        assert(enc_seed_list(s) + tail =~= enc_seed(s[0]) + rest_enc);
        lemma_seed_round_trip(s[0], rest_enc);
        assert(dec_seed(enc_seed_list(s) + tail) == Some((s[0], rest_enc)));
        assert(forall|i: int|
            0 <= i < s.drop_first().len() ==> (#[trigger] s.drop_first()[i]).len()
                <= MAX_SEED_LEN);
        lemma_seed_list_round_trip(s.drop_first(), tail);
        assert(dec_seed_list(rest_enc, (s.len() - 1) as nat) == Some((s.drop_first(), tail)));
        assert(seq![s[0]] + s.drop_first() =~= s);
        assert(dec_seed_list(enc_seed_list(s) + tail, s.len()) == Some((s, tail)));
    }
}

/// Law: a seed-list payload entry round-trips. Encoding a well-formed
/// seed list and decoding the result reproduces the original byte content
/// exactly.
pub proof fn lemma_seeds_codec_round_trip(s: Seq<Seq<u8>>)
    requires
        s.len() <= MAX_SEEDS,
        forall|i: int| 0 <= i < s.len() ==> (#[trigger] s[i]).len() <= MAX_SEED_LEN,
    ensures
        dec_seeds(enc_seeds(s)) == Some(s),
{
    let b = enc_seeds(s);
    lemma_u32_round_trip(s.len() as u32);
    assert(b.take(4) =~= enc_u32(s.len() as u32));
    assert(b.skip(4) =~= enc_seed_list(s) + Seq::<u8>::empty());
    lemma_seed_list_round_trip(s, Seq::<u8>::empty());
}

proof fn lemma_enc_seed_list_push(s: Seq<Seq<u8>>, x: Seq<u8>)
    ensures
        enc_seed_list(s.push(x)) == enc_seed_list(s) + enc_seed(x),
    decreases s.len(),
{
    if s.len() == 0 {
        assert(s.push(x)[0] == x);
        assert(s.push(x).drop_first() =~= Seq::<Seq<u8>>::empty());
        assert(enc_seed_list(Seq::<Seq<u8>>::empty()) == Seq::<u8>::empty());
        assert(enc_seed_list(s.push(x)) == enc_seed(x) + Seq::<u8>::empty());
        assert(enc_seed(x) + Seq::<u8>::empty() =~= enc_seed(x));
        assert(Seq::<u8>::empty() + enc_seed(x) =~= enc_seed(x));
    } else {
        lemma_enc_seed_list_push(s.drop_first(), x);
        assert(s.push(x)[0] == s[0]);
        assert(s.push(x).drop_first() =~= s.drop_first().push(x));
        assert(enc_seed(s[0]) + (enc_seed_list(s.drop_first()) + enc_seed(x)) =~= (enc_seed(s[0])
            + enc_seed_list(s.drop_first())) + enc_seed(x));
    }
}

/// Encodes a well-formed seed-list entry.
pub fn encode_seeds(s: &SeedsVecLocal) -> (r: Vec<u8>)
    requires
        s.wf(),
    ensures
        r@ == enc_seeds(s.seeds.deep_view()),
{
    let mut r = encode_u32(s.seeds.len() as u32);
    let mut i: usize = 0;
    while i < s.seeds.len()
        invariant
            0 <= i <= s.seeds@.len(),
            s.wf(),
            r@ == enc_u32(s.seeds@.len() as u32) + enc_seed_list(s.seeds.deep_view().take(i as int)),
        decreases s.seeds@.len() - i,
    {
        let mut e = encode_u32(s.seeds[i].len() as u32);
        append_bytes(&mut e, &s.seeds[i]);
        append_bytes(&mut r, &e);
        proof {
            let sv = s.seeds.deep_view();
            assert(e@ =~= enc_seed(sv[i as int]));
            lemma_enc_seed_list_push(sv.take(i as int), sv[i as int]);
            assert(sv.take(i as int).push(sv[i as int]) =~= sv.take(i as int + 1));
        }
        i += 1;
    }
    proof {
        assert(s.seeds.deep_view().take(s.seeds@.len() as int) =~= s.seeds.deep_view());
    }
    r
}

/// Reads one seed at `pos`.
fn read_seed(b: &Vec<u8>, pos: usize) -> (r: Option<(Vec<u8>, usize)>)
    requires
        pos <= b@.len(),
    ensures
        match r {
            Some(pair) => pos <= pair.1 <= b@.len() && pair.0@.len() <= MAX_SEED_LEN && dec_seed(
                b@.skip(pos as int),
            ) == Some((pair.0@, b@.skip(pair.1 as int))),
            None => dec_seed(b@.skip(pos as int)) is None,
        },
{
    let c = Ghost(b@.skip(pos as int));
    match read_u32(b, pos) {
        None => {
            proof {
                assert(c@.len() < 4);
            }
            None
        },
        Some((n, p2)) => {
            proof {
                assert(c@.take(4) =~= b@.subrange(pos as int, pos as int + 4));
            }
            if n > MAX_SEED_LEN as u32 {
                return None;
            }
            let n: usize = n as usize;
            if b.len() - p2 < n {
                proof {
                    assert(c@.len() - 4 < n);
                }
                return None;
            }
            let x = copy_range(b, p2, n);
            proof {
                assert(c@.subrange(4, 4 + n as int) =~= b@.subrange(
                    p2 as int,
                    p2 as int + n as int,
                ));
                assert(c@.skip(4 + n as int) =~= b@.skip(p2 as int + n as int));
            }
            Some((x, p2 + n))
        },
    }
}

/// Reads `count` seeds starting at `pos`.
fn decode_seed_list(b: &Vec<u8>, pos: usize, count: u32) -> (r: Option<(Vec<Vec<u8>>, usize)>)
    requires
        pos <= b@.len(),
    ensures
        match r {
            Some(pair) => pos <= pair.1 <= b@.len() && pair.0@.len() == count && (forall|j: int|
                0 <= j < pair.0@.len() ==> (#[trigger] pair.0@[j])@.len() <= MAX_SEED_LEN)
                && dec_seed_list(b@.skip(pos as int), count as nat) == Some(
                (pair.0.deep_view(), b@.skip(pair.1 as int)),
            ),
            None => dec_seed_list(b@.skip(pos as int), count as nat) is None,
        },
    decreases count,
{
    if count == 0 {
        let empty: Vec<Vec<u8>> = Vec::new();
        proof {
            assert(empty.deep_view() =~= Seq::<Seq<u8>>::empty());
        }
        Some((empty, pos))
    } else {
        match read_seed(b, pos) {
            None => None,
            Some((x, p2)) => {
                match decode_seed_list(b, p2, count - 1) {
                    None => None,
                    Some((mut xs, end)) => {
                        let ghost prev = xs.deep_view();
                        let ghost prev_vs = xs@;
                        xs.insert(0, x);
                        proof {
                            assert(x.deep_view() =~= x@);
                            assert forall|j: int| 0 <= j < xs.deep_view().len() implies #[trigger] xs.deep_view()[j] == (seq![x@] + prev)[j] by {
                                if j == 0 {
                                    assert(xs@[0] == x);
                                } else {
                                    assert(xs@[j] == prev_vs[j - 1]);
                                }
                            }
                            assert(xs.deep_view() =~= seq![x@] + prev);
                            assert forall|j: int| 0 <= j < xs@.len() implies (#[trigger] xs@[j])@.len() <= MAX_SEED_LEN by {
                                if j == 0 {
                                    assert(xs@[0] == x);
                                } else {
                                    assert(xs@[j] == prev_vs[j - 1]);
                                }
                            }
                        }
                        Some((xs, end))
                    },
                }
            },
        }
    }
}

/// Decodes a whole seed-list entry; yields a well-formed value exactly
/// when the bytes are a complete encoding.
pub fn decode_seeds(b: &Vec<u8>) -> (r: Option<SeedsVecLocal>)
    ensures
        match r {
            Some(v) => v.wf() && dec_seeds(b@) == Some(v.seeds.deep_view()),
            None => dec_seeds(b@) is None,
        },
{
    match read_u32(b, 0) {
        None => None,
        Some((count, p)) => {
            proof {
                assert(b@.take(4) =~= b@.subrange(0, 4));
            }
            if count > MAX_SEEDS as u32 {
                return None;
            }
            match decode_seed_list(b, p, count) {
                None => {
                    proof {
                        assert(b@.skip(p as int) =~= b@.skip(4));
                    }
                    None
                },
                Some((xs, end)) => {
                    proof {
                        assert(b@.skip(p as int) =~= b@.skip(4));
                    }
                    if end == b.len() {
                        proof {
                            assert(b@.skip(end as int) =~= Seq::<u8>::empty());
                        }
                        Some(SeedsVecLocal { seeds: xs })
                    } else {
                        proof {
                            assert(b@.skip(end as int).len() != 0);
                        }
                        None
                    }
                },
            }
        },
    }
}

// ------------------------------------------------------------ proofs

/// A run of 32-byte hashes, in order, with no per-hash length.
pub open spec fn enc_hash_list(p: Seq<Seq<u8>>) -> Seq<u8>
    decreases p.len(),
{
    if p.len() == 0 {
        Seq::empty()
    } else {
        p[0] + enc_hash_list(p.drop_first())
    }
}

/// A whole Merkle-proof entry: the hash count, then each 32-byte hash.
pub open spec fn enc_proof(p: Seq<Seq<u8>>) -> Seq<u8> {
    enc_u32(p.len() as u32) + enc_hash_list(p)
}

/// Reads `count` hashes of 32 bytes each off the front of `b`.
pub open spec fn dec_hash_list(b: Seq<u8>, count: nat) -> Option<(Seq<Seq<u8>>, Seq<u8>)>
    decreases count,
{
    if count == 0 {
        Some((Seq::empty(), b))
    } else if b.len() < PROOF_HASH_LEN {
        None
    } else {
        match dec_hash_list(b.skip(PROOF_HASH_LEN as int), (count - 1) as nat) {
            Some(rest) => Some((seq![b.take(PROOF_HASH_LEN as int)] + rest.0, rest.1)),
            None => None,
        }
    }
}

/// Decodes a whole Merkle-proof entry; the input must be consumed exactly.
pub open spec fn dec_proof(b: Seq<u8>) -> Option<Seq<Seq<u8>>> {
    if b.len() < 4 {
        None
    } else {
        let count = dec_u32(b.take(4));
        match dec_hash_list(b.skip(4), count as nat) {
            Some(pair) => if pair.1.len() == 0 {
                Some(pair.0)
            } else {
                None
            },
            None => None,
        }
    }
}

proof fn lemma_hash_list_round_trip(p: Seq<Seq<u8>>, tail: Seq<u8>)
    requires
        forall|i: int| 0 <= i < p.len() ==> (#[trigger] p[i]).len() == PROOF_HASH_LEN,
    ensures
        dec_hash_list(enc_hash_list(p) + tail, p.len()) == Some((p, tail)),
    decreases p.len(),
{
    if p.len() == 0 {
        assert(enc_hash_list(p) + tail =~= tail);
        assert(p =~= Seq::<Seq<u8>>::empty());
    } else {
        let b = enc_hash_list(p) + tail;
        let rest_enc = enc_hash_list(p.drop_first()) + tail;
        assert(b =~= p[0] + rest_enc);
        assert(b.len() >= PROOF_HASH_LEN);
        assert(b.take(PROOF_HASH_LEN as int) =~= p[0]);
        assert(b.skip(PROOF_HASH_LEN as int) =~= rest_enc);
        assert(forall|i: int|
            0 <= i < p.drop_first().len() ==> (#[trigger] p.drop_first()[i]).len()
                == PROOF_HASH_LEN);
        lemma_hash_list_round_trip(p.drop_first(), tail);
        assert(seq![p[0]] + p.drop_first() =~= p);
    }
}

/// Law: a Merkle-proof payload entry round-trips. Encoding a well-formed
/// proof and decoding the result reproduces the original byte content
/// exactly.
pub proof fn lemma_proof_codec_round_trip(p: Seq<Seq<u8>>)
    requires
        p.len() <= 0xffffffff,
        forall|i: int| 0 <= i < p.len() ==> (#[trigger] p[i]).len() == PROOF_HASH_LEN,
    ensures
        dec_proof(enc_proof(p)) == Some(p),
{
    let b = enc_proof(p);
    lemma_u32_round_trip(p.len() as u32);
    assert(b.take(4) =~= enc_u32(p.len() as u32));
    assert(b.skip(4) =~= enc_hash_list(p) + Seq::<u8>::empty());
    lemma_hash_list_round_trip(p, Seq::<u8>::empty());
}

proof fn lemma_enc_hash_list_push(p: Seq<Seq<u8>>, x: Seq<u8>)
    ensures
        enc_hash_list(p.push(x)) == enc_hash_list(p) + x,
    decreases p.len(),
{
    if p.len() == 0 {
        assert(p.push(x)[0] == x);
        assert(p.push(x).drop_first() =~= Seq::<Seq<u8>>::empty());
        assert(enc_hash_list(Seq::<Seq<u8>>::empty()) == Seq::<u8>::empty());
        assert(enc_hash_list(p.push(x)) == x + Seq::<u8>::empty());
        assert(x + Seq::<u8>::empty() =~= x);
        assert(Seq::<u8>::empty() + x =~= x);
    } else {
        lemma_enc_hash_list_push(p.drop_first(), x);
        assert(p.push(x)[0] == p[0]);
        assert(p.push(x).drop_first() =~= p.drop_first().push(x));
        assert(p[0] + (enc_hash_list(p.drop_first()) + x) =~= (p[0] + enc_hash_list(
            p.drop_first(),
        )) + x);
    }
}

/// Encodes a well-formed Merkle-proof entry.
pub fn encode_proof(p: &ProofInfoLocal) -> (r: Vec<u8>)
    requires
        p.wf(),
    ensures
        r@ == enc_proof(p.proof.deep_view()),
{
    let mut r = encode_u32(p.proof.len() as u32);
    let mut i: usize = 0;
    while i < p.proof.len()
        invariant
            0 <= i <= p.proof@.len(),
            p.wf(),
            r@ == enc_u32(p.proof@.len() as u32) + enc_hash_list(
                p.proof.deep_view().take(i as int),
            ),
        decreases p.proof@.len() - i,
    {
        append_bytes(&mut r, &p.proof[i]);
        proof {
            let pv = p.proof.deep_view();
            lemma_enc_hash_list_push(pv.take(i as int), pv[i as int]);
            assert(pv.take(i as int).push(pv[i as int]) =~= pv.take(i as int + 1));
        }
        i += 1;
    }
    proof {
        assert(p.proof.deep_view().take(p.proof@.len() as int) =~= p.proof.deep_view());
    }
    r
}

/// Reads `count` hashes starting at `pos`.
fn decode_hash_list(b: &Vec<u8>, pos: usize, count: u32) -> (r: Option<(Vec<Vec<u8>>, usize)>)
    requires
        pos <= b@.len(),
    ensures
        match r {
            Some(pair) => pos <= pair.1 <= b@.len() && pair.0@.len() == count && (forall|j: int|
                0 <= j < pair.0@.len() ==> (#[trigger] pair.0@[j])@.len() == PROOF_HASH_LEN)
                && dec_hash_list(b@.skip(pos as int), count as nat) == Some(
                (pair.0.deep_view(), b@.skip(pair.1 as int)),
            ),
            None => dec_hash_list(b@.skip(pos as int), count as nat) is None,
        },
    decreases count,
{
    if count == 0 {
        let empty: Vec<Vec<u8>> = Vec::new();
        proof {
            assert(empty.deep_view() =~= Seq::<Seq<u8>>::empty());
        }
        Some((empty, pos))
    } else if b.len() - pos < PROOF_HASH_LEN {
        proof {
            assert(b@.skip(pos as int).len() < PROOF_HASH_LEN);
        }
        None
    } else {
        let x = copy_range(b, pos, PROOF_HASH_LEN);
        proof {
            assert(b@.skip(pos as int).take(PROOF_HASH_LEN as int) =~= b@.subrange(
                pos as int,
                pos as int + PROOF_HASH_LEN as int,
            ));
            assert(b@.skip(pos as int).skip(PROOF_HASH_LEN as int) =~= b@.skip(
                pos as int + PROOF_HASH_LEN as int,
            ));
        }
        match decode_hash_list(b, pos + PROOF_HASH_LEN, count - 1) {
            None => None,
            Some((mut xs, end)) => {
                let ghost prev = xs.deep_view();
                let ghost prev_vs = xs@;
                xs.insert(0, x);
                proof {
                    assert(x.deep_view() =~= x@);
                    assert forall|j: int| 0 <= j < xs.deep_view().len() implies #[trigger] xs.deep_view()[j] == (seq![x@] + prev)[j] by {
                        if j == 0 {
                            assert(xs@[0] == x);
                        } else {
                            assert(xs@[j] == prev_vs[j - 1]);
                        }
                    }
                    assert(xs.deep_view() =~= seq![x@] + prev);
                    assert forall|j: int| 0 <= j < xs@.len() implies (#[trigger] xs@[j])@.len() == PROOF_HASH_LEN by {
                        if j == 0 {
                            assert(xs@[0] == x);
                        } else {
                            assert(xs@[j] == prev_vs[j - 1]);
                        }
                    }
                }
                Some((xs, end))
            },
        }
    }
}

/// Decodes a whole Merkle-proof entry; yields a well-formed value exactly
/// when the bytes are a complete encoding.
pub fn decode_proof(b: &Vec<u8>) -> (r: Option<ProofInfoLocal>)
    ensures
        match r {
            Some(v) => v.wf() && dec_proof(b@) == Some(v.proof.deep_view()),
            None => dec_proof(b@) is None,
        },
{
    match read_u32(b, 0) {
        None => None,
        Some((count, p)) => {
            proof {
                assert(b@.take(4) =~= b@.subrange(0, 4));
            }
            match decode_hash_list(b, p, count) {
                None => {
                    proof {
                        assert(b@.skip(p as int) =~= b@.skip(4));
                    }
                    None
                },
                Some((xs, end)) => {
                    proof {
                        assert(b@.skip(p as int) =~= b@.skip(4));
                    }
                    if end == b.len() {
                        proof {
                            assert(b@.skip(end as int) =~= Seq::<u8>::empty());
                        }
                        Some(ProofInfoLocal { proof: xs })
                    } else {
                        proof {
                            assert(b@.skip(end as int).len() != 0);
                        }
                        None
                    }
                },
            }
        },
    }
}

} // verus!
