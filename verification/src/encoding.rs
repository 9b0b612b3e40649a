//! Standard padded base64 (RFC 4648, alphabet `A-Z a-z 0-9 + /`, `=` padding) as a
//! specification, with its decoding and the proof that decoding gives back the bytes.

use vstd::prelude::*;

verus! {

/// The base64 character for a 6-bit value `0 <= i < 64`.
pub open spec fn b64_char(i: int) -> char {
    if i < 26 {
        (65 + i) as char
    } else if i < 52 {
        (97 + (i - 26)) as char
    } else if i < 62 {
        (48 + (i - 52)) as char
    } else if i == 62 {
        '+'
    } else {
        '/'
    }
}

/// The 6-bit value of a base64 character.
pub open spec fn b64_index(c: char) -> int {
    let v = c as int;
    if 65 <= v <= 90 {
        v - 65
    } else if 97 <= v <= 122 {
        v - 71
    } else if 48 <= v <= 57 {
        v + 4
    } else if c == '+' {
        62
    } else {
        63
    }
}

/// Standard padded base64 of `b`: each group of three bytes gives four characters;
/// a final single byte gives two characters and `==`, a final pair three and `=`.
pub open spec fn base64_encode(b: Seq<u8>) -> Seq<char>
    decreases b.len(),
{
    if b.len() == 0 {
        Seq::empty()
    } else if b.len() == 1 {
        let x = b[0] as int;
        seq![b64_char(x / 4), b64_char((x % 4) * 16), '=', '=']
    } else if b.len() == 2 {
        let n = b[0] as int * 256 + b[1] as int;
        seq![b64_char(n / 1024), b64_char((n / 16) % 64), b64_char((n % 16) * 4), '=']
    } else {
        let n = b[0] as int * 65536 + b[1] as int * 256 + b[2] as int;
        seq![
            b64_char(n / 262144),
            b64_char((n / 4096) % 64),
            b64_char((n / 64) % 64),
            b64_char(n % 64),
        ] + base64_encode(b.subrange(3, b.len() as int))
    }
}

/// Decoding of padded base64, four characters at a time.
pub open spec fn base64_decode(s: Seq<char>) -> Seq<u8>
    decreases s.len(),
{
    if s.len() < 4 {
        Seq::empty()
    } else {
        let i0 = b64_index(s[0]);
        let i1 = b64_index(s[1]);
        let i2 = b64_index(s[2]);
        let i3 = b64_index(s[3]);
        let group = if s[2] == '=' {
            seq![(i0 * 4 + i1 / 16) as u8]
        } else if s[3] == '=' {
            let n = i0 * 4096 + i1 * 64 + i2;
            seq![(n / 1024) as u8, ((n / 4) % 256) as u8]
        } else {
            let n = i0 * 262144 + i1 * 4096 + i2 * 64 + i3;
            seq![(n / 65536) as u8, ((n / 256) % 256) as u8, (n % 256) as u8]
        };
        group + base64_decode(s.subrange(4, s.len() as int))
    }
}

proof fn lemma_char_index(i: int)
    requires
        0 <= i < 64,
    ensures
        b64_index(b64_char(i)) == i,
        b64_char(i) != '=',
{
}

proof fn lemma_single(x: int)
    requires
        0 <= x < 256,
    ensures
        0 <= x / 4 < 64,
        0 <= (x % 4) * 16 < 64,
        (x / 4) * 4 + ((x % 4) * 16) / 16 == x,
{
}

proof fn lemma_pair(n: int)
    requires
        0 <= n < 65536,
    ensures
        0 <= n / 1024 < 64,
        0 <= (n / 16) % 64 < 64,
        0 <= (n % 16) * 4 < 64,
        (n / 1024) * 4096 + ((n / 16) % 64) * 64 + (n % 16) * 4 == n * 4,
{
    assert((n / 1024) * 1024 + ((n / 16) % 64) * 16 + n % 16 == n) by (nonlinear_arith)
        requires
            0 <= n,
    {
        assert(n == (n / 16) * 16 + n % 16);
        assert(n / 16 == ((n / 16) / 64) * 64 + (n / 16) % 64);
        assert((n / 16) / 64 == n / 1024);
    }
}

proof fn lemma_triple(n: int)
    requires
        0 <= n < 16777216,
    ensures
        0 <= n / 262144 < 64,
        0 <= (n / 4096) % 64 < 64,
        0 <= (n / 64) % 64 < 64,
        0 <= n % 64 < 64,
        (n / 262144) * 262144 + ((n / 4096) % 64) * 4096 + ((n / 64) % 64) * 64 + n % 64 == n,
{
    assert((n / 262144) * 262144 + ((n / 4096) % 64) * 4096 + ((n / 64) % 64) * 64 + n % 64 == n)
        by (nonlinear_arith)
        requires
            0 <= n,
    {
        assert(n == (n / 64) * 64 + n % 64);
        assert(n / 64 == ((n / 64) / 64) * 64 + (n / 64) % 64);
        assert((n / 64) / 64 == n / 4096);
        assert(n / 4096 == ((n / 4096) / 64) * 64 + (n / 4096) % 64);
        assert((n / 4096) / 64 == n / 262144);
    }
}

/// Decoding standard padded base64 gives back the encoded bytes.
pub proof fn lemma_base64_round_trip(b: Seq<u8>)
    ensures
        base64_decode(base64_encode(b)) == b,
    decreases b.len(),
{
    let e = base64_encode(b);
    if b.len() == 0 {
    } else if b.len() == 1 {
        let x = b[0] as int;
        lemma_single(x);
        lemma_char_index(x / 4);
        lemma_char_index((x % 4) * 16);
        assert(e =~= seq![b64_char(x / 4), b64_char((x % 4) * 16), '=', '=']);
        assert(e.subrange(4, e.len() as int) =~= Seq::<char>::empty());
        assert(base64_decode(Seq::<char>::empty()) == Seq::<u8>::empty());
        assert(base64_decode(e) == seq![(b64_index(e[0]) * 4 + b64_index(e[1]) / 16) as u8]
            + base64_decode(e.subrange(4, e.len() as int)));
        assert(base64_decode(e) =~= b);
    } else if b.len() == 2 {
        let n = b[0] as int * 256 + b[1] as int;
        lemma_pair(n);
        lemma_char_index(n / 1024);
        lemma_char_index((n / 16) % 64);
        lemma_char_index((n % 16) * 4);
        let m = n * 4;
        assert(m / 1024 == b[0] as int) by (nonlinear_arith)
            requires
                m == n * 4,
                n == b[0] as int * 256 + b[1] as int,
                0 <= b[1] < 256,
                0 <= b[0] < 256,
        ;
        assert((m / 4) % 256 == b[1] as int) by (nonlinear_arith)
            requires
                m == n * 4,
                n == b[0] as int * 256 + b[1] as int,
                0 <= b[1] < 256,
                0 <= b[0] < 256,
        ;
        assert(e =~= seq![b64_char(n / 1024), b64_char((n / 16) % 64), b64_char((n % 16) * 4), '=']);
        assert(e.subrange(4, e.len() as int) =~= Seq::<char>::empty());
        assert(base64_decode(Seq::<char>::empty()) == Seq::<u8>::empty());
        let k = b64_index(e[0]) * 4096 + b64_index(e[1]) * 64 + b64_index(e[2]);
        assert(k == m);
        assert(base64_decode(e) == seq![(k / 1024) as u8, ((k / 4) % 256) as u8]
            + base64_decode(e.subrange(4, e.len() as int)));
        assert(base64_decode(e) =~= b);
    } else {
        let n = b[0] as int * 65536 + b[1] as int * 256 + b[2] as int;
        lemma_triple(n);
        lemma_char_index(n / 262144);
        lemma_char_index((n / 4096) % 64);
        lemma_char_index((n / 64) % 64);
        lemma_char_index(n % 64);
        assert(n / 65536 == b[0] as int) by (nonlinear_arith)
            requires
                n == b[0] as int * 65536 + b[1] as int * 256 + b[2] as int,
                0 <= b[0] < 256,
                0 <= b[1] < 256,
                0 <= b[2] < 256,
        ;
        assert((n / 256) % 256 == b[1] as int) by (nonlinear_arith)
            requires
                n == b[0] as int * 65536 + b[1] as int * 256 + b[2] as int,
                0 <= b[0] < 256,
                0 <= b[1] < 256,
                0 <= b[2] < 256,
        ;
        assert(n % 256 == b[2] as int) by (nonlinear_arith)
            requires
                n == b[0] as int * 65536 + b[1] as int * 256 + b[2] as int,
                0 <= b[0] < 256,
                0 <= b[1] < 256,
                0 <= b[2] < 256,
        ;
        let rest = b.subrange(3, b.len() as int);
        lemma_base64_round_trip(rest);
        assert(e.subrange(4, e.len() as int) =~= base64_encode(rest));
        assert(base64_decode(e) =~= b.subrange(0, 3) + rest);
        assert(b.subrange(0, 3) + rest =~= b);
    }
}

} // verus!
