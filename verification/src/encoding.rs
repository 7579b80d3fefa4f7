//! Standard base64 (RFC 4648, standard alphabet, `=` padding): what encoding makes of bytes, how
//! text decodes back, and that decoding undoes encoding.
use vstd::prelude::*;

verus! {

/// The character of the sextet `v` in the standard alphabet `A-Z a-z 0-9 + /`.
pub open spec fn b64_char(v: nat) -> char {
    if v < 26 {
        (v + 65) as char
    } else if v < 52 {
        (v + 71) as char
    } else if v < 62 {
        (v - 4) as char
    } else if v == 62 {
        '+'
    } else {
        '/'
    }
}

/// The sextet of a character of the standard alphabet.
pub open spec fn b64_value(c: char) -> nat {
    let n = c as int;
    if 65 <= n <= 90 {
        (n - 65) as nat
    } else if 97 <= n <= 122 {
        (n - 71) as nat
    } else if 48 <= n <= 57 {
        (n + 4) as nat
    } else if c == '+' {
        62
    } else {
        63
    }
}

/// The standard base64 text of `s`: four characters for each three bytes, the last group
/// padded with `=`.
pub open spec fn b64_encode(s: Seq<u8>) -> Seq<char>
    decreases s.len(),
{
    if s.len() == 0 {
        Seq::empty()
    } else if s.len() == 1 {
        let a = s[0] as nat;
        seq![b64_char(a / 4), b64_char((a % 4) * 16), '=', '=']
    } else if s.len() == 2 {
        let a = s[0] as nat;
        let b = s[1] as nat;
        seq![b64_char(a / 4), b64_char((a % 4) * 16 + b / 16), b64_char((b % 16) * 4), '=']
    } else {
        let a = s[0] as nat;
        let b = s[1] as nat;
        let c = s[2] as nat;
        seq![
            b64_char(a / 4),
            b64_char((a % 4) * 16 + b / 16),
            b64_char((b % 16) * 4 + c / 64),
            b64_char(c % 64),
        ] + b64_encode(s.skip(3))
    }
}

/// The bytes that the base64 text `t` decodes to, four characters at a time; `=` ends the text.
pub open spec fn b64_decode(t: Seq<char>) -> Seq<u8>
    decreases t.len(),
{
    if t.len() < 4 {
        Seq::empty()
    } else {
        let v0 = b64_value(t[0]);
        let v1 = b64_value(t[1]);
        let v2 = b64_value(t[2]);
        let v3 = b64_value(t[3]);
        if t[2] == '=' {
            seq![(v0 * 4 + v1 / 16) as u8]
        } else if t[3] == '=' {
            seq![(v0 * 4 + v1 / 16) as u8, ((v1 % 16) * 16 + v2 / 4) as u8]
        } else {
            seq![
                (v0 * 4 + v1 / 16) as u8,
                ((v1 % 16) * 16 + v2 / 4) as u8,
                ((v2 % 4) * 64 + v3) as u8,
            ] + b64_decode(t.skip(4))
        }
    }
}

/// Each sextet reads back from its character, which is not the padding.
pub proof fn lemma_b64_char(v: nat)
    requires
        v < 64,
    ensures
        b64_value(b64_char(v)) == v,
        b64_char(v) != '=',
{
}

/// The three bytes of one group come back from its four sextets.
proof fn lemma_group(a: nat, b: nat, c: nat)
    requires
        a < 256,
        b < 256,
        c < 256,
    ensures
        a / 4 < 64,
        (a % 4) * 16 + b / 16 < 64,
        (b % 16) * 4 + c / 64 < 64,
        c % 64 < 64,
        (a / 4) * 4 + ((a % 4) * 16 + b / 16) / 16 == a,
        (((a % 4) * 16 + b / 16) % 16) * 16 + ((b % 16) * 4 + c / 64) / 4 == b,
        (((b % 16) * 4 + c / 64) % 4) * 64 + c % 64 == c,
{
    assert(a == (a / 4) * 4 + a % 4);
    assert(b == (b / 16) * 16 + b % 16);
    assert(c == (c / 64) * 64 + c % 64);
    assert(((a % 4) * 16 + b / 16) / 16 == a % 4);
    assert(((a % 4) * 16 + b / 16) % 16 == b / 16);
    assert(((b % 16) * 4 + c / 64) / 4 == b % 16);
    assert(((b % 16) * 4 + c / 64) % 4 == c / 64);
}

/// Decoding the base64 text of bytes gives those bytes back.
pub proof fn lemma_b64_roundtrip(s: Seq<u8>)
    ensures
        b64_decode(b64_encode(s)) == s,
    decreases s.len(),
{
    if s.len() == 0 {
    } else if s.len() == 1 {
        let a = s[0] as nat;
        lemma_group(a, 0, 0);
        lemma_b64_char(a / 4);
        lemma_b64_char((a % 4) * 16);
        assert(b64_decode(b64_encode(s)) =~= s);
    } else if s.len() == 2 {
        let a = s[0] as nat;
        let b = s[1] as nat;
        lemma_group(a, b, 0);
        lemma_b64_char(a / 4);
        lemma_b64_char((a % 4) * 16 + b / 16);
        lemma_b64_char((b % 16) * 4);
        assert(((b % 16) * 4 + 0nat / 64) == (b % 16) * 4);
        assert(b64_decode(b64_encode(s)) =~= s);
    } else {
        let a = s[0] as nat;
        let b = s[1] as nat;
        let c = s[2] as nat;
        lemma_group(a, b, c);
        lemma_b64_char(a / 4);
        lemma_b64_char((a % 4) * 16 + b / 16);
        lemma_b64_char((b % 16) * 4 + c / 64);
        lemma_b64_char(c % 64);
        lemma_b64_roundtrip(s.skip(3));
        let e = b64_encode(s);
        let head = seq![
            b64_char(a / 4),
            b64_char((a % 4) * 16 + b / 16),
            b64_char((b % 16) * 4 + c / 64),
            b64_char(c % 64),
        ];
        assert(e.skip(4) =~= b64_encode(s.skip(3)));
        assert(e[2] == head[2] && e[3] == head[3]);
        assert(b64_decode(e) =~= seq![s[0], s[1], s[2]] + s.skip(3));
        assert(seq![s[0], s[1], s[2]] + s.skip(3) =~= s);
    }
}

} // verus!
