//! The `application/x-www-form-urlencoded` request body.
//!
//! A form body is the ordered list of fields written as `key=value` units
//! joined by `&`.  Keys and values are taken as their UTF-8 bytes; a byte
//! that is an ASCII letter, a digit or one of `*`, `-`, `.`, `_` stands as
//! itself, a space becomes `+`, and every other byte becomes `%` followed
//! by its two uppercase hex digits.

use vstd::prelude::*;
use vstd::string::*;
use vstd::utf8::encode_utf8;

verus! {

/// ASCII space.
pub const B_SPACE: u8 = 32;

/// ASCII `%`.
pub const B_PERCENT: u8 = 37;

/// ASCII `&`.
pub const B_AMP: u8 = 38;

/// ASCII `*`.
pub const B_STAR: u8 = 42;

/// ASCII `+`.
pub const B_PLUS: u8 = 43;

/// ASCII `-`.
pub const B_DASH: u8 = 45;

/// ASCII `.`.
pub const B_DOT: u8 = 46;

/// ASCII `0`.
pub const B_DIGIT_0: u8 = 48;

/// ASCII `9`.
pub const B_DIGIT_9: u8 = 57;

/// ASCII `=`.
pub const B_EQ: u8 = 61;

/// ASCII `A`.
pub const B_UPPER_A: u8 = 65;

/// ASCII `Z`.
pub const B_UPPER_Z: u8 = 90;

/// ASCII `_`.
pub const B_UNDERSCORE: u8 = 95;

/// ASCII `a`.
pub const B_LOWER_A: u8 = 97;

/// ASCII `z`.
pub const B_LOWER_Z: u8 = 122;

/// Bytes that pass through the form encoding unchanged.
pub open spec fn is_form_unreserved(b: u8) -> bool {
    (B_UPPER_A <= b && b <= B_UPPER_Z) || (B_LOWER_A <= b && b <= B_LOWER_Z) || (B_DIGIT_0 <= b
        && b <= B_DIGIT_9) || b == B_STAR || b == B_DASH || b == B_DOT || b == B_UNDERSCORE
}

/// The uppercase hex digit for a value below sixteen.
pub open spec fn spec_hex_digit(n: u8) -> u8
    recommends
        n < 16,
{
    if n < 10 {
        (B_DIGIT_0 + n) as u8
    } else {
        (B_UPPER_A + (n - 10)) as u8
    }
}

/// The encoding of one byte: itself, `+` for a space, or `%` and two hex
/// digits.
pub open spec fn encode_byte(b: u8) -> Seq<u8> {
    if is_form_unreserved(b) {
        seq![b]
    } else if b == B_SPACE {
        seq![B_PLUS]
    } else {
        seq![B_PERCENT, spec_hex_digit(b / 16), spec_hex_digit(b % 16)]
    }
}

/// The encoding of a byte sequence, byte by byte.
pub open spec fn encode_bytes(s: Seq<u8>) -> Seq<u8>
    decreases s.len(),
{
    if s.len() == 0 {
        Seq::empty()
    } else {
        encode_bytes(s.drop_last()) + encode_byte(s.last())
    }
}

/// One `key=value` unit of a form body.
pub open spec fn encode_field(f: (Seq<u8>, Seq<u8>)) -> Seq<u8> {
    encode_bytes(f.0) + seq![B_EQ] + encode_bytes(f.1)
}

/// The whole form body for an ordered list of fields: `key=value` units
/// joined by `&`.
pub open spec fn form_encoded(fields: Seq<(Seq<u8>, Seq<u8>)>) -> Seq<u8>
    decreases fields.len(),
{
    if fields.len() == 0 {
        Seq::empty()
    } else if fields.len() == 1 {
        encode_field(fields[0])
    } else {
        form_encoded(fields.drop_last()) + seq![B_AMP] + encode_field(fields.last())
    }
}

/// The UTF-8 bytes of each key and value of a field list.
pub open spec fn fields_bytes_view(fields: Seq<(String, String)>) -> Seq<(Seq<u8>, Seq<u8>)> {
    fields.map_values(|f: (String, String)| (encode_utf8(f.0@), encode_utf8(f.1@)))
}

fn hex_digit(n: u8) -> (d: u8)
    requires
        n < 16,
    ensures
        d == spec_hex_digit(n),
{
    if n < 10 {
        B_DIGIT_0 + n
    } else {
        B_UPPER_A + (n - 10)
    }
}

/// Append the form encoding of the bytes of `s` to `out`.
fn push_encoded(out: &mut Vec<u8>, s: &[u8])
    ensures
        final(out)@ == old(out)@ + encode_bytes(s@),
{
    let mut i: usize = 0;
    proof {
        assert(out@ =~= old(out)@ + encode_bytes(s@.subrange(0, 0)));
    }
    while i < s.len()
        invariant
            i <= s@.len(),
            out@ == old(out)@ + encode_bytes(s@.subrange(0, i as int)),
        decreases s@.len() - i,
    {
        let b = s[i];
        if (B_UPPER_A <= b && b <= B_UPPER_Z) || (B_LOWER_A <= b && b <= B_LOWER_Z) || (B_DIGIT_0
            <= b && b <= B_DIGIT_9) || b == B_STAR || b == B_DASH || b == B_DOT || b
            == B_UNDERSCORE {
            out.push(b);
        } else if b == B_SPACE {
            out.push(B_PLUS);
        } else {
            out.push(B_PERCENT);
            out.push(hex_digit(b / 16));
            out.push(hex_digit(b % 16));
        }
        proof {
            let prefix = s@.subrange(0, i as int);
            let next = s@.subrange(0, i as int + 1);
            assert(next.drop_last() =~= prefix);
            assert(next.last() == s@[i as int]);
            assert(out@ =~= old(out)@ + encode_bytes(next));
        }
        i += 1;
    }
    proof {
        assert(s@.subrange(0, s@.len() as int) =~= s@);
    }
}

/// Build the form body for an ordered list of fields.
pub fn form_encode(fields: &Vec<(String, String)>) -> (body: Vec<u8>)
    ensures
        body@ == form_encoded(fields_bytes_view(fields@)),
{
    let mut body: Vec<u8> = Vec::new();
    let ghost fv = fields_bytes_view(fields@);
    let mut i: usize = 0;
    proof {
        assert(body@ =~= form_encoded(fv.subrange(0, 0)));
    }
    while i < fields.len()
        invariant
            i <= fields@.len(),
            fv == fields_bytes_view(fields@),
            body@ == form_encoded(fv.subrange(0, i as int)),
        decreases fields@.len() - i,
    {
        if i > 0 {
            body.push(B_AMP);
        }
        push_encoded(&mut body, fields[i].0.as_str().as_bytes());
        body.push(B_EQ);
        push_encoded(&mut body, fields[i].1.as_str().as_bytes());
        proof {
            let prefix = fv.subrange(0, i as int);
            let next = fv.subrange(0, i as int + 1);
            assert(next.drop_last() =~= prefix);
            assert(next.last() == fv[i as int]);
            assert(fv[i as int].0 == encode_utf8(fields@[i as int].0@));
            assert(fv[i as int].1 == encode_utf8(fields@[i as int].1@));
            assert(body@ =~= form_encoded(next));
        }
        i += 1;
    }
    proof {
        assert(fv.subrange(0, fv.len() as int) =~= fv);
    }
    body
}

/// A byte sequence made only of unreserved bytes passes through the
/// encoding unchanged.
pub proof fn lemma_unreserved_identity(s: Seq<u8>)
    requires
        forall|i: int| 0 <= i < s.len() ==> is_form_unreserved(s[i]),
    ensures
        encode_bytes(s) == s,
    decreases s.len(),
{
    if s.len() == 0 {
        assert(encode_bytes(s) =~= s);
    } else {
        lemma_unreserved_identity(s.drop_last());
        assert(is_form_unreserved(s.last()));
        assert(encode_bytes(s) =~= s);
    }
}

} // verus!
