//! Byte-level text encoders used when rendering requests: the
//! `application/x-www-form-urlencoded` encoding of query parameters, and JSON
//! string-literal escaping for request bodies.

use vstd::prelude::*;

verus! {

/// The uppercase hexadecimal digit for a value below 16.
pub open spec fn hex_upper(n: u8) -> u8 {
    if n < 10 {
        (0x30 + n) as u8
    } else {
        (0x37 + n) as u8
    }
}

/// The lowercase hexadecimal digit for a value below 16.
pub open spec fn hex_lower(n: u8) -> u8 {
    if n < 10 {
        (0x30 + n) as u8
    } else {
        (0x57 + n) as u8
    }
}

/// Bytes that the form-urlencoded serializer passes through unchanged:
/// ASCII alphanumerics and `*`, `-`, `.`, `_`.
pub open spec fn form_unchanged(b: u8) -> bool {
    ||| b == 0x2a
    ||| b == 0x2d
    ||| b == 0x2e
    ||| b == 0x5f
    ||| 0x30 <= b <= 0x39
    ||| 0x41 <= b <= 0x5a
    ||| 0x61 <= b <= 0x7a
}

/// The form-urlencoded rendering of one byte: unchanged, `+` for a space,
/// else `%XX` with uppercase hexadecimal digits.
pub open spec fn form_byte(b: u8) -> Seq<u8> {
    if form_unchanged(b) {
        seq![b]
    } else if b == 0x20 {
        seq![0x2bu8]
    } else {
        seq![0x25u8, hex_upper((b / 16) as u8), hex_upper((b % 16) as u8)]
    }
}

/// The form-urlencoded rendering of a byte string.
pub open spec fn form_encode(bs: Seq<u8>) -> Seq<u8>
    decreases bs.len(),
{
    if bs.len() == 0 {
        Seq::empty()
    } else {
        form_byte(bs[0]) + form_encode(bs.drop_first())
    }
}

pub proof fn lemma_form_encode_push(bs: Seq<u8>, b: u8)
    ensures
        form_encode(bs.push(b)) == form_encode(bs) + form_byte(b),
    decreases bs.len(),
{
    assert(bs.push(b)[0] == if bs.len() == 0 {
        b
    } else {
        bs[0]
    });
    if bs.len() == 0 {
        let p = bs.push(b);
        reveal_with_fuel(form_encode, 2);
        assert(p.drop_first() =~= Seq::<u8>::empty());
        assert(form_encode(p) == form_byte(b) + form_encode(p.drop_first()));
        assert(form_encode(p) =~= form_byte(b));
        assert(form_encode(bs) + form_byte(b) =~= form_byte(b));
    } else {
        assert(bs.push(b).drop_first() =~= bs.drop_first().push(b));
        lemma_form_encode_push(bs.drop_first(), b);
        assert(form_encode(bs.push(b)) =~= form_encode(bs) + form_byte(b));
    }
}

/// Every byte of a form-urlencoded rendering is ASCII.
pub proof fn lemma_form_encode_ascii(bs: Seq<u8>)
    ensures
        forall|i: int| 0 <= i < form_encode(bs).len() ==> form_encode(bs)[i] < 0x80,
    decreases bs.len(),
{
    if bs.len() == 0 {
    } else {
        lemma_form_encode_ascii(bs.drop_first());
        assert forall|i: int| 0 <= i < form_encode(bs).len() implies form_encode(bs)[i]
            < 0x80 by {
            let head = form_byte(bs[0]);
            if i < head.len() {
                assert(form_encode(bs)[i] == head[i]);
            } else {
                assert(form_encode(bs)[i] == form_encode(bs.drop_first())[i - head.len()]);
            }
        }
    }
}

/// The uppercase hexadecimal digit, executable.
fn hex_upper_digit(n: u8) -> (r: u8)
    requires
        n < 16,
    ensures
        r == hex_upper(n),
{
    if n < 10 {
        0x30 + n
    } else {
        0x37 + n
    }
}

/// The lowercase hexadecimal digit, executable.
fn hex_lower_digit(n: u8) -> (r: u8)
    requires
        n < 16,
    ensures
        r == hex_lower(n),
{
    if n < 10 {
        0x30 + n
    } else {
        0x57 + n
    }
}

fn is_form_unchanged(b: u8) -> (r: bool)
    ensures
        r == form_unchanged(b),
{
    b == 0x2a || b == 0x2d || b == 0x2e || b == 0x5f || (0x30 <= b && b <= 0x39) || (0x41 <= b
        && b <= 0x5a) || (0x61 <= b && b <= 0x7a)
}

/// Appends the form-urlencoded rendering of `bs` to `out`.
pub fn append_form_encoded(out: &mut Vec<u8>, bs: &Vec<u8>)
    ensures
        final(out)@ == old(out)@ + form_encode(bs@),
{
    let ghost start = out@;
    let mut i: usize = 0;
    while i < bs.len()
        invariant
            i <= bs@.len(),
            out@ == start + form_encode(bs@.take(i as int)),
        decreases bs@.len() - i,
    {
        let b = bs[i];
        if is_form_unchanged(b) {
            out.push(b);
        } else if b == 0x20 {
            out.push(0x2b);
        } else {
            out.push(0x25);
            out.push(hex_upper_digit(b / 16));
            out.push(hex_upper_digit(b % 16));
        }
        proof {
            lemma_form_encode_push(bs@.take(i as int), bs@[i as int]);
            assert(bs@.take(i as int).push(bs@[i as int]) =~= bs@.take(i + 1));
            assert(out@ =~= start + form_encode(bs@.take(i + 1)));
        }
        i = i + 1;
    }
    proof {
        assert(bs@.take(bs@.len() as int) =~= bs@);
    }
}

/// The JSON escape of one byte of a string's UTF-8 text: backslash escapes
/// for the quote, the backslash and the common control characters, `\u00XX`
/// with lowercase hexadecimal digits for the other control characters, and
/// everything else unchanged.
pub open spec fn json_escape_byte(b: u8) -> Seq<u8> {
    if b == 0x22 {
        seq![0x5cu8, 0x22u8]
    } else if b == 0x5c {
        seq![0x5cu8, 0x5cu8]
    } else if b == 0x08 {
        seq![0x5cu8, 0x62u8]
    } else if b == 0x09 {
        seq![0x5cu8, 0x74u8]
    } else if b == 0x0a {
        seq![0x5cu8, 0x6eu8]
    } else if b == 0x0c {
        seq![0x5cu8, 0x66u8]
    } else if b == 0x0d {
        seq![0x5cu8, 0x72u8]
    } else if b < 0x20 {
        seq![0x5cu8, 0x75u8, 0x30u8, 0x30u8, hex_lower((b / 16) as u8), hex_lower((b % 16) as u8)]
    } else {
        seq![b]
    }
}

/// The JSON escape of a byte string.
pub open spec fn json_escape(bs: Seq<u8>) -> Seq<u8>
    decreases bs.len(),
{
    if bs.len() == 0 {
        Seq::empty()
    } else {
        json_escape_byte(bs[0]) + json_escape(bs.drop_first())
    }
}

/// The JSON string literal holding the given UTF-8 text: a quote, the escaped
/// text, a quote.
pub open spec fn json_string_bytes(bs: Seq<u8>) -> Seq<u8> {
    seq![0x22u8] + json_escape(bs) + seq![0x22u8]
}

pub proof fn lemma_json_escape_push(bs: Seq<u8>, b: u8)
    ensures
        json_escape(bs.push(b)) == json_escape(bs) + json_escape_byte(b),
    decreases bs.len(),
{
    assert(bs.push(b)[0] == if bs.len() == 0 {
        b
    } else {
        bs[0]
    });
    if bs.len() == 0 {
        let p = bs.push(b);
        reveal_with_fuel(json_escape, 2);
        assert(p.drop_first() =~= Seq::<u8>::empty());
        assert(json_escape(p) == json_escape_byte(b) + json_escape(p.drop_first()));
        assert(json_escape(p) =~= json_escape_byte(b));
        assert(json_escape(bs) + json_escape_byte(b) =~= json_escape_byte(b));
    } else {
        assert(bs.push(b).drop_first() =~= bs.drop_first().push(b));
        lemma_json_escape_push(bs.drop_first(), b);
        assert(json_escape(bs.push(b)) =~= json_escape(bs) + json_escape_byte(b));
    }
}

/// Appends the JSON string literal holding `bs` to `out`.
pub fn append_json_string(out: &mut Vec<u8>, bs: &Vec<u8>)
    ensures
        final(out)@ == old(out)@ + json_string_bytes(bs@),
{
    let ghost start = out@;
    out.push(0x22);
    let mut i: usize = 0;
    while i < bs.len()
        invariant
            i <= bs@.len(),
            out@ == start + seq![0x22u8] + json_escape(bs@.take(i as int)),
        decreases bs@.len() - i,
    {
        let b = bs[i];
        if b == 0x22 {
            out.push(0x5c);
            out.push(0x22);
        } else if b == 0x5c {
            out.push(0x5c);
            out.push(0x5c);
        } else if b == 0x08 {
            out.push(0x5c);
            out.push(0x62);
        } else if b == 0x09 {
            out.push(0x5c);
            out.push(0x74);
        } else if b == 0x0a {
            out.push(0x5c);
            out.push(0x6e);
        } else if b == 0x0c {
            out.push(0x5c);
            out.push(0x66);
        } else if b == 0x0d {
            out.push(0x5c);
            out.push(0x72);
        } else if b < 0x20 {
            out.push(0x5c);
            out.push(0x75);
            out.push(0x30);
            out.push(0x30);
            out.push(hex_lower_digit(b / 16));
            out.push(hex_lower_digit(b % 16));
        } else {
            out.push(b);
        }
        proof {
            lemma_json_escape_push(bs@.take(i as int), bs@[i as int]);
            assert(bs@.take(i as int).push(bs@[i as int]) =~= bs@.take(i + 1));
            assert(out@ =~= start + seq![0x22u8] + json_escape(bs@.take(i + 1)));
        }
        i = i + 1;
    }
    out.push(0x22);
    proof {
        assert(bs@.take(bs@.len() as int) =~= bs@);
        assert(out@ =~= start + json_string_bytes(bs@));
    }
}

} // verus!
