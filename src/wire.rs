//! The envelope's byte format: MessagePack, with records written as maps
//! keyed by field name.
use vstd::prelude::*;
use vstd::utf8::*;
use crate::bytes::{be, be_value, lemma_be_round_trip, lemma_limits, limit};
use crate::value::Val;

verus! {

/// An integer in its shortest MessagePack form.
pub open spec fn enc_int(i: int) -> Seq<u8> {
    if 0 <= i < 0x80 {
        seq![i as u8]
    } else if 0 <= i < 0x100 {
        seq![0xccu8] + be(i as nat, 1)
    } else if 0 <= i < 0x10000 {
        seq![0xcdu8] + be(i as nat, 2)
    } else if 0 <= i < 0x1_0000_0000 {
        seq![0xceu8] + be(i as nat, 4)
    } else if 0 <= i {
        seq![0xcfu8] + be(i as nat, 8)
    } else if -32 <= i {
        seq![(i + 0x100) as u8]
    } else if -0x80 <= i {
        seq![0xd0u8] + be((i + 0x100) as nat, 1)
    } else if -0x8000 <= i {
        seq![0xd1u8] + be((i + 0x10000) as nat, 2)
    } else if -0x8000_0000 <= i {
        seq![0xd2u8] + be((i + 0x1_0000_0000) as nat, 4)
    } else {
        seq![0xd3u8] + be((i + 0x1_0000_0000_0000_0000) as nat, 8)
    }
}

/// The header of a text string of `n` bytes.
pub open spec fn str_header(n: nat) -> Seq<u8> {
    if n < 32 {
        seq![(0xa0 + n) as u8]
    } else if n < 0x100 {
        seq![0xd9u8] + be(n, 1)
    } else if n < 0x10000 {
        seq![0xdau8] + be(n, 2)
    } else {
        seq![0xdbu8] + be(n, 4)
    }
}

/// The header of a byte string of `n` bytes.
pub open spec fn bin_header(n: nat) -> Seq<u8> {
    if n < 0x100 {
        seq![0xc4u8] + be(n, 1)
    } else if n < 0x10000 {
        seq![0xc5u8] + be(n, 2)
    } else {
        seq![0xc6u8] + be(n, 4)
    }
}

/// The header of an array of `n` items.
pub open spec fn array_header(n: nat) -> Seq<u8> {
    if n < 16 {
        seq![(0x90 + n) as u8]
    } else if n < 0x10000 {
        seq![0xdcu8] + be(n, 2)
    } else {
        seq![0xddu8] + be(n, 4)
    }
}

/// The header of a map of `n` entries.
pub open spec fn record_header(n: nat) -> Seq<u8> {
    if n < 16 {
        seq![(0x80 + n) as u8]
    } else if n < 0x10000 {
        seq![0xdeu8] + be(n, 2)
    } else {
        seq![0xdfu8] + be(n, 4)
    }
}

pub open spec fn enc_str(cs: Seq<char>) -> Seq<u8> {
    str_header(encode_utf8(cs).len()) + encode_utf8(cs)
}

/// The bytes that encode a value.
pub open spec fn enc(v: Val) -> Seq<u8>
    decreases v,
{
    match v {
        Val::Nil => seq![0xc0u8],
        Val::Bool(b) => seq![if b { 0xc3u8 } else { 0xc2u8 }],
        Val::Int(i) => enc_int(i),
        Val::Str(cs) => enc_str(cs),
        Val::Bin(b) => bin_header(b.len()) + b,
        Val::Float32Bits(x) => seq![0xcau8] + be(x, 4),
        Val::Float64Bits(x) => seq![0xcbu8] + be(x, 8),
        Val::Array(items) => array_header(items.len()) + enc_items(items),
        Val::Record(entries) => record_header(entries.len()) + enc_entries(entries),
    }
}

pub open spec fn enc_items(items: Seq<Val>) -> Seq<u8>
    decreases items,
{
    if items.len() == 0 {
        Seq::empty()
    } else {
        enc(items[0]) + enc_items(items.subrange(1, items.len() as int))
    }
}

pub open spec fn enc_entries(entries: Seq<(Seq<char>, Val)>) -> Seq<u8>
    decreases entries,
{
    if entries.len() == 0 {
        Seq::empty()
    } else {
        enc_str(entries[0].0) + enc(entries[0].1) + enc_entries(
            entries.subrange(1, entries.len() as int),
        )
    }
}

/// Whether the format can hold a value: integers in `[-2^63, 2^64)`, the
/// bits of floating-point numbers in the width of theirs, and strings, byte
/// strings, arrays and maps shorter than `2^32`.
pub open spec fn encodable(v: Val) -> bool
    decreases v,
{
    match v {
        Val::Nil => true,
        Val::Bool(_) => true,
        Val::Int(i) => -0x8000_0000_0000_0000 <= i < 0x1_0000_0000_0000_0000,
        Val::Str(cs) => encode_utf8(cs).len() < 0x1_0000_0000,
        Val::Bin(b) => b.len() < 0x1_0000_0000,
        Val::Float32Bits(x) => x < 0x1_0000_0000,
        Val::Float64Bits(x) => x < 0x1_0000_0000_0000_0000,
        Val::Array(items) => items.len() < 0x1_0000_0000 && forall|i: int|
            0 <= i < items.len() ==> encodable(#[trigger] items[i]),
        Val::Record(entries) => entries.len() < 0x1_0000_0000 && forall|i: int|
            0 <= i < entries.len() ==> encode_utf8(#[trigger] entries[i].0).len() < 0x1_0000_0000
                && encodable(entries[i].1),
    }
}

/// The width of the length or integer field that follows marker `m`, where
/// `base` is the first marker of its family and the family's widths start at
/// `first`.
pub open spec fn width(m: u8, base: u8, first: nat) -> nat {
    if m - base == 0 {
        first
    } else if m - base == 1 {
        2 * first
    } else if m - base == 2 {
        4 * first
    } else {
        8 * first
    }
}

/// The big-endian field of `w` bytes at `off`, if the input is long enough.
pub open spec fn field_at(s: Seq<u8>, off: int, w: nat) -> Option<nat> {
    if 0 <= off && off + w <= s.len() {
        Some(be_value(s.subrange(off, off + w)))
    } else {
        None
    }
}

/// A signed integer from its two's complement field of `w` bytes.
pub open spec fn signed(raw: nat, w: nat) -> int {
    if raw >= limit(w) / 2 {
        raw - limit(w)
    } else {
        raw as int
    }
}

/// A text string of `n` bytes at `off`: they must be UTF-8.
pub open spec fn parse_str_body(s: Seq<u8>, off: int, n: nat) -> Option<(Val, int)> {
    if 0 <= off && off + n <= s.len() && valid_utf8(s.subrange(off, off + n)) {
        Some((Val::Str(decode_utf8(s.subrange(off, off + n))), off + n))
    } else {
        None
    }
}

/// A byte string of `n` bytes at `off`.
pub open spec fn parse_bin_body(s: Seq<u8>, off: int, n: nat) -> Option<(Val, int)> {
    if 0 <= off && off + n <= s.len() {
        Some((Val::Bin(s.subrange(off, off + n)), off + n))
    } else {
        None
    }
}

/// The value that starts the input, with the number of bytes it takes, or
/// `None` where the input does not start with a value of the format.
pub open spec fn parse(s: Seq<u8>) -> Option<(Val, int)>
    decreases s.len(), 0nat,
{
    if s.len() == 0 {
        None
    } else {
        let m = s[0];
        let tail = s.subrange(1, s.len() as int);
        if m < 0x80 {
            Some((Val::Int(m as int), 1))
        } else if m >= 0xe0 {
            Some((Val::Int(m - 0x100), 1))
        } else if m < 0x90 {
            match parse_entries(tail, (m - 0x80) as nat) {
                Some((es, k)) => Some((Val::Record(es), 1 + k)),
                None => None,
            }
        } else if m < 0xa0 {
            match parse_items(tail, (m - 0x90) as nat) {
                Some((vs, k)) => Some((Val::Array(vs), 1 + k)),
                None => None,
            }
        } else if m < 0xc0 {
            parse_str_body(s, 1, (m - 0xa0) as nat)
        } else if m == 0xc0 {
            Some((Val::Nil, 1))
        } else if m == 0xc2 {
            Some((Val::Bool(false), 1))
        } else if m == 0xc3 {
            Some((Val::Bool(true), 1))
        } else if 0xc4 <= m <= 0xc6 {
            let w = width(m, 0xc4, 1);
            match field_at(s, 1, w) {
                Some(n) => parse_bin_body(s, 1 + w as int, n),
                None => None,
            }
        } else if m == 0xca {
            match field_at(s, 1, 4) {
                Some(n) => Some((Val::Float32Bits(n), 5)),
                None => None,
            }
        } else if m == 0xcb {
            match field_at(s, 1, 8) {
                Some(n) => Some((Val::Float64Bits(n), 9)),
                None => None,
            }
        } else if 0xcc <= m <= 0xcf {
            let w = width(m, 0xcc, 1);
            match field_at(s, 1, w) {
                Some(n) => Some((Val::Int(n as int), 1 + w as int)),
                None => None,
            }
        } else if 0xd0 <= m <= 0xd3 {
            let w = width(m, 0xd0, 1);
            match field_at(s, 1, w) {
                Some(n) => Some((Val::Int(signed(n, w)), 1 + w as int)),
                None => None,
            }
        } else if 0xd9 <= m <= 0xdb {
            let w = width(m, 0xd9, 1);
            match field_at(s, 1, w) {
                Some(n) => parse_str_body(s, 1 + w as int, n),
                None => None,
            }
        } else if 0xdc <= m <= 0xdd {
            let w = width(m, 0xdc, 2);
            match field_at(s, 1, w) {
                Some(n) => match parse_items(s.subrange(1 + w as int, s.len() as int), n) {
                    Some((vs, k)) => Some((Val::Array(vs), 1 + w as int + k)),
                    None => None,
                },
                None => None,
            }
        } else if 0xde <= m <= 0xdf {
            let w = width(m, 0xde, 2);
            match field_at(s, 1, w) {
                Some(n) => match parse_entries(s.subrange(1 + w as int, s.len() as int), n) {
                    Some((es, k)) => Some((Val::Record(es), 1 + w as int + k)),
                    None => None,
                },
                None => None,
            }
        } else {
            None
        }
    }
}

/// `n` values one after another.
pub open spec fn parse_items(s: Seq<u8>, n: nat) -> Option<(Seq<Val>, int)>
    decreases s.len(), 1nat,
{
    if n == 0 {
        Some((Seq::empty(), 0))
    } else {
        match parse(s) {
            Some((v, k)) => if 0 < k <= s.len() {
                match parse_items(s.subrange(k, s.len() as int), (n - 1) as nat) {
                    Some((vs, k2)) => Some((seq![v] + vs, k + k2)),
                    None => None,
                }
            } else {
                None
            },
            None => None,
        }
    }
}

/// `n` map entries one after another, each a text key and a value.
pub open spec fn parse_entries(s: Seq<u8>, n: nat) -> Option<(Seq<(Seq<char>, Val)>, int)>
    decreases s.len(), 1nat,
{
    if n == 0 {
        Some((Seq::empty(), 0))
    } else {
        match parse(s) {
            Some((Val::Str(key), k1)) => if 0 < k1 <= s.len() {
                let s1 = s.subrange(k1, s.len() as int);
                match parse(s1) {
                    Some((v, k2)) => if 0 < k2 <= s1.len() {
                        match parse_entries(s1.subrange(k2, s1.len() as int), (n - 1) as nat) {
                            Some((es, k3)) => Some((seq![(key, v)] + es, k1 + k2 + k3)),
                            None => None,
                        }
                    } else {
                        None
                    },
                    None => None,
                }
            } else {
                None
            },
            _ => None,
        }
    }
}

/// The value that a whole byte string holds, if it holds exactly one.
pub open spec fn parse_all(s: Seq<u8>) -> Option<Val> {
    match parse(s) {
        Some((v, k)) => if k == s.len() {
            Some(v)
        } else {
            None
        },
        None => None,
    }
}

proof fn lemma_field(s: Seq<u8>, off: int, x: nat, w: nat)
    requires
        0 <= off,
        off + w <= s.len(),
        x < limit(w),
        s.subrange(off, off + w) == be(x, w),
    ensures
        field_at(s, off, w) == Some(x),
{
    lemma_be_round_trip(x, w);
}

proof fn lemma_parse_int(i: int, rest: Seq<u8>)
    requires
        -0x8000_0000_0000_0000 <= i < 0x1_0000_0000_0000_0000,
    ensures
        enc_int(i).len() >= 1,
        parse(enc_int(i) + rest) == Some((Val::Int(i), enc_int(i).len() as int)),
{
    let e = enc_int(i);
    let s = e + rest;
    lemma_limits();
    if 0 <= i < 0x80 {
        assert(s[0] == i as u8);
    } else if 0 <= i < 0x100 {
        lemma_be_round_trip(i as nat, 1);
        assert(s.subrange(1, 2) =~= be(i as nat, 1));
        lemma_field(s, 1, i as nat, 1);
    } else if 0 <= i < 0x10000 {
        lemma_be_round_trip(i as nat, 2);
        assert(s.subrange(1, 3) =~= be(i as nat, 2));
        lemma_field(s, 1, i as nat, 2);
    } else if 0 <= i < 0x1_0000_0000 {
        lemma_be_round_trip(i as nat, 4);
        assert(s.subrange(1, 5) =~= be(i as nat, 4));
        lemma_field(s, 1, i as nat, 4);
    } else if 0 <= i {
        lemma_be_round_trip(i as nat, 8);
        assert(s.subrange(1, 9) =~= be(i as nat, 8));
        lemma_field(s, 1, i as nat, 8);
    } else if -32 <= i {
        assert(s[0] == (i + 0x100) as u8);
    } else if -0x80 <= i {
        let raw = (i + 0x100) as nat;
        lemma_be_round_trip(raw, 1);
        assert(s.subrange(1, 2) =~= be(raw, 1));
        lemma_field(s, 1, raw, 1);
    } else if -0x8000 <= i {
        let raw = (i + 0x10000) as nat;
        lemma_be_round_trip(raw, 2);
        assert(s.subrange(1, 3) =~= be(raw, 2));
        lemma_field(s, 1, raw, 2);
    } else if -0x8000_0000 <= i {
        let raw = (i + 0x1_0000_0000) as nat;
        lemma_be_round_trip(raw, 4);
        assert(s.subrange(1, 5) =~= be(raw, 4));
        lemma_field(s, 1, raw, 4);
    } else {
        let raw = (i + 0x1_0000_0000_0000_0000) as nat;
        lemma_be_round_trip(raw, 8);
        assert(s.subrange(1, 9) =~= be(raw, 8));
        lemma_field(s, 1, raw, 8);
    }
}

proof fn lemma_parse_str(cs: Seq<char>, rest: Seq<u8>)
    requires
        encode_utf8(cs).len() < 0x1_0000_0000,
    ensures
        enc_str(cs).len() >= 1,
        parse(enc_str(cs) + rest) == Some((Val::Str(cs), enc_str(cs).len() as int)),
{
    let b = encode_utf8(cs);
    let n = b.len();
    let s = enc_str(cs) + rest;
    lemma_limits();
    encode_utf8_valid_utf8(cs);
    encode_utf8_decode_utf8(cs);
    if n < 32 {
        assert(s.subrange(1, 1 + n as int) =~= b);
    } else if n < 0x100 {
        lemma_be_round_trip(n, 1);
        assert(s.subrange(1, 2) =~= be(n, 1));
        lemma_field(s, 1, n, 1);
        assert(s.subrange(2, 2 + n as int) =~= b);
    } else if n < 0x10000 {
        lemma_be_round_trip(n, 2);
        assert(s.subrange(1, 3) =~= be(n, 2));
        lemma_field(s, 1, n, 2);
        assert(s.subrange(3, 3 + n as int) =~= b);
    } else {
        lemma_be_round_trip(n, 4);
        assert(s.subrange(1, 5) =~= be(n, 4));
        lemma_field(s, 1, n, 4);
        assert(s.subrange(5, 5 + n as int) =~= b);
    }
}

proof fn lemma_parse_bin(b: Seq<u8>, rest: Seq<u8>)
    requires
        b.len() < 0x1_0000_0000,
    ensures
        parse((bin_header(b.len()) + b) + rest) == Some(
            (Val::Bin(b), (bin_header(b.len()) + b).len() as int),
        ),
{
    let n = b.len();
    let s = (bin_header(n) + b) + rest;
    lemma_limits();
    if n < 0x100 {
        lemma_be_round_trip(n, 1);
        assert(s.subrange(1, 2) =~= be(n, 1));
        lemma_field(s, 1, n, 1);
        assert(s.subrange(2, 2 + n as int) =~= b);
    } else if n < 0x10000 {
        lemma_be_round_trip(n, 2);
        assert(s.subrange(1, 3) =~= be(n, 2));
        lemma_field(s, 1, n, 2);
        assert(s.subrange(3, 3 + n as int) =~= b);
    } else {
        lemma_be_round_trip(n, 4);
        assert(s.subrange(1, 5) =~= be(n, 4));
        lemma_field(s, 1, n, 4);
        assert(s.subrange(5, 5 + n as int) =~= b);
    }
}

/// Parsing the encoding of a value, whatever follows it, gives the value
/// back and stops where its encoding ends.
pub proof fn lemma_parse_enc(v: Val, rest: Seq<u8>)
    requires
        encodable(v),
    ensures
        enc(v).len() >= 1,
        parse(enc(v) + rest) == Some((v, enc(v).len() as int)),
    decreases v,
{
    lemma_limits();
    let s = enc(v) + rest;
    match v {
        Val::Nil => {
            assert(s[0] == 0xc0u8);
        },
        Val::Bool(b) => {
            assert(s[0] == if b { 0xc3u8 } else { 0xc2u8 });
        },
        Val::Int(i) => {
            lemma_parse_int(i, rest);
        },
        Val::Str(cs) => {
            lemma_parse_str(cs, rest);
        },
        Val::Bin(b) => {
            lemma_parse_bin(b, rest);
        },
        Val::Float32Bits(x) => {
            lemma_be_round_trip(x, 4);
            assert(s.subrange(1, 5) =~= be(x, 4));
            lemma_field(s, 1, x, 4);
        },
        Val::Float64Bits(x) => {
            lemma_be_round_trip(x, 8);
            assert(s.subrange(1, 9) =~= be(x, 8));
            lemma_field(s, 1, x, 8);
        },
        Val::Array(items) => {
            let n = items.len();
            let body = enc_items(items);
            lemma_parse_items(items, rest);
            if n < 16 {
                assert(s.subrange(1, s.len() as int) =~= body + rest);
            } else if n < 0x10000 {
                lemma_be_round_trip(n, 2);
                assert(s.subrange(1, 3) =~= be(n, 2));
                lemma_field(s, 1, n, 2);
                assert(s.subrange(3, s.len() as int) =~= body + rest);
            } else {
                lemma_be_round_trip(n, 4);
                assert(s.subrange(1, 5) =~= be(n, 4));
                lemma_field(s, 1, n, 4);
                assert(s.subrange(5, s.len() as int) =~= body + rest);
            }
        },
        Val::Record(entries) => {
            let n = entries.len();
            let body = enc_entries(entries);
            lemma_parse_entries(entries, rest);
            if n < 16 {
                assert(s.subrange(1, s.len() as int) =~= body + rest);
            } else if n < 0x10000 {
                lemma_be_round_trip(n, 2);
                assert(s.subrange(1, 3) =~= be(n, 2));
                lemma_field(s, 1, n, 2);
                assert(s.subrange(3, s.len() as int) =~= body + rest);
            } else {
                lemma_be_round_trip(n, 4);
                assert(s.subrange(1, 5) =~= be(n, 4));
                lemma_field(s, 1, n, 4);
                assert(s.subrange(5, s.len() as int) =~= body + rest);
            }
        },
    }
}

proof fn lemma_parse_items(items: Seq<Val>, rest: Seq<u8>)
    requires
        forall|i: int| 0 <= i < items.len() ==> encodable(#[trigger] items[i]),
    ensures
        parse_items(enc_items(items) + rest, items.len()) == Some(
            (items, enc_items(items).len() as int),
        ),
    decreases items,
{
    if items.len() == 0 {
        assert(enc_items(items) + rest =~= rest);
        assert(items =~= Seq::<Val>::empty());
    } else {
        let first = items[0];
        let others = items.subrange(1, items.len() as int);
        let s = enc_items(items) + rest;
        lemma_parse_enc(first, enc_items(others) + rest);
        assert(s =~= enc(first) + (enc_items(others) + rest));
        lemma_parse_items(others, rest);
        let k = enc(first).len() as int;
        assert(s.subrange(k, s.len() as int) =~= enc_items(others) + rest);
        assert(seq![first] + others =~= items);
    }
}

proof fn lemma_parse_entries(entries: Seq<(Seq<char>, Val)>, rest: Seq<u8>)
    requires
        forall|i: int|
            0 <= i < entries.len() ==> encode_utf8(#[trigger] entries[i].0).len() < 0x1_0000_0000
                && encodable(entries[i].1),
    ensures
        parse_entries(enc_entries(entries) + rest, entries.len()) == Some(
            (entries, enc_entries(entries).len() as int),
        ),
    decreases entries,
{
    if entries.len() == 0 {
        assert(enc_entries(entries) + rest =~= rest);
        assert(entries =~= Seq::<(Seq<char>, Val)>::empty());
    } else {
        let key = entries[0].0;
        let v = entries[0].1;
        let others = entries.subrange(1, entries.len() as int);
        let s = enc_entries(entries) + rest;
        let after_value = enc_entries(others) + rest;
        let after_key = enc(v) + after_value;
        assert(s =~= enc_str(key) + after_key);
        lemma_parse_str(key, after_key);
        let k1 = enc_str(key).len() as int;
        let s1 = s.subrange(k1, s.len() as int);
        assert(s1 =~= after_key);
        lemma_parse_enc(v, after_value);
        let k2 = enc(v).len() as int;
        assert(s1.subrange(k2, s1.len() as int) =~= after_value);
        lemma_parse_entries(others, rest);
        let k3 = enc_entries(others).len() as int;
        assert(parse(s) == Some((Val::Str(key), k1)));
        assert(parse(s1) == Some((v, k2)));
        assert(parse_entries(after_value, (entries.len() - 1) as nat) == Some((others, k3)));
        assert(seq![(key, v)] + others =~= entries);
        assert(enc_entries(entries).len() == k1 + k2 + k3);
    }
}

/// Round trip: a whole encoding parses back to the value it encodes.
pub proof fn lemma_parse_all_enc(v: Val)
    requires
        encodable(v),
    ensures
        parse_all(enc(v)) == Some(v),
{
    lemma_parse_enc(v, Seq::empty());
    assert(enc(v) + Seq::<u8>::empty() =~= enc(v));
}

/// A text of `n` characters takes at most `4 n` bytes in UTF-8.
pub proof fn lemma_encode_utf8_len(cs: Seq<char>)
    ensures
        encode_utf8(cs).len() <= 4 * cs.len(),
    decreases cs.len(),
{
    if cs.len() > 0 {
        lemma_encode_utf8_len(cs.drop_first());
        assert(encode_scalar(cs[0] as u32).len() <= 4);
    }
}

} // verus!
