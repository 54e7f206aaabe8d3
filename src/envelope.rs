//! Writing values to bytes and reading them back.
use vstd::prelude::*;
use vstd::utf8::*;
use crate::bytes::{be, lemma_be_value_bound, lemma_limits, limit, push_be, read_be};
use crate::value::{
    lemma_view_fields, lemma_view_fields_push, models, view_fields, Field, Val, Value,
};
use crate::wire::{
    array_header, bin_header, enc, enc_entries, enc_int, enc_items, enc_str, encodable, parse,
    parse_all, parse_bin_body, parse_entries, parse_items, parse_str_body, record_header, signed,
    str_header, width,
};

verus! {

/// Why bytes could not be read as an envelope.
#[derive(Debug, Clone, Copy, PartialEq, Eq, Structural)]
pub enum DecodeError {
    /// The bytes are not one well-formed value of the format.
    Malformed,
    /// A field that the schema requires is absent.
    MissingField,
    /// A field holds a value of another kind than the schema's, or one out of
    /// the range of its type.
    WrongType,
}

/// Why a value could not be written.
#[derive(Debug, Clone, Copy, PartialEq, Eq, Structural)]
pub enum EncodeError {
    /// A string, byte string, array or map is too long for the format.
    TooLong,
}

fn push_all(out: &mut Vec<u8>, b: &[u8])
    ensures
        final(out)@ == old(out)@ + b@,
{
    let mut i: usize = 0;
    while i < b.len()
        invariant
            i <= b@.len(),
            out@ == old(out)@ + b@.subrange(0, i as int),
        decreases b@.len() - i,
    {
        out.push(b[i]);
        i = i + 1;
        assert(out@ =~= old(out)@ + b@.subrange(0, i as int));
    }
    assert(b@.subrange(0, b@.len() as int) =~= b@);
}

fn push_marker_be(out: &mut Vec<u8>, m: u8, x: u64, n: usize)
    ensures
        final(out)@ == old(out)@ + (seq![m] + be(x as nat, n as nat)),
{
    out.push(m);
    push_be(out, x, n);
    assert(final(out)@ =~= old(out)@ + (seq![m] + be(x as nat, n as nat)));
}

fn push_uint(out: &mut Vec<u8>, x: u64)
    ensures
        final(out)@ == old(out)@ + enc_int(x as int),
{
    if x < 0x80 {
        out.push(x as u8);
    } else if x < 0x100 {
        push_marker_be(out, 0xcc, x, 1);
    } else if x < 0x10000 {
        push_marker_be(out, 0xcd, x, 2);
    } else if x < 0x1_0000_0000 {
        push_marker_be(out, 0xce, x, 4);
    } else {
        push_marker_be(out, 0xcf, x, 8);
    }
}

fn push_int(out: &mut Vec<u8>, x: i64)
    ensures
        final(out)@ == old(out)@ + enc_int(x as int),
{
    if x >= 0 {
        push_uint(out, x as u64);
    } else if x >= -32 {
        out.push((x + 0x100) as u8);
    } else if x >= -0x80 {
        push_marker_be(out, 0xd0, (x + 0x100) as u64, 1);
    } else if x >= -0x8000 {
        push_marker_be(out, 0xd1, (x + 0x10000) as u64, 2);
    } else if x >= -0x8000_0000 {
        push_marker_be(out, 0xd2, (x + 0x1_0000_0000) as u64, 4);
    } else {
        let shifted = ((x + 1) + 0x7fff_ffff_ffff_ffff) as u64;
        push_marker_be(out, 0xd3, shifted + 0x8000_0000_0000_0000, 8);
    }
}

/// Appends the header of a string, byte string, array or map of `n` items:
/// `fix` is the marker base of the one-byte form (or `None`), with `fix_max`
/// the count below which it applies, and `m8`, `m16`, `m32` the markers of
/// the forms with a length of one, two and four bytes (`m8` unused when 0).
fn push_header(out: &mut Vec<u8>, n: u64, fix: u8, fix_max: u64, m8: u8, m16: u8, m32: u8)
    requires
        n < 0x1_0000_0000,
        fix as int + fix_max <= 0x100,
    ensures
        final(out)@ == old(out)@ + (if n < fix_max {
            seq![(fix + n) as u8]
        } else if m8 != 0 && n < 0x100 {
            seq![m8] + be(n as nat, 1)
        } else if n < 0x10000 {
            seq![m16] + be(n as nat, 2)
        } else {
            seq![m32] + be(n as nat, 4)
        }),
{
    if n < fix_max {
        out.push(fix + n as u8);
    } else if m8 != 0 && n < 0x100 {
        push_marker_be(out, m8, n, 1);
    } else if n < 0x10000 {
        push_marker_be(out, m16, n, 2);
    } else {
        push_marker_be(out, m32, n, 4);
    }
}

fn push_str(out: &mut Vec<u8>, s: &str) -> (ok: bool)
    ensures
        ok == (encode_utf8(s@).len() < 0x1_0000_0000),
        ok ==> final(out)@ == old(out)@ + enc_str(s@),
{
    let b = s.as_bytes();
    if b.len() as u64 >= 0x1_0000_0000 {
        return false;
    }
    let n = b.len() as u64;
    push_header(out, n, 0xa0, 32, 0xd9, 0xda, 0xdb);
    let ghost mid = out@;
    push_all(out, b);
    assert(final(out)@ =~= old(out)@ + enc_str(s@));
    true
}

proof fn lemma_enc_items_push(xs: Seq<Val>, x: Val)
    ensures
        enc_items(xs.push(x)) == enc_items(xs) + enc(x),
    decreases xs.len(),
{
    if xs.len() == 0 {
        let ys = xs.push(x);
        assert(ys[0] == x);
        assert(ys.subrange(1, 1) =~= Seq::<Val>::empty());
        assert(enc_items(ys.subrange(1, 1)) =~= Seq::<u8>::empty());
        assert(enc_items(xs) =~= Seq::<u8>::empty());
        assert(enc_items(xs.push(x)) =~= enc_items(xs) + enc(x));
    } else {
        let rest = xs.subrange(1, xs.len() as int);
        lemma_enc_items_push(rest, x);
        assert(xs.push(x).subrange(1, xs.len() as int + 1) =~= rest.push(x));
        assert(enc_items(xs.push(x)) =~= enc_items(xs) + enc(x));
    }
}

proof fn lemma_enc_entries_push(es: Seq<(Seq<char>, Val)>, e: (Seq<char>, Val))
    ensures
        enc_entries(es.push(e)) == enc_entries(es) + (enc_str(e.0) + enc(e.1)),
    decreases es.len(),
{
    if es.len() == 0 {
        let ys = es.push(e);
        assert(ys[0] == e);
        assert(ys.subrange(1, 1) =~= Seq::<(Seq<char>, Val)>::empty());
        assert(enc_entries(ys.subrange(1, 1)) =~= Seq::<u8>::empty());
        assert(enc_entries(es) =~= Seq::<u8>::empty());
        assert(enc_entries(es.push(e)) =~= enc_entries(es) + (enc_str(e.0) + enc(e.1)));
    } else {
        let rest = es.subrange(1, es.len() as int);
        lemma_enc_entries_push(rest, e);
        assert(es.push(e).subrange(1, es.len() as int + 1) =~= rest.push(e));
        assert(enc_entries(es.push(e)) =~= enc_entries(es) + (enc_str(e.0) + enc(e.1)));
    }
}

/// Appends the encoding of `v`; `false` where the format cannot hold it, and
/// then `out` holds a partial encoding.
pub fn encode_into(v: &Value, out: &mut Vec<u8>) -> (ok: bool)
    ensures
        ok == encodable(v@),
        ok ==> final(out)@ == old(out)@ + enc(v@),
    decreases v,
{
    proof {
        lemma_limits();
    }
    match v {
        Value::Nil => {
            out.push(0xc0);
            true
        },
        Value::Bool(b) => {
            out.push(if *b { 0xc3 } else { 0xc2 });
            true
        },
        Value::UInt(x) => {
            push_uint(out, *x);
            true
        },
        Value::Int(x) => {
            push_int(out, *x);
            true
        },
        Value::Str(s) => push_str(out, s.as_str()),
        Value::Float32Bits(x) => {
            push_marker_be(out, 0xca, *x as u64, 4);
            true
        },
        Value::Float64Bits(x) => {
            push_marker_be(out, 0xcb, *x, 8);
            true
        },
        Value::Bin(b) => {
            if b.len() as u64 >= 0x1_0000_0000 {
                return false;
            }
            push_header(out, b.len() as u64, 0, 0, 0xc4, 0xc5, 0xc6);
            push_all(out, b.as_slice());
            assert(final(out)@ =~= old(out)@ + enc(v@));
            true
        },
        Value::Array(items) => {
            if items.len() as u64 >= 0x1_0000_0000 {
                return false;
            }
            let ghost vs = v@->Array_0;
            push_header(out, items.len() as u64, 0x90, 16, 0, 0xdc, 0xdd);
            let ghost start = out@;
            let mut i: usize = 0;
            assert(vs.subrange(0, 0) =~= Seq::<Val>::empty());
            while i < items.len()
                invariant
                    *v is Array,
                    v->Array_0 == *items,
                    v@ == Val::Array(vs),
                    i <= items@.len(),
                    vs.len() == items@.len(),
                    forall|j: int| 0 <= j < items@.len() ==> vs[j] == #[trigger] items@[j]@,
                    forall|j: int| 0 <= j < i ==> encodable(#[trigger] vs[j]),
                    out@ == start + enc_items(vs.subrange(0, i as int)),
                decreases items@.len() - i,
            {
                proof {
                    assert(decreases_to!(*v => v->Array_0));
                    assert(decreases_to!(v->Array_0 => v->Array_0@));
                    assert(decreases_to!(v->Array_0@ => v->Array_0@[i as int]));
                }
                let ok = encode_into(&items[i], out);
                if !ok {
                    assert(!encodable(vs[i as int]));
                    return false;
                }
                proof {
                    lemma_enc_items_push(vs.subrange(0, i as int), vs[i as int]);
                    assert(vs.subrange(0, i as int).push(vs[i as int]) =~= vs.subrange(0, i + 1));
                }
                i = i + 1;
            }
            assert(vs.subrange(0, vs.len() as int) =~= vs);
            assert(final(out)@ =~= old(out)@ + enc(v@));
            true
        },
        Value::Record(entries) => {
            proof {
                lemma_view_fields(entries@);
            }
            if entries.len() as u64 >= 0x1_0000_0000 {
                return false;
            }
            let ghost es = v@->Record_0;
            proof {
                lemma_view_fields(entries@);
            }
            push_header(out, entries.len() as u64, 0x80, 16, 0, 0xde, 0xdf);
            let ghost start = out@;
            let mut i: usize = 0;
            assert(es.subrange(0, 0) =~= Seq::<(Seq<char>, Val)>::empty());
            while i < entries.len()
                invariant
                    *v is Record,
                    v->Record_0 == *entries,
                    v@ == Val::Record(es),
                    i <= entries@.len(),
                    es.len() == entries@.len(),
                    forall|j: int|
                        0 <= j < entries@.len() ==> es[j].0 == (#[trigger] entries@[j]).name@
                            && es[j].1 == entries@[j].value@,
                    forall|j: int| 0 <= j < i ==> encode_utf8(#[trigger] es[j].0).len() < 0x1_0000_0000,
                    forall|j: int| 0 <= j < i ==> encodable(#[trigger] es[j].1),
                    out@ == start + enc_entries(es.subrange(0, i as int)),
                decreases entries@.len() - i,
            {
                let ghost before = out@;
                let ok = push_str(out, entries[i].name.as_str());
                if !ok {
                    assert(encode_utf8(es[i as int].0).len() >= 0x1_0000_0000);
                    return false;
                }
                proof {
                    assert(decreases_to!(*v => v->Record_0));
                    assert(decreases_to!(v->Record_0 => v->Record_0@));
                    assert(decreases_to!(v->Record_0@ => v->Record_0@[i as int]));
                    assert(decreases_to!(v->Record_0@[i as int] => v->Record_0@[i as int].value));
                }
                let ok = encode_into(&entries[i].value, out);
                if !ok {
                    assert(!encodable(es[i as int].1));
                    return false;
                }
                proof {
                    lemma_enc_entries_push(es.subrange(0, i as int), es[i as int]);
                    assert(es.subrange(0, i as int).push(es[i as int]) =~= es.subrange(0, i + 1));
                    assert(out@ =~= before + (enc_str(es[i as int].0) + enc(es[i as int].1)));
                    assert(encode_utf8(es[i as int].0).len() < 0x1_0000_0000);
                    assert(encodable(es[i as int].1));
                }
                i = i + 1;
            }
            assert(es.subrange(0, es.len() as int) =~= es);
            assert(final(out)@ =~= old(out)@ + enc(v@));
            true
        },
    }
}

} // verus!

verus! {

/// Relies on std's `str::from_utf8`: it accepts exactly the UTF-8 byte
/// strings, and then gives the text they encode.
#[verifier::external_body]
fn utf8_text(b: &[u8]) -> (r: Option<String>)
    ensures
        r is Some <==> valid_utf8(b@),
        r matches Some(s) ==> s@ == decode_utf8(b@),
{
    match std::str::from_utf8(b) {
        Ok(s) => Some(s.to_string()),
        Err(_) => None,
    }
}

/// The width of the field after marker `m`, as `width` gives it.
fn field_width(m: u8, base: u8, first: usize) -> (w: usize)
    requires
        base <= m,
        first <= 2,
    ensures
        w == width(m, base, first as nat),
{
    let d = m - base;
    if d == 0 {
        first
    } else if d == 1 {
        2 * first
    } else if d == 2 {
        4 * first
    } else {
        8 * first
    }
}

/// A text string of `n` bytes at `off`.
fn decode_str_body(buf: &[u8], pos: usize, off: usize, n: u64) -> (r: Option<(Value, usize)>)
    requires
        pos < off <= buf@.len(),
    ensures
        match r {
            Some((v, end)) => pos < end <= buf@.len() && parse_str_body(
                buf@.subrange(pos as int, buf@.len() as int),
                off - pos,
                n as nat,
            ) == Some((v@, end - pos)),
            None => parse_str_body(
                buf@.subrange(pos as int, buf@.len() as int),
                off - pos,
                n as nat,
            ) is None,
        },
{
    let ghost s = buf@.subrange(pos as int, buf@.len() as int);
    if n > (buf.len() - off) as u64 {
        return None;
    }
    let end = off + n as usize;
    let bytes = vstd::slice::slice_subrange(buf, off, end);
    assert(bytes@ =~= s.subrange(off - pos, off - pos + n));
    match utf8_text(bytes) {
        Some(text) => Some((Value::Str(text), end)),
        None => None,
    }
}

/// A byte string of `n` bytes at `off`.
fn decode_bin_body(buf: &[u8], pos: usize, off: usize, n: u64) -> (r: Option<(Value, usize)>)
    requires
        pos < off <= buf@.len(),
    ensures
        match r {
            Some((v, end)) => pos < end <= buf@.len() && parse_bin_body(
                buf@.subrange(pos as int, buf@.len() as int),
                off - pos,
                n as nat,
            ) == Some((v@, end - pos)),
            None => parse_bin_body(
                buf@.subrange(pos as int, buf@.len() as int),
                off - pos,
                n as nat,
            ) is None,
        },
{
    let ghost s = buf@.subrange(pos as int, buf@.len() as int);
    if n > (buf.len() - off) as u64 {
        return None;
    }
    let end = off + n as usize;
    let bytes = vstd::slice::slice_subrange(buf, off, end);
    assert(bytes@ =~= s.subrange(off - pos, off - pos + n));
    Some((Value::Bin(vstd::slice::slice_to_vec(bytes)), end))
}

/// A signed integer from the two's complement field of `w` bytes that holds
/// `raw`.
fn signed_value(raw: u64, w: usize) -> (v: Value)
    requires
        w == 1 || w == 2 || w == 4 || w == 8,
        raw < limit(w as nat),
    ensures
        v@ == Val::Int(signed(raw as nat, w as nat)),
{
    proof {
        lemma_limits();
    }
    let top: u64 = if w == 1 {
        0xff
    } else if w == 2 {
        0xffff
    } else if w == 4 {
        0xffff_ffff
    } else {
        0xffff_ffff_ffff_ffff
    };
    if raw > top / 2 {
        Value::Int(-((top - raw) as i64) - 1)
    } else {
        Value::UInt(raw)
    }
}

/// Reads the value that starts at `pos`, and the position where it ends.
#[verifier::spinoff_prover]
#[verifier::rlimit(60)]
pub fn decode_at(buf: &[u8], pos: usize) -> (r: Option<(Value, usize)>)
    requires
        pos <= buf@.len(),
    ensures
        match r {
            Some((v, end)) => pos < end <= buf@.len() && parse(
                buf@.subrange(pos as int, buf@.len() as int),
            ) == Some((v@, end - pos)),
            None => parse(buf@.subrange(pos as int, buf@.len() as int)) is None,
        },
    decreases buf@.len() - pos, 0nat,
{
    let ghost s = buf@.subrange(pos as int, buf@.len() as int);
    proof {
        lemma_limits();
    }
    if pos >= buf.len() {
        return None;
    }
    let m = buf[pos];
    assert(s[0] == m);
    let ghost tail = s.subrange(1, s.len() as int);
    assert(tail =~= buf@.subrange(pos + 1, buf@.len() as int));
    if m < 0x80 {
        Some((Value::UInt(m as u64), pos + 1))
    } else if m >= 0xe0 {
        Some((Value::Int(m as i64 - 0x100), pos + 1))
    } else if m < 0x90 {
        match decode_fields(buf, pos + 1, (m - 0x80) as u64) {
            Some((fields, end)) => Some((Value::Record(fields), end)),
            None => None,
        }
    } else if m < 0xa0 {
        match decode_items(buf, pos + 1, (m - 0x90) as u64) {
            Some((items, end)) => {
                assert(models(items@) =~= Value::Array(items)@->Array_0);
                Some((Value::Array(items), end))
            },
            None => None,
        }
    } else if m < 0xc0 {
        decode_str_body(buf, pos, pos + 1, (m - 0xa0) as u64)
    } else if m == 0xc0 {
        Some((Value::Nil, pos + 1))
    } else if m == 0xc2 {
        Some((Value::Bool(false), pos + 1))
    } else if m == 0xc3 {
        Some((Value::Bool(true), pos + 1))
    } else if 0xc4 <= m && m <= 0xc6 {
        let w = field_width(m, 0xc4, 1);
        if w > buf.len() - pos - 1 {
            return None;
        }
        let n = read_be(buf, pos + 1, w);
        assert(s.subrange(1, 1 + w as int) =~= buf@.subrange(pos + 1, pos + 1 + w));
        decode_bin_body(buf, pos, pos + 1 + w, n)
    } else if m == 0xca {
        if 4 > buf.len() - pos - 1 {
            return None;
        }
        let n = read_be(buf, pos + 1, 4);
        assert(s.subrange(1, 5) =~= buf@.subrange(pos + 1, pos + 5));
        proof {
            lemma_be_value_bound(buf@.subrange(pos + 1, pos + 5));
        }
        Some((Value::Float32Bits(n as u32), pos + 5))
    } else if m == 0xcb {
        if 8 > buf.len() - pos - 1 {
            return None;
        }
        let n = read_be(buf, pos + 1, 8);
        assert(s.subrange(1, 9) =~= buf@.subrange(pos + 1, pos + 9));
        Some((Value::Float64Bits(n), pos + 9))
    } else if 0xcc <= m && m <= 0xcf {
        let w = field_width(m, 0xcc, 1);
        if w > buf.len() - pos - 1 {
            return None;
        }
        let n = read_be(buf, pos + 1, w);
        assert(s.subrange(1, 1 + w as int) =~= buf@.subrange(pos + 1, pos + 1 + w));
        Some((Value::UInt(n), pos + 1 + w))
    } else if 0xd0 <= m && m <= 0xd3 {
        let w = field_width(m, 0xd0, 1);
        if w > buf.len() - pos - 1 {
            return None;
        }
        let n = read_be(buf, pos + 1, w);
        assert(s.subrange(1, 1 + w as int) =~= buf@.subrange(pos + 1, pos + 1 + w));
        proof {
            lemma_be_value_bound(buf@.subrange(pos + 1, pos + 1 + w));
        }
        Some((signed_value(n, w), pos + 1 + w))
    } else if 0xd9 <= m && m <= 0xdb {
        let w = field_width(m, 0xd9, 1);
        if w > buf.len() - pos - 1 {
            return None;
        }
        let n = read_be(buf, pos + 1, w);
        assert(s.subrange(1, 1 + w as int) =~= buf@.subrange(pos + 1, pos + 1 + w));
        decode_str_body(buf, pos, pos + 1 + w, n)
    } else if 0xdc <= m && m <= 0xdd {
        let w = field_width(m, 0xdc, 2);
        if w > buf.len() - pos - 1 {
            return None;
        }
        let n = read_be(buf, pos + 1, w);
        assert(s.subrange(1, 1 + w as int) =~= buf@.subrange(pos + 1, pos + 1 + w));
        assert(s.subrange(1 + w as int, s.len() as int) =~= buf@.subrange(
            pos + 1 + w,
            buf@.len() as int,
        ));
        match decode_items(buf, pos + 1 + w, n) {
            Some((items, end)) => {
                assert(models(items@) =~= Value::Array(items)@->Array_0);
                Some((Value::Array(items), end))
            },
            None => None,
        }
    } else if 0xde <= m && m <= 0xdf {
        let w = field_width(m, 0xde, 2);
        if w > buf.len() - pos - 1 {
            return None;
        }
        let n = read_be(buf, pos + 1, w);
        assert(s.subrange(1, 1 + w as int) =~= buf@.subrange(pos + 1, pos + 1 + w));
        assert(s.subrange(1 + w as int, s.len() as int) =~= buf@.subrange(
            pos + 1 + w,
            buf@.len() as int,
        ));
        match decode_fields(buf, pos + 1 + w, n) {
            Some((fields, end)) => Some((Value::Record(fields), end)),
            None => None,
        }
    } else {
        None
    }
}

/// Reads `n` values one after another from `start` on.
fn decode_items(buf: &[u8], start: usize, n: u64) -> (r: Option<(Vec<Value>, usize)>)
    requires
        start <= buf@.len(),
    ensures
        match r {
            Some((items, end)) => start <= end <= buf@.len() && parse_items(
                buf@.subrange(start as int, buf@.len() as int),
                n as nat,
            ) == Some((models(items@), end - start)),
            None => parse_items(buf@.subrange(start as int, buf@.len() as int), n as nat) is None,
        },
    decreases buf@.len() - start, 1nat,
{
    let mut items: Vec<Value> = Vec::new();
    let mut cur = start;
    let mut i: u64 = 0;
    let ghost whole = buf@.subrange(start as int, buf@.len() as int);
    assert(buf@.subrange(cur as int, buf@.len() as int) =~= whole);
    assert(models(items@) =~= Seq::<Val>::empty());
    assert(Seq::<Val>::empty() + Seq::<Val>::empty() =~= Seq::<Val>::empty());
    while i < n
        invariant
            start <= cur <= buf@.len(),
            i <= n,
            whole == buf@.subrange(start as int, buf@.len() as int),
            parse_items(whole, n as nat) == match parse_items(
                buf@.subrange(cur as int, buf@.len() as int),
                (n - i) as nat,
            ) {
                Some((rest, k)) => Some((models(items@) + rest, cur - start + k)),
                None => None,
            },
        decreases n - i,
    {
        let ghost t = buf@.subrange(cur as int, buf@.len() as int);
        match decode_at(buf, cur) {
            Some((v, end)) => {
                let ghost k = end - cur;
                assert(t.subrange(k, t.len() as int) =~= buf@.subrange(end as int, buf@.len() as int));
                let ghost before = models(items@);
                items.push(v);
                assert(models(items@) =~= before.push(v@));
                proof {
                    match parse_items(
                        buf@.subrange(end as int, buf@.len() as int),
                        (n - i - 1) as nat,
                    ) {
                        Some((rest, k2)) => {
                            assert(before + (seq![v@] + rest) =~= before.push(v@) + rest);
                        },
                        None => {},
                    }
                }
                cur = end;
                i = i + 1;
            },
            None => {
                return None;
            },
        }
    }
    assert(parse_items(buf@.subrange(cur as int, buf@.len() as int), 0) == Some((Seq::<Val>::empty(), 0int)));
    assert(models(items@) + Seq::<Val>::empty() =~= models(items@));
    Some((items, cur))
}

/// Reads `n` map entries one after another from `start` on.
fn decode_fields(buf: &[u8], start: usize, n: u64) -> (r: Option<(Vec<Field>, usize)>)
    requires
        start <= buf@.len(),
    ensures
        match r {
            Some((fields, end)) => start <= end <= buf@.len() && parse_entries(
                buf@.subrange(start as int, buf@.len() as int),
                n as nat,
            ) == Some((view_fields(fields@), end - start)),
            None => parse_entries(buf@.subrange(start as int, buf@.len() as int), n as nat) is None,
        },
    decreases buf@.len() - start, 1nat,
{
    let mut fields: Vec<Field> = Vec::new();
    let mut cur = start;
    let mut i: u64 = 0;
    let ghost whole = buf@.subrange(start as int, buf@.len() as int);
    assert(buf@.subrange(cur as int, buf@.len() as int) =~= whole);
    assert(view_fields(fields@) =~= Seq::<(Seq<char>, Val)>::empty());
    assert(Seq::<(Seq<char>, Val)>::empty() + Seq::<(Seq<char>, Val)>::empty() =~= Seq::<
        (Seq<char>, Val),
    >::empty());
    while i < n
        invariant
            start <= cur <= buf@.len(),
            i <= n,
            whole == buf@.subrange(start as int, buf@.len() as int),
            parse_entries(whole, n as nat) == match parse_entries(
                buf@.subrange(cur as int, buf@.len() as int),
                (n - i) as nat,
            ) {
                Some((rest, k)) => Some((view_fields(fields@) + rest, cur - start + k)),
                None => None,
            },
        decreases n - i,
    {
        let ghost t = buf@.subrange(cur as int, buf@.len() as int);
        let (key, mid) = match decode_at(buf, cur) {
            Some((Value::Str(key), mid)) => (key, mid),
            _ => {
                return None;
            },
        };
        let ghost t1 = t.subrange(mid - cur, t.len() as int);
        assert(t1 =~= buf@.subrange(mid as int, buf@.len() as int));
        let (v, end) = match decode_at(buf, mid) {
            Some(p) => p,
            None => {
                return None;
            },
        };
        assert(t1.subrange(end - mid, t1.len() as int) =~= buf@.subrange(
            end as int,
            buf@.len() as int,
        ));
        let ghost before = view_fields(fields@);
        let ghost entry = (key@, v@);
        let f = Field { name: key, value: v };
        proof {
            lemma_view_fields_push(fields@, f);
        }
        fields.push(f);
        proof {
            match parse_entries(buf@.subrange(end as int, buf@.len() as int), (n - i - 1) as nat) {
                Some((rest, k3)) => {
                    assert(before + (seq![entry] + rest) =~= before.push(entry) + rest);
                },
                None => {},
            }
        }
        cur = end;
        i = i + 1;
    }
    assert(parse_entries(buf@.subrange(cur as int, buf@.len() as int), 0) == Some(
        (Seq::<(Seq<char>, Val)>::empty(), 0int),
    ));
    assert(view_fields(fields@) + Seq::<(Seq<char>, Val)>::empty() =~= view_fields(fields@));
    Some((fields, cur))
}

/// Reads an envelope: the bytes must hold exactly one value.
pub fn decode_value(buf: &[u8]) -> (r: Result<Value, DecodeError>)
    ensures
        match r {
            Ok(v) => parse_all(buf@) == Some(v@),
            Err(e) => parse_all(buf@) is None && e == DecodeError::Malformed,
        },
{
    assert(buf@.subrange(0, buf@.len() as int) =~= buf@);
    match decode_at(buf, 0) {
        Some((v, end)) => if end == buf.len() {
            Ok(v)
        } else {
            Err(DecodeError::Malformed)
        },
        None => Err(DecodeError::Malformed),
    }
}

/// Writes an envelope: `Ok` exactly when the format can hold the value.
pub fn encode_value(v: &Value) -> (r: Result<Vec<u8>, EncodeError>)
    ensures
        match r {
            Ok(b) => encodable(v@) && b@ == enc(v@),
            Err(_) => !encodable(v@),
        },
{
    let mut out: Vec<u8> = Vec::new();
    if encode_into(v, &mut out) {
        assert(out@ =~= Seq::<u8>::empty() + enc(v@));
        Ok(out)
    } else {
        Err(EncodeError::TooLong)
    }
}

} // verus!
