//! The v3 byte encoding of entity keys.
//!
//! Byte layout:
//! - num_keys: u32 LE
//! - for each key, in sorted order of the key names: key_type u32 LE (the
//!   code of `STRING`), key_len u32 LE, the key name's UTF-8 bytes
//! - for each value, in the same order: val_type u32 LE, val_len u32 LE, the
//!   value bytes
use vstd::bytes::*;
use vstd::prelude::*;
use vstd::slice::*;
use vstd::utf8::*;

use crate::strings::{push_bytes, string_from_utf8, utf8_error_message};
use crate::types::EntityKey;
use crate::value_type::{ValueType, value_type_code, value_type_of_code};

verus! {

broadcast use vstd::utf8::group_utf8_lib;

/// One join key of an entity key together with its value and value type.
pub type KeyTriple = (Seq<char>, Seq<u8>, ValueType);

/// The little-endian bytes of `x` taken modulo 2^32.
pub open spec fn le32(x: int) -> Seq<u8> {
    spec_u32_to_le_bytes(x as u32)
}

/// The encoding of one key name.
pub open spec fn key_entry(k: Seq<char>) -> Seq<u8> {
    le32(value_type_code(ValueType::String) as int) + le32(encode_utf8(k).len() as int)
        + encode_utf8(k)
}

/// The encoding of one value.
pub open spec fn value_entry(v: Seq<u8>, t: ValueType) -> Seq<u8> {
    le32(value_type_code(t) as int) + le32(v.len() as int) + v
}

/// The key section: the encodings of the key names, in order.
pub open spec fn key_section(ks: Seq<Seq<char>>) -> Seq<u8>
    decreases ks.len(),
{
    if ks.len() == 0 {
        Seq::empty()
    } else {
        key_entry(ks[0]) + key_section(ks.drop_first())
    }
}

/// The value section: the encodings of the values, in order.
pub open spec fn value_section(vs: Seq<(Seq<u8>, ValueType)>) -> Seq<u8>
    decreases vs.len(),
{
    if vs.len() == 0 {
        Seq::empty()
    } else {
        value_entry(vs[0].0, vs[0].1) + value_section(vs.drop_first())
    }
}

/// Lexicographic order on byte strings (the order of `str` and `String`).
pub open spec fn bytes_le(a: Seq<u8>, b: Seq<u8>) -> bool
    decreases a.len(),
{
    if a.len() == 0 {
        true
    } else if b.len() == 0 {
        false
    } else if a[0] < b[0] {
        true
    } else if a[0] > b[0] {
        false
    } else {
        bytes_le(a.drop_first(), b.drop_first())
    }
}

/// The sort key of a triple: the UTF-8 bytes of its key name.
pub open spec fn triple_key(p: KeyTriple) -> Seq<u8> {
    encode_utf8(p.0)
}

/// Inserts `x` into `t` after every element whose key is not greater than
/// `x`'s, scanning from the back; applied to a sorted `t` this is the step of
/// a stable insertion sort.
pub open spec fn insert_sorted(t: Seq<KeyTriple>, x: KeyTriple) -> Seq<KeyTriple>
    decreases t.len(),
{
    if t.len() == 0 || bytes_le(triple_key(t.last()), triple_key(x)) {
        t.push(x)
    } else {
        insert_sorted(t.drop_last(), x).push(t.last())
    }
}

/// The stable sort of the triples by key name.
pub open spec fn sort_triples(s: Seq<KeyTriple>) -> Seq<KeyTriple>
    decreases s.len(),
{
    if s.len() == 0 {
        s
    } else {
        insert_sorted(sort_triples(s.drop_last()), s.last())
    }
}

/// The key names of a sequence of triples.
pub open spec fn triple_keys(s: Seq<KeyTriple>) -> Seq<Seq<char>> {
    s.map_values(|p: KeyTriple| p.0)
}

/// The values and value types of a sequence of triples.
pub open spec fn triple_values(s: Seq<KeyTriple>) -> Seq<(Seq<u8>, ValueType)> {
    s.map_values(|p: KeyTriple| (p.1, p.2))
}

/// The triples of an entity key: its join keys, values and value types taken
/// together, as far as all three run.
pub open spec fn triples_of(ek: EntityKey) -> Seq<KeyTriple> {
    let n = if ek.join_keys@.len() <= ek.value_types@.len() {
        ek.join_keys@.len()
    } else {
        ek.value_types@.len()
    };
    let n = if n <= ek.entity_values@.len() {
        n
    } else {
        ek.entity_values@.len()
    };
    Seq::new(n, |i: int| (ek.join_keys@[i]@, ek.entity_values@[i]@, ek.value_types@[i]))
}

/// The v3 encoding of a sequence of triples: their count, then the key section
/// and the value section, both in the sorted order of the key names.
pub open spec fn serialized_triples(ts: Seq<KeyTriple>) -> Seq<u8> {
    let s = sort_triples(ts);
    le32(s.len() as int) + key_section(triple_keys(s)) + value_section(triple_values(s))
}

/// The v3 encoding of an entity key.
pub open spec fn serialized_entity_key(ek: EntityKey) -> Seq<u8> {
    serialized_triples(triples_of(ek))
}

/// The key-name prefix of the v3 encoding for the given key names.
pub open spec fn serialized_key_prefix(keys: Seq<Seq<char>>) -> Seq<u8> {
    let ts = keys.map_values(|k: Seq<char>| (k, Seq::<u8>::empty(), ValueType::String));
    le32(keys.len() as int) + key_section(triple_keys(sort_triples(ts)))
}

/// The 32-bit little-endian integer at `off`.
pub open spec fn u32_at(b: Seq<u8>, off: int) -> u32 {
    spec_u32_from_le_bytes(b.subrange(off, off + 4))
}

/// Parses `count` key names starting at `off`; gives the names and the offset
/// after them, or the message of the first error.
pub open spec fn parse_keys(b: Seq<u8>, off: int, count: nat) -> Result<
    (Seq<Seq<char>>, int),
    Seq<char>,
>
    decreases count,
{
    if count == 0 {
        Ok((Seq::empty(), off))
    } else if off + 8 > b.len() {
        Err("Unexpected end of key section"@)
    } else {
        let klen = u32_at(b, off + 4) as int;
        if off + 8 + klen > b.len() {
            Err("Key name truncated"@)
        } else {
            let kb = b.subrange(off + 8, off + 8 + klen);
            if !valid_utf8(kb) {
                Err(utf8_error_message(kb))
            } else {
                match parse_keys(b, off + 8 + klen, (count - 1) as nat) {
                    Ok((ks, end)) => Ok((seq![decode_utf8(kb)] + ks, end)),
                    Err(m) => Err(m),
                }
            }
        }
    }
}

/// The value type that a raw wire code stands for; unknown codes stand for
/// `Invalid`.
pub open spec fn value_type_of_raw(raw: u32) -> ValueType {
    match value_type_of_code(raw as i32) {
        Some(t) => t,
        None => ValueType::Invalid,
    }
}

/// Parses `count` values starting at `off`; gives the values, their value
/// types and the offset after them, or the message of the first error.
pub open spec fn parse_values(b: Seq<u8>, off: int, count: nat) -> Result<
    (Seq<Seq<u8>>, Seq<ValueType>, int),
    Seq<char>,
>
    decreases count,
{
    if count == 0 {
        Ok((Seq::empty(), Seq::empty(), off))
    } else if off + 8 > b.len() {
        Err("Unexpected end of value section"@)
    } else {
        let vt = value_type_of_raw(u32_at(b, off));
        let vlen = u32_at(b, off + 4) as int;
        if off + 8 + vlen > b.len() {
            Err("Value truncated"@)
        } else {
            let vb = b.subrange(off + 8, off + 8 + vlen);
            match parse_values(b, off + 8 + vlen, (count - 1) as nat) {
                Ok((vs, ts, end)) => Ok((seq![vb] + vs, seq![vt] + ts, end)),
                Err(m) => Err(m),
            }
        }
    }
}

/// What decoding a v3 entity key gives: its key names, values and value types
/// (trailing bytes are ignored), or the message of the first error.
pub open spec fn deserialized_entity_key(b: Seq<u8>) -> Result<
    (Seq<Seq<char>>, Seq<Seq<u8>>, Seq<ValueType>),
    Seq<char>,
> {
    if b.len() < 4 {
        Err("Entity key too short"@)
    } else {
        let n = u32_at(b, 0) as nat;
        match parse_keys(b, 4, n) {
            Err(m) => Err(m),
            Ok((ks, off)) => match parse_values(b, off, n) {
                Err(m) => Err(m),
                Ok((vs, ts, _)) => Ok((ks, vs, ts)),
            },
        }
    }
}

/// An entity key read back from bytes has exactly the parsed names, values and
/// types.
pub open spec fn entity_key_matches(
    ek: EntityKey,
    parsed: (Seq<Seq<char>>, Seq<Seq<u8>>, Seq<ValueType>),
) -> bool {
    &&& ek.join_keys@.map_values(|s: String| s@) == parsed.0
    &&& ek.entity_values@.map_values(|v: Vec<u8>| v@) == parsed.1
    &&& ek.value_types@ == parsed.2
}

// ---------------------------------------------------------------------------
//  Lemmas on the sections and the sort
// ---------------------------------------------------------------------------

/// Appending a key name appends its entry to the key section.
pub proof fn lemma_key_section_push(ks: Seq<Seq<char>>, k: Seq<char>)
    ensures
        key_section(ks.push(k)) == key_section(ks) + key_entry(k),
    decreases ks.len(),
{
    if ks.len() == 0 {
        assert(ks.push(k).drop_first() =~= Seq::<Seq<char>>::empty());
        assert(ks.push(k)[0] == k);
        assert(key_section(ks.push(k).drop_first()) == Seq::<u8>::empty());
        assert(key_section(ks) == Seq::<u8>::empty());
        assert(key_section(ks.push(k)) =~= key_section(ks) + key_entry(k));
    } else {
        assert(ks.push(k).drop_first() =~= ks.drop_first().push(k));
        lemma_key_section_push(ks.drop_first(), k);
        assert(key_section(ks.push(k)) =~= key_section(ks) + key_entry(k));
    }
}

/// Appending a value appends its entry to the value section.
pub proof fn lemma_value_section_push(vs: Seq<(Seq<u8>, ValueType)>, v: (Seq<u8>, ValueType))
    ensures
        value_section(vs.push(v)) == value_section(vs) + value_entry(v.0, v.1),
    decreases vs.len(),
{
    if vs.len() == 0 {
        assert(vs.push(v).drop_first() =~= Seq::<(Seq<u8>, ValueType)>::empty());
        assert(vs.push(v)[0] == v);
        assert(value_section(vs.push(v).drop_first()) == Seq::<u8>::empty());
        assert(value_section(vs) == Seq::<u8>::empty());
        assert(value_section(vs.push(v)) =~= value_section(vs) + value_entry(v.0, v.1));
    } else {
        assert(vs.push(v).drop_first() =~= vs.drop_first().push(v));
        lemma_value_section_push(vs.drop_first(), v);
        assert(value_section(vs.push(v)) =~= value_section(vs) + value_entry(v.0, v.1));
    }
}

/// Insertion keeps the elements and adds one.
pub proof fn lemma_insert_sorted_len(t: Seq<KeyTriple>, x: KeyTriple)
    ensures
        insert_sorted(t, x).len() == t.len() + 1,
    decreases t.len(),
{
    if t.len() > 0 && !bytes_le(triple_key(t.last()), triple_key(x)) {
        lemma_insert_sorted_len(t.drop_last(), x);
    }
}

/// Sorting keeps the length.
pub proof fn lemma_sort_triples_len(s: Seq<KeyTriple>)
    ensures
        sort_triples(s).len() == s.len(),
    decreases s.len(),
{
    if s.len() > 0 {
        lemma_sort_triples_len(s.drop_last());
        lemma_insert_sorted_len(sort_triples(s.drop_last()), s.last());
    }
}

/// Insertion splits the sequence at the point where the scan stops.
pub proof fn lemma_insert_sorted_split(t: Seq<KeyTriple>, x: KeyTriple, p: int)
    requires
        0 <= p <= t.len(),
        p == 0 || bytes_le(triple_key(t[p - 1]), triple_key(x)),
        forall|j: int| p <= j < t.len() ==> !bytes_le(triple_key(#[trigger] t[j]), triple_key(x)),
    ensures
        insert_sorted(t, x) == t.take(p).push(x) + t.skip(p),
    decreases t.len(),
{
    if t.len() == p {
        assert(t.skip(p) =~= Seq::<KeyTriple>::empty());
        assert(t.take(p) =~= t);
        assert(t.take(p).push(x) + t.skip(p) =~= t.push(x));
    } else {
        let init = t.drop_last();
        assert(!bytes_le(triple_key(t[t.len() - 1]), triple_key(x)));
        assert forall|j: int| p <= j < init.len() implies !bytes_le(
            triple_key(#[trigger] init[j]),
            triple_key(x),
        ) by {
            assert(init[j] == t[j]);
        }
        if p > 0 {
            assert(init[p - 1] == t[p - 1]);
        }
        lemma_insert_sorted_split(init, x, p);
        assert(init.take(p) =~= t.take(p));
        assert(t.take(p).push(x) + t.skip(p) =~= (init.take(p).push(x) + init.skip(p)).push(
            t.last(),
        ));
    }
}

/// Parsing the key section of some key names, wherever it stands in a byte
/// string, gives back those names and the offset just after the section.
proof fn lemma_parse_key_section(b: Seq<u8>, off: int, ks: Seq<Seq<char>>)
    requires
        0 <= off,
        off + key_section(ks).len() <= b.len(),
        b.subrange(off, off + key_section(ks).len()) == key_section(ks),
        forall|i: int| 0 <= i < ks.len() ==> encode_utf8(#[trigger] ks[i]).len() <= u32::MAX,
    ensures
        parse_keys(b, off, ks.len()) == Ok::<(Seq<Seq<char>>, int), Seq<char>>(
            (ks, off + key_section(ks).len()),
        ),
    decreases ks.len(),
{
    lemma_auto_spec_u32_to_from_le_bytes();
    if ks.len() == 0 {
        assert(ks =~= Seq::<Seq<char>>::empty());
    } else {
        let k = ks[0];
        let rest = ks.drop_first();
        let enc = encode_utf8(k);
        let l = enc.len() as int;
        let sec = key_section(ks);
        assert(sec == key_entry(k) + key_section(rest));
        let e = key_entry(k);
        assert(e.len() == 8 + l);
        assert(b.subrange(off + 4, off + 8) =~= sec.subrange(4, 8));
        assert(sec.subrange(4, 8) =~= le32(l));
        assert((l as u32) as int == l);
        assert(u32_at(b, off + 4) as int == l);
        assert(b.subrange(off + 8, off + 8 + l) =~= sec.subrange(8, 8 + l));
        assert(sec.subrange(8, 8 + l) =~= enc);
        assert forall|i: int| 0 <= i < rest.len() implies encode_utf8(#[trigger] rest[i]).len()
            <= u32::MAX by {
            assert(rest[i] == ks[i + 1]);
        }
        let off2 = off + 8 + l;
        assert(b.subrange(off2, off2 + key_section(rest).len()) =~= sec.subrange(
            8 + l,
            sec.len() as int,
        ));
        assert(sec.subrange(8 + l, sec.len() as int) =~= key_section(rest));
        lemma_parse_key_section(b, off2, rest);
        assert(b.subrange(off + 8, off + 8 + l) == enc);
        assert(valid_utf8(enc));
        assert(decode_utf8(enc) == k);
        assert(seq![decode_utf8(enc)] + rest =~= ks);
        assert(off2 + key_section(rest).len() == off + sec.len());
    }
}

/// Parsing the value section of some values, wherever it stands in a byte
/// string, gives back those values and types and the offset just after it.
proof fn lemma_parse_value_section(b: Seq<u8>, off: int, vs: Seq<(Seq<u8>, ValueType)>)
    requires
        0 <= off,
        off + value_section(vs).len() <= b.len(),
        b.subrange(off, off + value_section(vs).len()) == value_section(vs),
        forall|i: int| 0 <= i < vs.len() ==> (#[trigger] vs[i]).0.len() <= u32::MAX,
    ensures
        parse_values(b, off, vs.len()) == Ok::<(Seq<Seq<u8>>, Seq<ValueType>, int), Seq<char>>(
            (
                vs.map_values(|v: (Seq<u8>, ValueType)| v.0),
                vs.map_values(|v: (Seq<u8>, ValueType)| v.1),
                off + value_section(vs).len(),
            ),
        ),
    decreases vs.len(),
{
    lemma_auto_spec_u32_to_from_le_bytes();
    if vs.len() == 0 {
        assert(vs.map_values(|v: (Seq<u8>, ValueType)| v.0) =~= Seq::<Seq<u8>>::empty());
        assert(vs.map_values(|v: (Seq<u8>, ValueType)| v.1) =~= Seq::<ValueType>::empty());
    } else {
        let (v, t) = vs[0];
        let rest = vs.drop_first();
        let l = v.len() as int;
        let sec = value_section(vs);
        assert(sec == value_entry(v, t) + value_section(rest));
        assert(b.subrange(off, off + 4) =~= sec.subrange(0, 4));
        assert(sec.subrange(0, 4) =~= le32(value_type_code(t) as int));
        crate::value_type::lemma_value_type_code_roundtrip(t);
        assert(0 <= value_type_code(t) <= 48);
        assert(((value_type_code(t) as int) as u32) as i32 == value_type_code(t));
        assert(value_type_of_raw(u32_at(b, off)) == t);
        assert(b.subrange(off + 4, off + 8) =~= sec.subrange(4, 8));
        assert(sec.subrange(4, 8) =~= le32(l));
        assert((l as u32) as int == l);
        assert(u32_at(b, off + 4) as int == l);
        assert(b.subrange(off + 8, off + 8 + l) =~= sec.subrange(8, 8 + l));
        assert(sec.subrange(8, 8 + l) =~= v);
        assert forall|i: int| 0 <= i < rest.len() implies (#[trigger] rest[i]).0.len()
            <= u32::MAX by {
            assert(rest[i] == vs[i + 1]);
        }
        let off2 = off + 8 + l;
        assert(b.subrange(off2, off2 + value_section(rest).len()) =~= sec.subrange(
            8 + l,
            sec.len() as int,
        ));
        assert(sec.subrange(8 + l, sec.len() as int) =~= value_section(rest));
        lemma_parse_value_section(b, off2, rest);
        assert(seq![v] + rest.map_values(|x: (Seq<u8>, ValueType)| x.0) =~= vs.map_values(
            |x: (Seq<u8>, ValueType)| x.0,
        ));
        assert(seq![t] + rest.map_values(|x: (Seq<u8>, ValueType)| x.1) =~= vs.map_values(
            |x: (Seq<u8>, ValueType)| x.1,
        ));
    }
}

/// Every element of an insertion result is the inserted element or one of the
/// elements inserted into.
proof fn lemma_insert_sorted_members(t: Seq<KeyTriple>, x: KeyTriple)
    ensures
        forall|i: int|
            0 <= i < insert_sorted(t, x).len() ==> #[trigger] insert_sorted(t, x)[i] == x
                || t.contains(insert_sorted(t, x)[i]),
    decreases t.len(),
{
    lemma_insert_sorted_len(t, x);
    if t.len() > 0 && !bytes_le(triple_key(t.last()), triple_key(x)) {
        lemma_insert_sorted_members(t.drop_last(), x);
        let r = insert_sorted(t, x);
        assert forall|i: int| 0 <= i < r.len() implies #[trigger] r[i] == x || t.contains(r[i]) by {
            if i == r.len() - 1 {
                assert(t[t.len() - 1] == r[i]);
            } else {
                let ri = insert_sorted(t.drop_last(), x)[i];
                assert(r[i] == ri);
                if ri != x {
                    let j = choose|j: int| 0 <= j < t.drop_last().len() && t.drop_last()[j] == ri;
                    assert(t[j] == ri);
                }
            }
        }
    } else {
        let r = insert_sorted(t, x);
        assert forall|i: int| 0 <= i < r.len() implies #[trigger] r[i] == x || t.contains(r[i]) by {
            if i < t.len() {
                assert(t[i] == r[i]);
            }
        }
    }
}

/// Every element of a sorted sequence is an element of the input.
proof fn lemma_sort_triples_members(s: Seq<KeyTriple>)
    ensures
        forall|i: int|
            0 <= i < sort_triples(s).len() ==> s.contains(#[trigger] sort_triples(s)[i]),
    decreases s.len(),
{
    lemma_sort_triples_len(s);
    if s.len() > 0 {
        let init = s.drop_last();
        lemma_sort_triples_members(init);
        lemma_insert_sorted_members(sort_triples(init), s.last());
        let r = sort_triples(s);
        assert forall|i: int| 0 <= i < r.len() implies s.contains(#[trigger] r[i]) by {
            if r[i] == s.last() {
                assert(s[s.len() - 1] == r[i]);
            } else {
                let j = choose|j: int|
                    0 <= j < sort_triples(init).len() && sort_triples(init)[j] == r[i];
                let k = choose|k: int| 0 <= k < init.len() && init[k] == sort_triples(init)[j];
                assert(s[k] == r[i]);
            }
        }
    }
}

/// The entity keys whose v3 encoding can be read back: at most 2^32 - 1
/// keys, and no key name (in UTF-8) or value longer than 2^32 - 1 bytes.
pub open spec fn fits_v3(ek: EntityKey) -> bool {
    let ts = triples_of(ek);
    &&& ts.len() <= u32::MAX
    &&& forall|i: int| 0 <= i < ts.len() ==> encode_utf8((#[trigger] ts[i]).0).len() <= u32::MAX
    &&& forall|i: int| 0 <= i < ts.len() ==> (#[trigger] ts[i]).1.len() <= u32::MAX
}

/// Decoding the v3 encoding of an entity key gives back its join keys,
/// values and value types, in the sorted order of the key names, for every
/// entity key whose lengths fit the format's 32-bit fields.
pub proof fn lemma_entity_key_roundtrip(ek: EntityKey)
    requires
        fits_v3(ek),
    ensures
        deserialized_entity_key(serialized_entity_key(ek)) == Ok::<
            (Seq<Seq<char>>, Seq<Seq<u8>>, Seq<ValueType>),
            Seq<char>,
        >(
            (
                triple_keys(sort_triples(triples_of(ek))),
                sort_triples(triples_of(ek)).map_values(|p: KeyTriple| p.1),
                sort_triples(triples_of(ek)).map_values(|p: KeyTriple| p.2),
            ),
        ),
{
    lemma_auto_spec_u32_to_from_le_bytes();
    let ts = triples_of(ek);
    let s = sort_triples(ts);
    lemma_sort_triples_len(ts);
    lemma_sort_triples_members(ts);
    let b = serialized_entity_key(ek);
    let ks = triple_keys(s);
    let vs = triple_values(s);
    let ksec = key_section(ks);
    let vsec = value_section(vs);
    assert(b == le32(s.len() as int) + ksec + vsec);
    assert(b.subrange(0, 4) =~= le32(s.len() as int));
    assert(u32_at(b, 0) as int == s.len());
    assert forall|i: int| 0 <= i < ks.len() implies encode_utf8(#[trigger] ks[i]).len()
        <= u32::MAX by {
        assert(s.contains(s[i]));
        let j = choose|j: int| 0 <= j < ts.len() && ts[j] == s[i];
        assert(encode_utf8(ts[j].0).len() <= u32::MAX);
    }
    assert forall|i: int| 0 <= i < vs.len() implies (#[trigger] vs[i]).0.len() <= u32::MAX by {
        assert(s.contains(s[i]));
        let j = choose|j: int| 0 <= j < ts.len() && ts[j] == s[i];
        assert(ts[j].1.len() <= u32::MAX);
    }
    assert(b.subrange(4, 4 + ksec.len() as int) =~= ksec);
    lemma_parse_key_section(b, 4, ks);
    let off: int = 4 + ksec.len() as int;
    assert(b.subrange(off, off + vsec.len() as int) =~= vsec);
    lemma_parse_value_section(b, off, vs);
    assert(vs.map_values(|v: (Seq<u8>, ValueType)| v.0) =~= s.map_values(|p: KeyTriple| p.1));
    assert(vs.map_values(|v: (Seq<u8>, ValueType)| v.1) =~= s.map_values(|p: KeyTriple| p.2));
}

/// The lexicographic order on byte strings is total.
pub proof fn lemma_bytes_le_total(a: Seq<u8>, b: Seq<u8>)
    ensures
        bytes_le(a, b) || bytes_le(b, a),
    decreases a.len(),
{
    if a.len() > 0 && b.len() > 0 && a[0] == b[0] {
        lemma_bytes_le_total(a.drop_first(), b.drop_first());
    }
}

/// The lexicographic order on byte strings is transitive.
pub proof fn lemma_bytes_le_trans(a: Seq<u8>, b: Seq<u8>, c: Seq<u8>)
    requires
        bytes_le(a, b),
        bytes_le(b, c),
    ensures
        bytes_le(a, c),
    decreases a.len(),
{
    if a.len() > 0 && b.len() > 0 && c.len() > 0 && a[0] == b[0] && b[0] == c[0] {
        lemma_bytes_le_trans(a.drop_first(), b.drop_first(), c.drop_first());
    }
}

/// The triples are in non-decreasing order of key name.
pub open spec fn triples_sorted(t: Seq<KeyTriple>) -> bool {
    forall|i: int, j: int|
        0 <= i < j < t.len() ==> bytes_le(triple_key(#[trigger] t[i]), triple_key(#[trigger] t[j]))
}

/// Insertion into a sorted sequence keeps it sorted and adds the element to
/// its multiset.
proof fn lemma_insert_sorted_sorted(t: Seq<KeyTriple>, x: KeyTriple)
    requires
        triples_sorted(t),
    ensures
        triples_sorted(insert_sorted(t, x)),
        insert_sorted(t, x).to_multiset() == t.to_multiset().insert(x),
    decreases t.len(),
{
    broadcast use vstd::seq_lib::group_to_multiset_ensures;
    broadcast use vstd::seq_lib::to_multiset_build;
    lemma_insert_sorted_len(t, x);
    lemma_insert_sorted_members(t, x);
    if t.len() == 0 || bytes_le(triple_key(t.last()), triple_key(x)) {
        let r = t.push(x);
        assert forall|i: int, j: int| 0 <= i < j < r.len() implies bytes_le(
            triple_key(#[trigger] r[i]),
            triple_key(#[trigger] r[j]),
        ) by {
            if j == r.len() - 1 {
                if i < t.len() - 1 {
                    assert(bytes_le(triple_key(t[i]), triple_key(t[t.len() - 1])));
                    lemma_bytes_le_trans(triple_key(t[i]), triple_key(t.last()), triple_key(x));
                }
            } else {
                assert(r[i] == t[i] && r[j] == t[j]);
            }
        }
    } else {
        let init = t.drop_last();
        let last = t.last();
        assert(triples_sorted(init)) by {
            assert forall|i: int, j: int| 0 <= i < j < init.len() implies bytes_le(
                triple_key(#[trigger] init[i]),
                triple_key(#[trigger] init[j]),
            ) by {
                assert(init[i] == t[i] && init[j] == t[j]);
            }
        }
        lemma_insert_sorted_sorted(init, x);
        lemma_insert_sorted_members(init, x);
        lemma_insert_sorted_len(init, x);
        lemma_bytes_le_total(triple_key(last), triple_key(x));
        let m = insert_sorted(init, x);
        let r = m.push(last);
        assert forall|i: int, j: int| 0 <= i < j < r.len() implies bytes_le(
            triple_key(#[trigger] r[i]),
            triple_key(#[trigger] r[j]),
        ) by {
            if j == r.len() - 1 {
                assert(r[i] == m[i]);
                if m[i] != x {
                    let k = choose|k: int| 0 <= k < init.len() && init[k] == m[i];
                    assert(t[k] == m[i]);
                    assert(bytes_le(triple_key(t[k]), triple_key(t[t.len() - 1])));
                }
            } else {
                assert(r[i] == m[i] && r[j] == m[j]);
            }
        }
        assert(t =~= init.push(last));
        assert(t.to_multiset() =~= init.to_multiset().insert(last));
    }
}

/// The sort orders the triples by key name and keeps each of them: its result
/// is sorted and has the same multiset of triples.
pub proof fn lemma_sort_triples_sorted(s: Seq<KeyTriple>)
    ensures
        triples_sorted(sort_triples(s)),
        sort_triples(s).to_multiset() == s.to_multiset(),
    decreases s.len(),
{
    broadcast use vstd::seq_lib::group_to_multiset_ensures;
    broadcast use vstd::seq_lib::to_multiset_build;
    if s.len() > 0 {
        lemma_sort_triples_sorted(s.drop_last());
        lemma_insert_sorted_sorted(sort_triples(s.drop_last()), s.last());
        assert(s =~= s.drop_last().push(s.last()));
    } else {
        assert(sort_triples(s).to_multiset() =~= s.to_multiset());
    }
}

/// Inserting triples with the same key names, into sequences with the same key
/// names, gives sequences with the same key names.
proof fn lemma_insert_sorted_keys(t: Seq<KeyTriple>, u: Seq<KeyTriple>, x: KeyTriple, y: KeyTriple)
    requires
        triple_keys(t) == triple_keys(u),
        x.0 == y.0,
    ensures
        triple_keys(insert_sorted(t, x)) == triple_keys(insert_sorted(u, y)),
    decreases t.len(),
{
    assert(t.len() == triple_keys(t).len() && u.len() == triple_keys(u).len());
    if t.len() > 0 {
        assert(t.last().0 == triple_keys(t)[t.len() - 1]);
        assert(u.last().0 == triple_keys(u)[u.len() - 1]);
        assert(triple_keys(t.drop_last()) =~= triple_keys(t).drop_last());
        assert(triple_keys(u.drop_last()) =~= triple_keys(u).drop_last());
    }
    if t.len() == 0 || bytes_le(triple_key(t.last()), triple_key(x)) {
        assert(triple_keys(t.push(x)) =~= triple_keys(t).push(x.0));
        assert(triple_keys(u.push(y)) =~= triple_keys(u).push(y.0));
    } else {
        lemma_insert_sorted_keys(t.drop_last(), u.drop_last(), x, y);
        let a = insert_sorted(t.drop_last(), x);
        let b = insert_sorted(u.drop_last(), y);
        assert(triple_keys(a.push(t.last())) =~= triple_keys(a).push(t.last().0));
        assert(triple_keys(b.push(u.last())) =~= triple_keys(b).push(u.last().0));
    }
}

/// The sorted order of the key names does not depend on the values.
proof fn lemma_sort_triples_keys(s: Seq<KeyTriple>, u: Seq<KeyTriple>)
    requires
        triple_keys(s) == triple_keys(u),
    ensures
        triple_keys(sort_triples(s)) == triple_keys(sort_triples(u)),
    decreases s.len(),
{
    assert(s.len() == triple_keys(s).len() && u.len() == triple_keys(u).len());
    if s.len() > 0 {
        assert(triple_keys(s.drop_last()) =~= triple_keys(s).drop_last());
        assert(triple_keys(u.drop_last()) =~= triple_keys(u).drop_last());
        lemma_sort_triples_keys(s.drop_last(), u.drop_last());
        assert(s.last().0 == triple_keys(s)[s.len() - 1]);
        assert(u.last().0 == triple_keys(u)[u.len() - 1]);
        lemma_insert_sorted_keys(
            sort_triples(s.drop_last()),
            sort_triples(u.drop_last()),
            s.last(),
            u.last(),
        );
    } else {
        assert(triple_keys(s) =~= triple_keys(u));
    }
}

/// The lexicographic order on byte strings is antisymmetric.
pub proof fn lemma_bytes_le_antisymmetric(a: Seq<u8>, b: Seq<u8>)
    requires
        bytes_le(a, b),
        bytes_le(b, a),
    ensures
        a == b,
    decreases a.len(),
{
    if a.len() > 0 && b.len() > 0 {
        lemma_bytes_le_antisymmetric(a.drop_first(), b.drop_first());
        assert(a =~= seq![a[0]] + a.drop_first());
        assert(b =~= seq![b[0]] + b.drop_first());
    } else {
        assert(a =~= b);
    }
}

/// The lexicographic order on byte strings is reflexive.
proof fn lemma_bytes_le_reflexive(a: Seq<u8>)
    ensures
        bytes_le(a, a),
    decreases a.len(),
{
    if a.len() > 0 {
        lemma_bytes_le_reflexive(a.drop_first());
    }
}

/// No two of the triples have the same key name.
pub open spec fn distinct_names(t: Seq<KeyTriple>) -> bool {
    forall|i: int, j: int| 0 <= i < t.len() && 0 <= j < t.len() && i != j ==> (#[trigger] t[i]).0 != (#[trigger] t[j]).0
}

/// Two triples with the same sort key have the same key name.
proof fn lemma_triple_key_injective(p: KeyTriple, q: KeyTriple)
    requires
        triple_key(p) == triple_key(q),
    ensures
        p.0 == q.0,
{
    encode_utf8_decode_utf8(p.0);
    encode_utf8_decode_utf8(q.0);
}

/// Two sorted sequences of triples with distinct key names and the same
/// members are equal.
proof fn lemma_sorted_unique(s1: Seq<KeyTriple>, s2: Seq<KeyTriple>)
    requires
        triples_sorted(s1),
        triples_sorted(s2),
        distinct_names(s1),
        distinct_names(s2),
        forall|x: KeyTriple| s1.contains(x) <==> s2.contains(x),
    ensures
        s1 == s2,
    decreases s1.len(),
{
    if s1.len() == 0 {
        if s2.len() > 0 {
            assert(s2.contains(s2[0]));
        }
        assert(s1 =~= s2);
    } else {
        assert(s1.contains(s1.last()));
        let j = choose|j: int| 0 <= j < s2.len() && s2[j] == s1.last();
        assert(s2.contains(s2.last()));
        let i = choose|i: int| 0 <= i < s1.len() && s1[i] == s2.last();
        if j < s2.len() - 1 {
            assert(bytes_le(triple_key(s2[j]), triple_key(s2[s2.len() - 1])));
        } else {
            lemma_bytes_le_reflexive(triple_key(s2[j]));
        }
        if i < s1.len() - 1 {
            assert(bytes_le(triple_key(s1[i]), triple_key(s1[s1.len() - 1])));
        } else {
            lemma_bytes_le_reflexive(triple_key(s1[i]));
        }
        lemma_bytes_le_antisymmetric(triple_key(s1.last()), triple_key(s2.last()));
        lemma_triple_key_injective(s1.last(), s2.last());
        assert(s1[i].0 == s1[s1.len() - 1].0);
        assert(i == s1.len() - 1);
        let a = s1.drop_last();
        let b = s2.drop_last();
        assert forall|x: KeyTriple| a.contains(x) <==> b.contains(x) by {
            if a.contains(x) {
                let k = choose|k: int| 0 <= k < a.len() && a[k] == x;
                assert(s1[k] == x);
                assert(s1.contains(x));
                assert(x != s1.last());
                let m = choose|m: int| 0 <= m < s2.len() && s2[m] == x;
                assert(m != s2.len() - 1);
                assert(b[m] == x);
            }
            if b.contains(x) {
                let k = choose|k: int| 0 <= k < b.len() && b[k] == x;
                assert(s2[k] == x);
                assert(s2.contains(x));
                assert(x != s2.last());
                let m = choose|m: int| 0 <= m < s1.len() && s1[m] == x;
                assert(m != s1.len() - 1);
                assert(a[m] == x);
            }
        }
        assert(triples_sorted(a));
        assert(triples_sorted(b));
        lemma_sorted_unique(a, b);
        assert(s1 =~= a.push(s1.last()));
        assert(s2 =~= b.push(s2.last()));
    }
}

/// The sort keeps the members of the triples, and distinct key names stay
/// distinct.
proof fn lemma_sort_triples_distinct(t: Seq<KeyTriple>)
    requires
        distinct_names(t),
    ensures
        distinct_names(sort_triples(t)),
        triples_sorted(sort_triples(t)),
        forall|x: KeyTriple| sort_triples(t).contains(x) <==> t.contains(x),
{
    broadcast use vstd::seq_lib::group_to_multiset_ensures;
    let s = sort_triples(t);
    lemma_sort_triples_sorted(t);
    assert forall|x: KeyTriple| s.contains(x) <==> t.contains(x) by {
        assert(s.to_multiset().count(x) == t.to_multiset().count(x));
    }
    assert(t.no_duplicates()) by {
        assert forall|i: int, j: int| 0 <= i < t.len() && 0 <= j < t.len() && i != j implies t[i] != t[j] by {
            assert(t[i].0 != t[j].0);
        }
    }
    t.lemma_multiset_has_no_duplicates();
    s.lemma_multiset_has_no_duplicates_conv();
    assert forall|i: int, j: int| 0 <= i < s.len() && 0 <= j < s.len() && i != j implies (#[trigger] s[i]).0
        != (#[trigger] s[j]).0 by {
        assert(s.contains(s[i]));
        assert(s.contains(s[j]));
        let p = choose|p: int| 0 <= p < t.len() && t[p] == s[i];
        let q = choose|q: int| 0 <= q < t.len() && t[q] == s[j];
        assert(s[i] != s[j]);
        assert(p != q);
    }
}

/// Whether the join keys, values and value types of an entity key run in
/// parallel.
pub open spec fn runs_parallel(ek: EntityKey) -> bool {
    ek.join_keys@.len() == ek.entity_values@.len() && ek.entity_values@.len() == ek.value_types@.len()
}

/// Whether the join key names of an entity key are pairwise distinct.
pub open spec fn distinct_join_keys(ek: EntityKey) -> bool {
    forall|i: int, j: int|
        0 <= i < ek.join_keys@.len() && 0 <= j < ek.join_keys@.len() && i != j ==> (#[trigger] ek.join_keys@[i])@
            != (#[trigger] ek.join_keys@[j])@
}

/// Two entity keys whose join keys, values and value types run in parallel,
/// with distinct join key names and lengths that fit the format, have the
/// same v3 encoding exactly when their (name, value, type) triples are a
/// permutation of each other: the encoding writes the keys in sorted order,
/// not in the order given.
pub proof fn lemma_v3_encoding_identifies_triples(a: EntityKey, b: EntityKey)
    requires
        runs_parallel(a),
        runs_parallel(b),
        distinct_join_keys(a),
        distinct_join_keys(b),
        fits_v3(a),
        fits_v3(b),
    ensures
        serialized_entity_key(a) == serialized_entity_key(b) <==> triples_of(a).to_multiset()
            == triples_of(b).to_multiset(),
{
    broadcast use vstd::seq_lib::group_to_multiset_ensures;
    let ta = triples_of(a);
    let tb = triples_of(b);
    assert(distinct_names(ta)) by {
        assert forall|i: int, j: int| 0 <= i < ta.len() && 0 <= j < ta.len() && i != j implies (#[trigger] ta[i]).0
            != (#[trigger] ta[j]).0 by {
            assert(a.join_keys@[i]@ != a.join_keys@[j]@);
        }
    }
    assert(distinct_names(tb)) by {
        assert forall|i: int, j: int| 0 <= i < tb.len() && 0 <= j < tb.len() && i != j implies (#[trigger] tb[i]).0
            != (#[trigger] tb[j]).0 by {
            assert(b.join_keys@[i]@ != b.join_keys@[j]@);
        }
    }
    lemma_sort_triples_distinct(ta);
    lemma_sort_triples_distinct(tb);
    lemma_sort_triples_sorted(ta);
    lemma_sort_triples_sorted(tb);
    let sa = sort_triples(ta);
    let sb = sort_triples(tb);
    if ta.to_multiset() == tb.to_multiset() {
        assert forall|x: KeyTriple| sa.contains(x) <==> sb.contains(x) by {
            assert(ta.to_multiset().count(x) == tb.to_multiset().count(x));
        }
        lemma_sorted_unique(sa, sb);
    }
    if serialized_entity_key(a) == serialized_entity_key(b) {
        lemma_entity_key_roundtrip(a);
        lemma_entity_key_roundtrip(b);
        let ka = triple_keys(sa);
        let kb = triple_keys(sb);
        assert(ka == kb);
        assert(sa.map_values(|p: KeyTriple| p.1) == sb.map_values(|p: KeyTriple| p.1));
        assert(sa.map_values(|p: KeyTriple| p.2) == sb.map_values(|p: KeyTriple| p.2));
        assert(sa.len() == ka.len() && sb.len() == kb.len());
        assert forall|i: int| 0 <= i < sa.len() implies sa[i] == sb[i] by {
            assert(ka[i] == kb[i]);
            assert(sa.map_values(|p: KeyTriple| p.1)[i] == sb.map_values(|p: KeyTriple| p.1)[i]);
            assert(sa.map_values(|p: KeyTriple| p.2)[i] == sb.map_values(|p: KeyTriple| p.2)[i]);
        }
        assert(sa =~= sb);
    }
}

/// When the join keys, values and value types of an entity key run in
/// parallel, the key-name prefix encoding of its join keys is a prefix of its
/// full v3 encoding, so a prefix scan finds it.
pub proof fn lemma_prefix_of_serialized(ek: EntityKey)
    requires
        ek.join_keys@.len() == ek.entity_values@.len(),
        ek.join_keys@.len() == ek.value_types@.len(),
    ensures
        serialized_entity_key(ek).take(
            serialized_key_prefix(ek.join_keys@.map_values(|s: String| s@)).len() as int,
        ) == serialized_key_prefix(ek.join_keys@.map_values(|s: String| s@)),
{
    let keys = ek.join_keys@.map_values(|s: String| s@);
    let ts = triples_of(ek);
    let us = keys.map_values(|k: Seq<char>| (k, Seq::<u8>::empty(), ValueType::String));
    assert(triple_keys(ts) =~= triple_keys(us));
    lemma_sort_triples_keys(ts, us);
    lemma_sort_triples_len(ts);
    let p = serialized_key_prefix(keys);
    let full = serialized_entity_key(ek);
    assert(p =~= le32(keys.len() as int) + key_section(triple_keys(sort_triples(ts))));
    assert(full =~= p + value_section(triple_values(sort_triples(ts))));
    assert(full.take(p.len() as int) =~= p);
}

/// The bytes that one key name takes in the key section: its type code and
/// length (four bytes each) and its UTF-8 bytes.
pub open spec fn key_width(k: Seq<char>) -> int {
    8 + encode_utf8(k).len() as int
}

/// The bytes that key names take in the key section.
pub open spec fn keys_width(ks: Seq<Seq<char>>) -> int
    decreases ks.len(),
{
    if ks.len() == 0 {
        0
    } else {
        keys_width(ks.drop_last()) + key_width(ks.last())
    }
}

proof fn lemma_keys_width_concat(a: Seq<Seq<char>>, b: Seq<Seq<char>>)
    ensures
        keys_width(a + b) == keys_width(a) + keys_width(b),
    decreases b.len(),
{
    if b.len() == 0 {
        assert(a + b =~= a);
    } else {
        assert((a + b).drop_last() =~= a + b.drop_last());
        lemma_keys_width_concat(a, b.drop_last());
    }
}

proof fn lemma_key_section_len(ks: Seq<Seq<char>>)
    ensures
        key_section(ks).len() == keys_width(ks),
    decreases ks.len(),
{
    if ks.len() > 0 {
        lemma_auto_spec_u32_to_from_le_bytes();
        lemma_key_section_len(ks.drop_first());
        assert(ks =~= seq![ks[0]] + ks.drop_first());
        lemma_keys_width_concat(seq![ks[0]], ks.drop_first());
        let one = seq![ks[0]];
        assert(one.drop_last() =~= Seq::<Seq<char>>::empty());
        assert(keys_width(one.drop_last()) == 0);
        assert(one.last() == ks[0]);
        assert(keys_width(one) == key_width(ks[0]));
        assert(le32(value_type_code(ValueType::String) as int).len() == 4);
        assert(le32(encode_utf8(ks[0]).len() as int).len() == 4);
        assert(key_entry(ks[0]).len() == key_width(ks[0]));
    }
}

proof fn lemma_insert_sorted_width(t: Seq<KeyTriple>, x: KeyTriple)
    ensures
        keys_width(triple_keys(insert_sorted(t, x))) == keys_width(triple_keys(t)) + key_width(x.0),
    decreases t.len(),
{
    if t.len() == 0 || bytes_le(triple_key(t.last()), triple_key(x)) {
        assert(triple_keys(t.push(x)).drop_last() =~= triple_keys(t));
    } else {
        lemma_insert_sorted_width(t.drop_last(), x);
        let u = insert_sorted(t.drop_last(), x);
        assert(triple_keys(u.push(t.last())).drop_last() =~= triple_keys(u));
        assert(triple_keys(t).drop_last() =~= triple_keys(t.drop_last()));
    }
}

proof fn lemma_sort_triples_width(s: Seq<KeyTriple>)
    ensures
        keys_width(triple_keys(sort_triples(s))) == keys_width(triple_keys(s)),
    decreases s.len(),
{
    if s.len() > 0 {
        lemma_sort_triples_width(s.drop_last());
        lemma_insert_sorted_width(sort_triples(s.drop_last()), s.last());
        assert(triple_keys(s).drop_last() =~= triple_keys(s.drop_last()));
    }
}

/// The prefix of the keys takes four bytes for the key count and, for each
/// key, eight bytes for its type code and length and its UTF-8 bytes.
pub proof fn lemma_prefix_len(keys: Seq<Seq<char>>)
    ensures
        serialized_key_prefix(keys).len() == 4 + keys_width(keys),
{
    lemma_auto_spec_u32_to_from_le_bytes();
    let ts = keys.map_values(|k: Seq<char>| (k, Seq::<u8>::empty(), ValueType::String));
    lemma_key_section_len(triple_keys(sort_triples(ts)));
    lemma_sort_triples_width(ts);
    assert(triple_keys(ts) =~= keys);
}

// ---------------------------------------------------------------------------
//  Executable code
// ---------------------------------------------------------------------------

/// Lexicographic comparison of two byte strings.
fn bytes_le_exec(a: &[u8], b: &[u8]) -> (r: bool)
    ensures
        r == bytes_le(a@, b@),
{
    let mut i: usize = 0;
    proof {
        assert(a@.skip(0) =~= a@);
        assert(b@.skip(0) =~= b@);
    }
    while i < a.len() && i < b.len() && a[i] == b[i]
        invariant
            i <= a@.len(),
            i <= b@.len(),
            bytes_le(a@, b@) == bytes_le(a@.skip(i as int), b@.skip(i as int)),
        decreases a@.len() - i,
    {
        proof {
            let sa = a@.skip(i as int);
            let sb = b@.skip(i as int);
            assert(sa.drop_first() =~= a@.skip(i + 1));
            assert(sb.drop_first() =~= b@.skip(i + 1));
        }
        i = i + 1;
    }
    if i == a.len() {
        true
    } else if i == b.len() {
        false
    } else {
        a[i] < b[i]
    }
}

/// Whether the key name `a` sorts before or with `b`.
fn key_le(a: &String, b: &String) -> (r: bool)
    ensures
        r == bytes_le(encode_utf8(a@), encode_utf8(b@)),
{
    bytes_le_exec(a.as_str().as_bytes(), b.as_str().as_bytes())
}

/// The view of an executable triple.
pub open spec fn triple_view(p: (String, Vec<u8>, ValueType)) -> KeyTriple {
    (p.0@, p.1@, p.2)
}

/// The views of a vector of executable triples.
pub open spec fn triples_view(v: Seq<(String, Vec<u8>, ValueType)>) -> Seq<KeyTriple> {
    v.map_values(|p: (String, Vec<u8>, ValueType)| triple_view(p))
}

/// Stable insertion sort of triples by key name.
fn sort_by_key(pairs: Vec<(String, Vec<u8>, ValueType)>) -> (r: Vec<(String, Vec<u8>, ValueType)>)
    ensures
        triples_view(r@) == sort_triples(triples_view(pairs@)),
{
    let mut out: Vec<(String, Vec<u8>, ValueType)> = Vec::new();
    let mut pairs = pairs;
    let ghost all = triples_view(pairs@);
    let n = pairs.len();
    let mut rest: Vec<(String, Vec<u8>, ValueType)> = Vec::new();
    // Move the input into `rest` in reverse, so that popping yields it in order.
    while pairs.len() > 0
        invariant
            triples_view(pairs@) + triples_view(rest@).reverse() == all,
        decreases pairs@.len(),
    {
        let ghost before_p = pairs@;
        let ghost before_r = rest@;
        let x = pairs.pop().unwrap();
        rest.push(x);
        proof {
            assert(triples_view(pairs@) =~= triples_view(before_p).drop_last());
            assert(triples_view(rest@) =~= triples_view(before_r).push(triple_view(x)));
            assert(triples_view(rest@).reverse() =~= seq![triple_view(x)] + triples_view(
                before_r,
            ).reverse());
            assert(triples_view(before_p) =~= triples_view(pairs@).push(triple_view(x)));
            assert(triples_view(pairs@) + triples_view(rest@).reverse() =~= triples_view(
                before_p,
            ) + triples_view(before_r).reverse());
        }
    }
    proof {
        assert(triples_view(pairs@) =~= Seq::<KeyTriple>::empty());
        assert(triples_view(rest@).reverse() =~= all);
        assert(all.take(0) =~= Seq::<KeyTriple>::empty());
    }
    let mut done: usize = 0;
    while rest.len() > 0
        invariant
            triples_view(rest@).reverse() == all.skip(done as int),
            done <= all.len(),
            triples_view(out@) == sort_triples(all.take(done as int)),
            n == all.len(),
        decreases rest@.len(),
    {
        let ghost before_r = rest@;
        proof {
            assert(triples_view(before_r).reverse().len() == before_r.len());
            assert(all.skip(done as int).len() == before_r.len());
            assert(done < all.len());
        }
        let x = rest.pop().unwrap();
        proof {
            assert(triples_view(rest@) =~= triples_view(before_r).drop_last());
            assert(triples_view(before_r).reverse()[0] == triple_view(x));
            assert(all.skip(done as int)[0] == all[done as int]);
            assert(triples_view(rest@).reverse() =~= triples_view(before_r).reverse().drop_first());
            assert(all.skip(done as int).drop_first() =~= all.skip(done + 1));
            assert(triples_view(rest@).reverse() =~= all.skip(done + 1));
        }
        // Find where x goes: after the last element whose key is not greater.
        let ghost t = triples_view(out@);
        let mut p = out.len();
        while p > 0 && !key_le(&out[p - 1].0, &x.0)
            invariant
                p <= out@.len(),
                t == triples_view(out@),
                forall|j: int| p <= j < t.len() ==> !bytes_le(
                    triple_key(#[trigger] t[j]),
                    triple_key(triple_view(x)),
                ),
            decreases p,
        {
            p = p - 1;
        }
        proof {
            lemma_insert_sorted_split(t, triple_view(x), p as int);
            assert(all.take(done + 1).drop_last() =~= all.take(done as int));
            assert(all.take(done + 1).last() == all[done as int]);
        }
        out.insert(p, x);
        proof {
            assert(triples_view(out@) =~= t.take(p as int).push(triple_view(x)) + t.skip(
                p as int,
            ));
        }
        done = done + 1;
    }
    proof {
        assert(all.skip(done as int).len() == 0);
        assert(all.take(done as int) =~= all);
    }
    out
}

/// Appends a 32-bit little-endian integer.
fn push_u32(buf: &mut Vec<u8>, x: u32)
    ensures
        final(buf)@ == old(buf)@ + spec_u32_to_le_bytes(x),
{
    let b = u32_to_le_bytes(x);
    push_bytes(buf, b.as_slice());
}

/// Serializes an entity key in the v3 format: the join keys are taken
/// together with their values and value types (as far as all three run),
/// sorted by key name with a stable sort, and written as the key count, the
/// key section and the value section. Lengths are written modulo 2^32.
pub fn serialize_entity_key_v3(entity_key: &EntityKey) -> (r: Vec<u8>)
    ensures
        r@ == serialized_entity_key(*entity_key),
{
    let ghost ts = triples_of(*entity_key);
    let mut n = entity_key.join_keys.len();
    if entity_key.value_types.len() < n {
        n = entity_key.value_types.len();
    }
    if entity_key.entity_values.len() < n {
        n = entity_key.entity_values.len();
    }
    let mut pairs: Vec<(String, Vec<u8>, ValueType)> = Vec::new();
    let mut i: usize = 0;
    while i < n
        invariant
            n == ts.len(),
            i <= n,
            ts == triples_of(*entity_key),
            triples_view(pairs@) == ts.take(i as int),
        decreases n - i,
    {
        let k = entity_key.join_keys[i].clone();
        let v = slice_to_vec(entity_key.entity_values[i].as_slice());
        let t = entity_key.value_types[i];
        let ghost before = pairs@;
        pairs.push((k, v, t));
        proof {
            assert(triples_view(pairs@) =~= triples_view(before).push(triple_view((k, v, t))));
            assert(ts.take(i + 1) =~= ts.take(i as int).push(ts[i as int]));
        }
        i = i + 1;
    }
    proof {
        assert(ts.take(n as int) =~= ts);
    }
    let sorted = sort_by_key(pairs);
    let ghost s = triples_view(sorted@);
    proof {
        lemma_sort_triples_len(ts);
    }
    let mut buf: Vec<u8> = Vec::new();
    push_u32(&mut buf, sorted.len() as u32);
    let m = sorted.len();
    let ghost head = buf@;
    let mut j: usize = 0;
    while j < m
        invariant
            m == s.len(),
            s == triples_view(sorted@),
            j <= m,
            buf@ == head + key_section(triple_keys(s.take(j as int))),
        decreases m - j,
    {
        let key_bytes = sorted[j].0.as_str().as_bytes();
        push_u32(&mut buf, 2u32);
        push_u32(&mut buf, key_bytes.len() as u32);
        push_bytes(&mut buf, key_bytes);
        proof {
            assert(triple_keys(s.take(j + 1)) =~= triple_keys(s.take(j as int)).push(s[j as int].0));
            lemma_key_section_push(triple_keys(s.take(j as int)), s[j as int].0);
            assert(buf@ =~= head + key_section(triple_keys(s.take(j + 1))));
        }
        j = j + 1;
    }
    let ghost mid = buf@;
    proof {
        assert(s.take(m as int) =~= s);
    }
    let mut j: usize = 0;
    while j < m
        invariant
            m == s.len(),
            s == triples_view(sorted@),
            j <= m,
            buf@ == mid + value_section(triple_values(s.take(j as int))),
        decreases m - j,
    {
        let code = sorted[j].2.to_i32();
        let val = sorted[j].1.as_slice();
        push_u32(&mut buf, code as u32);
        push_u32(&mut buf, val.len() as u32);
        push_bytes(&mut buf, val);
        proof {
            assert(triple_values(s.take(j + 1)) =~= triple_values(s.take(j as int)).push(
                (s[j as int].1, s[j as int].2),
            ));
            lemma_value_section_push(triple_values(s.take(j as int)), (s[j as int].1, s[j as int].2));
            assert(buf@ =~= mid + value_section(triple_values(s.take(j + 1))));
        }
        j = j + 1;
    }
    proof {
        assert(s.take(m as int) =~= s);
    }
    buf
}

/// Serializes only the key names, sorted, for prefix scans: the key count
/// and the key section of the v3 format.
pub fn serialize_entity_key_prefix(join_keys: &[String]) -> (r: Vec<u8>)
    ensures
        r@ == serialized_key_prefix(join_keys@.map_values(|s: String| s@)),
{
    let ghost keys = join_keys@.map_values(|s: String| s@);
    let ghost ts = keys.map_values(|k: Seq<char>| (k, Seq::<u8>::empty(), ValueType::String));
    let n = join_keys.len();
    let mut pairs: Vec<(String, Vec<u8>, ValueType)> = Vec::new();
    let mut i: usize = 0;
    while i < n
        invariant
            n == join_keys@.len(),
            i <= n,
            keys == join_keys@.map_values(|s: String| s@),
            ts == keys.map_values(|k: Seq<char>| (k, Seq::<u8>::empty(), ValueType::String)),
            triples_view(pairs@) == ts.take(i as int),
        decreases n - i,
    {
        let k = join_keys[i].clone();
        let v: Vec<u8> = Vec::new();
        let ghost before = pairs@;
        pairs.push((k, v, ValueType::String));
        proof {
            assert(triples_view(pairs@) =~= triples_view(before).push(
                triple_view((k, v, ValueType::String)),
            ));
            assert(ts.take(i + 1) =~= ts.take(i as int).push(ts[i as int]));
        }
        i = i + 1;
    }
    proof {
        assert(ts.take(n as int) =~= ts);
        lemma_sort_triples_len(ts);
    }
    let sorted = sort_by_key(pairs);
    let ghost s = triples_view(sorted@);
    let mut buf: Vec<u8> = Vec::new();
    push_u32(&mut buf, n as u32);
    let m = sorted.len();
    let ghost head = buf@;
    let mut j: usize = 0;
    while j < m
        invariant
            m == s.len(),
            s == triples_view(sorted@),
            j <= m,
            buf@ == head + key_section(triple_keys(s.take(j as int))),
        decreases m - j,
    {
        let key_bytes = sorted[j].0.as_str().as_bytes();
        push_u32(&mut buf, 2u32);
        push_u32(&mut buf, key_bytes.len() as u32);
        push_bytes(&mut buf, key_bytes);
        proof {
            assert(triple_keys(s.take(j + 1)) =~= triple_keys(s.take(j as int)).push(s[j as int].0));
            lemma_key_section_push(triple_keys(s.take(j as int)), s[j as int].0);
            assert(buf@ =~= head + key_section(triple_keys(s.take(j + 1))));
        }
        j = j + 1;
    }
    proof {
        assert(s.take(m as int) =~= s);
    }
    buf
}

/// Reads a 32-bit little-endian integer at `off`.
fn read_u32(b: &[u8], off: usize) -> (r: u32)
    requires
        off + 4 <= b@.len(),
    ensures
        r == u32_at(b@, off as int),
{
    let n = b.len();
    u32_from_le_bytes(slice_subrange(b, off, off + 4))
}

/// Decodes an entity key from the v3 format. Fails with "Entity key too
/// short", "Unexpected end of key section", "Key name truncated", the UTF-8
/// error of a key name that is not UTF-8, "Unexpected end of value section" or
/// "Value truncated"; unknown value type codes read as `Invalid`.
pub fn deserialize_entity_key_v3(bytes: &[u8]) -> (r: Result<EntityKey, String>)
    ensures
        match (r, deserialized_entity_key(bytes@)) {
            (Ok(ek), Ok(parsed)) => entity_key_matches(ek, parsed),
            (Err(m), Err(sm)) => m@ == sm,
            _ => false,
        },
{
    let ghost b = bytes@;
    if bytes.len() < 4 {
        return Err(String::from_str("Entity key too short"));
    }
    let num_keys = read_u32(bytes, 0) as usize;
    let ghost n = num_keys as nat;
    let mut offset: usize = 4;
    let mut join_keys: Vec<String> = Vec::new();
    let mut i: usize = 0;
    while i < num_keys
        invariant
            b == bytes@,
            b.len() >= 4,
            n == u32_at(b, 0) as nat,
            n == num_keys,
            i <= num_keys,
            offset <= b.len(),
            parse_keys(b, 4, n) == match parse_keys(b, offset as int, (n - i) as nat) {
                Ok((ks, end)) => Ok::<(Seq<Seq<char>>, int), Seq<char>>(
                    (join_keys@.map_values(|s: String| s@) + ks, end),
                ),
                Err(m) => Err(m),
            },
        decreases num_keys - i,
    {
        let ghost c = (n - i) as nat;
        if bytes.len() - offset < 8 {
            proof {
                assert(parse_keys(b, offset as int, c) == Err::<(Seq<Seq<char>>, int), Seq<char>>(
                    "Unexpected end of key section"@,
                ));
            }
            return Err(String::from_str("Unexpected end of key section"));
        }
        let key_len = read_u32(bytes, offset + 4) as usize;
        if bytes.len() - offset - 8 < key_len {
            proof {
                assert(parse_keys(b, offset as int, c) == Err::<(Seq<Seq<char>>, int), Seq<char>>(
                    "Key name truncated"@,
                ));
            }
            return Err(String::from_str("Key name truncated"));
        }
        let kb = slice_to_vec(slice_subrange(bytes, offset + 8, offset + 8 + key_len));
        let key_name = match string_from_utf8(kb) {
            Ok(s) => s,
            Err(e) => {
                return Err(e);
            },
        };
        let ghost before = join_keys@;
        join_keys.push(key_name);
        proof {
            let next = (offset + 8 + key_len) as int;
            assert(join_keys@.map_values(|s: String| s@) =~= before.map_values(|s: String| s@)
                + seq![key_name@]);
            match parse_keys(b, next, (c - 1) as nat) {
                Ok((ks, end)) => {
                    assert(join_keys@.map_values(|s: String| s@) + ks =~= before.map_values(
                        |s: String| s@,
                    ) + (seq![key_name@] + ks));
                },
                Err(m) => {},
            }
        }
        offset = offset + 8 + key_len;
        i = i + 1;
    }
    let mut entity_values: Vec<Vec<u8>> = Vec::new();
    let mut value_types: Vec<ValueType> = Vec::new();
    let ghost key_end = offset as int;
    proof {
        assert(parse_keys(b, offset as int, 0) == Ok::<(Seq<Seq<char>>, int), Seq<char>>(
            (Seq::empty(), offset as int),
        ));
        assert(join_keys@.map_values(|s: String| s@) + Seq::<Seq<char>>::empty() =~= join_keys@.map_values(|s: String| s@));
    }
    let mut i: usize = 0;
    while i < num_keys
        invariant
            b == bytes@,
            b.len() >= 4,
            n == u32_at(b, 0) as nat,
            n == num_keys,
            i <= num_keys,
            offset <= b.len(),
            key_end <= b.len(),
            parse_keys(b, 4, n) == Ok::<(Seq<Seq<char>>, int), Seq<char>>(
                (join_keys@.map_values(|s: String| s@), key_end),
            ),
            parse_values(b, key_end, n) == match parse_values(b, offset as int, (n - i) as nat) {
                Ok((vs, ts, end)) => Ok::<(Seq<Seq<u8>>, Seq<ValueType>, int), Seq<char>>(
                    (entity_values@.map_values(|v: Vec<u8>| v@) + vs, value_types@ + ts, end),
                ),
                Err(m) => Err(m),
            },
        decreases num_keys - i,
    {
        let ghost c = (n - i) as nat;
        if bytes.len() - offset < 8 {
            proof {
                assert(parse_values(b, offset as int, c) == Err::<
                    (Seq<Seq<u8>>, Seq<ValueType>, int),
                    Seq<char>,
                >("Unexpected end of value section"@));
            }
            return Err(String::from_str("Unexpected end of value section"));
        }
        let vt_raw = read_u32(bytes, offset);
        let val_len = read_u32(bytes, offset + 4) as usize;
        if bytes.len() - offset - 8 < val_len {
            proof {
                assert(parse_values(b, offset as int, c) == Err::<
                    (Seq<Seq<u8>>, Seq<ValueType>, int),
                    Seq<char>,
                >("Value truncated"@));
            }
            return Err(String::from_str("Value truncated"));
        }
        let val_bytes = slice_to_vec(slice_subrange(bytes, offset + 8, offset + 8 + val_len));
        let value_type = match ValueType::from_i32(vt_raw as i32) {
            Some(t) => t,
            None => ValueType::Invalid,
        };
        let ghost before_v = entity_values@;
        let ghost before_t = value_types@;
        entity_values.push(val_bytes);
        value_types.push(value_type);
        proof {
            let next = (offset + 8 + val_len) as int;
            assert(entity_values@.map_values(|v: Vec<u8>| v@) =~= before_v.map_values(
                |v: Vec<u8>| v@,
            ) + seq![val_bytes@]);
            match parse_values(b, next, (c - 1) as nat) {
                Ok((vs, ts, end)) => {
                    assert(entity_values@.map_values(|v: Vec<u8>| v@) + vs =~= before_v.map_values(
                        |v: Vec<u8>| v@,
                    ) + (seq![val_bytes@] + vs));
                    assert(value_types@ + ts =~= before_t + (seq![value_type] + ts));
                },
                Err(m) => {},
            }
        }
        offset = offset + 8 + val_len;
        i = i + 1;
    }
    proof {
        assert(entity_values@.map_values(|v: Vec<u8>| v@) + Seq::<Seq<u8>>::empty()
            =~= entity_values@.map_values(|v: Vec<u8>| v@));
        assert(value_types@ + Seq::<ValueType>::empty() =~= value_types@);
    }
    Ok(EntityKey { join_keys, entity_values, value_types })
}

} // verus!
