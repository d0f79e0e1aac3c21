//! Structured JSON values. Operation bodies and decoded responses are held
//! in this form; the serializer below frames a value into the exact bytes
//! that are sent (and, for signed requests, signed).
//!
//! Numbers are kept as their literal text: the library never does arithmetic
//! on them, and this keeps decoding and re-serialization exact.

use vstd::prelude::*;
use vstd::string::StringSliceAdditionalSpecFns;
use crate::text::str_eq;

verus! {

broadcast use vstd::std_specs::vec::axiom_vec_index_decreases;

#[derive(Debug)]
pub enum Json {
    Null,
    Bool(bool),
    Num(String),
    Str(String),
    Arr(Vec<Json>),
    Obj(Vec<(String, Json)>),
}

/// The value of the first field named `key`, if any.
pub open spec fn spec_lookup(fields: Seq<(String, Json)>, key: Seq<char>) -> Option<Json>
    decreases fields.len(),
{
    if fields.len() == 0 {
        None
    } else if fields[0].0@ == key {
        Some(fields[0].1)
    } else {
        spec_lookup(fields.drop_first(), key)
    }
}

/// Finds the first field named `key` of a JSON object.
pub fn lookup<'a>(fields: &'a Vec<(String, Json)>, key: &str) -> (r: Option<&'a Json>)
    ensures
        match r {
            Some(v) => spec_lookup(fields@, key@) == Some(*v),
            None => spec_lookup(fields@, key@) is None,
        },
{
    let mut i: usize = 0;
    proof {
        assert(fields@.skip(0) =~= fields@);
    }
    while i < fields.len()
        invariant
            i <= fields@.len(),
            spec_lookup(fields@, key@) == spec_lookup(fields@.skip(i as int), key@),
        decreases fields@.len() - i,
    {
        if str_eq(fields[i].0.as_str(), key) {
            proof {
                assert(fields@.skip(i as int)[0] == fields@[i as int]);
            }
            return Some(&fields[i].1);
        }
        proof {
            assert(fields@.skip(i as int).drop_first() =~= fields@.skip(i + 1));
        }
        i = i + 1;
    }
    proof {
        assert(fields@.skip(fields@.len() as int).len() == 0);
    }
    None
}

/// The byte of the lowercase hex digit for a value in 0..16.
pub open spec fn hex_digit_byte(d: int) -> u8 {
    if d < 10 {
        (48 + d) as u8
    } else {
        (87 + d) as u8
    }
}

/// How one byte of a JSON string is written: the two-character escapes of
/// RFC 8259 for quote, backslash and the common control characters, a
/// `\u00XX` escape for the remaining control bytes, and the byte itself
/// otherwise.
pub open spec fn escape_byte(b: u8) -> Seq<u8> {
    if b == 34 {
        seq![92u8, 34u8]
    } else if b == 92 {
        seq![92u8, 92u8]
    } else if b == 8 {
        seq![92u8, 98u8]
    } else if b == 9 {
        seq![92u8, 116u8]
    } else if b == 10 {
        seq![92u8, 110u8]
    } else if b == 12 {
        seq![92u8, 102u8]
    } else if b == 13 {
        seq![92u8, 114u8]
    } else if b < 32 {
        seq![92u8, 117u8, 48u8, 48u8, hex_digit_byte(b as int / 16), hex_digit_byte(b as int % 16)]
    } else {
        seq![b]
    }
}

/// A whole string body, escaped byte by byte.
pub open spec fn escape_bytes(s: Seq<u8>) -> Seq<u8>
    decreases s.len(),
{
    if s.len() == 0 {
        Seq::empty()
    } else {
        escape_bytes(s.drop_last()) + escape_byte(s.last())
    }
}

/// The serialized form of a JSON value, as the bytes that go on the wire.
pub open spec fn json_bytes(j: Json) -> Seq<u8>
    decreases j, 0int,
{
    match j {
        Json::Null => seq![110u8, 117u8, 108u8, 108u8],
        Json::Bool(b) => if b {
            seq![116u8, 114u8, 117u8, 101u8]
        } else {
            seq![102u8, 97u8, 108u8, 115u8, 101u8]
        },
        Json::Num(n) => vstd::utf8::encode_utf8(n@),
        Json::Str(s) => seq![34u8] + escape_bytes(vstd::utf8::encode_utf8(s@)) + seq![34u8],
        Json::Arr(elems) => seq![91u8] + arr_items_bytes(elems, elems.len() as int) + seq![93u8],
        Json::Obj(fields) => seq![123u8] + obj_fields_bytes(fields, fields.len() as int) + seq![
            125u8,
        ],
    }
}

/// The serialized items of an array, the first `n` of them, comma-separated.
pub open spec fn arr_items_bytes(elems: Vec<Json>, n: int) -> Seq<u8>
    decreases elems, n,
{
    if n <= 0 || n > elems.len() {
        Seq::empty()
    } else if n == 1 {
        json_bytes(elems[0])
    } else {
        arr_items_bytes(elems, n - 1) + seq![44u8] + json_bytes(elems[n - 1])
    }
}

/// One serialized object field: the quoted escaped key, a colon, the value.
pub open spec fn obj_field_bytes(key: String, val: Json) -> Seq<u8>
    decreases val, 1int,
{
    seq![34u8] + escape_bytes(vstd::utf8::encode_utf8(key@)) + seq![34u8, 58u8] + json_bytes(val)
}

/// The serialized fields of an object, the first `n` of them, comma-separated.
pub open spec fn obj_fields_bytes(fields: Vec<(String, Json)>, n: int) -> Seq<u8>
    decreases fields, n,
{
    if n <= 0 || n > fields.len() {
        Seq::empty()
    } else if n == 1 {
        obj_field_bytes(fields[0].0, fields[0].1)
    } else {
        obj_fields_bytes(fields, n - 1) + seq![44u8] + obj_field_bytes(
            fields[n - 1].0,
            fields[n - 1].1,
        )
    }
}

fn hex_digit(d: u8) -> (r: u8)
    requires
        d < 16,
    ensures
        r == hex_digit_byte(d as int),
{
    if d < 10 {
        48 + d
    } else {
        87 + d
    }
}

/// Appends the bytes of `src` to `out`.
pub fn push_bytes(out: &mut Vec<u8>, src: &Vec<u8>)
    ensures
        final(out)@ == old(out)@ + src@,
{
    let mut i: usize = 0;
    while i < src.len()
        invariant
            i <= src@.len(),
            out@ == old(out)@ + src@.take(i as int),
        decreases src@.len() - i,
    {
        out.push(src[i]);
        proof {
            assert(out@ =~= old(out)@ + src@.take(i + 1));
        }
        i = i + 1;
    }
    proof {
        assert(old(out)@ + src@.take(src@.len() as int) =~= old(out)@ + src@);
    }
}

/// Appends the escaped form of the bytes of `s` to `out`.
fn push_escaped(out: &mut Vec<u8>, s: &str)
    ensures
        final(out)@ == old(out)@ + escape_bytes(s.spec_bytes()),
{
    let bytes = s.as_bytes_vec();
    let mut i: usize = 0;
    while i < bytes.len()
        invariant
            i <= bytes@.len(),
            bytes@ == s.spec_bytes(),
            out@ == old(out)@ + escape_bytes(bytes@.take(i as int)),
        decreases bytes@.len() - i,
    {
        let b = bytes[i];
        if b == 34 {
            out.push(92);
            out.push(34);
        } else if b == 92 {
            out.push(92);
            out.push(92);
        } else if b == 8 {
            out.push(92);
            out.push(98);
        } else if b == 9 {
            out.push(92);
            out.push(116);
        } else if b == 10 {
            out.push(92);
            out.push(110);
        } else if b == 12 {
            out.push(92);
            out.push(102);
        } else if b == 13 {
            out.push(92);
            out.push(114);
        } else if b < 32 {
            out.push(92);
            out.push(117);
            out.push(48);
            out.push(48);
            out.push(hex_digit(b / 16));
            out.push(hex_digit(b % 16));
        } else {
            out.push(b);
        }
        proof {
            assert(bytes@.take(i + 1).drop_last() =~= bytes@.take(i as int));
            assert(bytes@.take(i + 1).last() == bytes@[i as int]);
            assert(out@ =~= old(out)@ + escape_bytes(bytes@.take(i + 1)));
        }
        i = i + 1;
    }
    proof {
        assert(bytes@.take(bytes@.len() as int) =~= bytes@);
    }
}

/// Appends the serialized form of `v` to `out`.
#[verifier::loop_isolation(false)]
pub fn push_json(out: &mut Vec<u8>, v: &Json)
    ensures
        final(out)@ == old(out)@ + json_bytes(*v),
    decreases *v,
{
    match v {
        Json::Null => {
            out.push(110);
            out.push(117);
            out.push(108);
            out.push(108);
            proof {
                assert(out@ =~= old(out)@ + json_bytes(*v));
            }
        },
        Json::Bool(b) => {
            if *b {
                out.push(116);
                out.push(114);
                out.push(117);
                out.push(101);
            } else {
                out.push(102);
                out.push(97);
                out.push(108);
                out.push(115);
                out.push(101);
            }
            proof {
                assert(out@ =~= old(out)@ + json_bytes(*v));
            }
        },
        Json::Num(n) => {
            let bytes = n.as_str().as_bytes_vec();
            push_bytes(out, &bytes);
            proof {
                assert(out@ =~= old(out)@ + json_bytes(*v));
            }
        },
        Json::Str(s) => {
            out.push(34);
            push_escaped(out, s.as_str());
            out.push(34);
            proof {
                assert(out@ =~= old(out)@ + json_bytes(*v));
            }
        },
        Json::Arr(elems) => {
            out.push(91);
            let ghost base = out@;
            let mut i: usize = 0;
            while i < elems.len()
                invariant
                    i <= elems@.len(),
                    out@ == base + arr_items_bytes(*elems, i as int),
                decreases elems@.len() - i,
            {
                if i > 0 {
                    out.push(44);
                }
                proof {
                    assert(*v == Json::Arr(*elems));
                    assert(decreases_to!(*v => (*v)->Arr_0));
                    assert(decreases_to!((*v)->Arr_0 => ((*v)->Arr_0)@));
                    assert(decreases_to!(((*v)->Arr_0)@ => ((*v)->Arr_0)@[i as int]));
                }
                push_json(out, &elems[i]);
                proof {
                    assert(out@ =~= base + arr_items_bytes(*elems, i + 1));
                }
                i = i + 1;
            }
            out.push(93);
            proof {
                assert(out@ =~= old(out)@ + json_bytes(*v));
            }
        },
        Json::Obj(fields) => {
            out.push(123);
            let ghost base = out@;
            let mut i: usize = 0;
            while i < fields.len()
                invariant
                    i <= fields@.len(),
                    out@ == base + obj_fields_bytes(*fields, i as int),
                decreases fields@.len() - i,
            {
                if i > 0 {
                    out.push(44);
                }
                out.push(34);
                push_escaped(out, fields[i].0.as_str());
                out.push(34);
                out.push(58);
                proof {
                    assert(*v == Json::Obj(*fields));
                    assert(decreases_to!(*v => (*v)->Obj_0));
                    assert(decreases_to!((*v)->Obj_0 => ((*v)->Obj_0)@));
                    assert(decreases_to!(((*v)->Obj_0)@ => ((*v)->Obj_0)@[i as int]));
                    assert(decreases_to!(((*v)->Obj_0)@[i as int] => ((*v)->Obj_0)@[i as int].1));
                }
                push_json(out, &fields[i].1);
                proof {
                    assert(out@ =~= base + obj_fields_bytes(*fields, i as int) + (if i == 0 {
                        Seq::<u8>::empty()
                    } else {
                        seq![44u8]
                    }) + obj_field_bytes((*fields)@[i as int].0, (*fields)@[i as int].1));
                    assert(out@ =~= base + obj_fields_bytes(*fields, i + 1));
                }
                i = i + 1;
            }
            out.push(125);
            proof {
                assert(out@ =~= old(out)@ + json_bytes(*v));
            }
        },
    }
}

/// The serialized form of `v` as a fresh byte vector.
pub fn json_to_bytes(v: &Json) -> (r: Vec<u8>)
    ensures
        r@ == json_bytes(*v),
{
    let mut out: Vec<u8> = Vec::new();
    push_json(&mut out, v);
    proof {
        assert(out@ =~= json_bytes(*v));
    }
    out
}

} // verus!
