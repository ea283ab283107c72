//! The JSON documents the configuration store works with: their value
//! shape, field lookup, and their exact textual rendering.

use vstd::prelude::*;

verus! {

broadcast use vstd::std_specs::vec::axiom_vec_index_decreases;

/// A JSON document, as the configuration store shapes and reads it.  The
/// shell turns this into bytes on disk and back; every rule about what the
/// document holds lives here.
#[derive(Debug, PartialEq, Eq)]
pub enum Json {
    Null,
    Bool(bool),
    Num(u64),
    Str(String),
    Arr(Vec<Json>),
    Obj(Vec<(String, Json)>),
}

/// The mathematical shape of a `Json` document.
#[verifier::ext_equal]
pub enum JsonView {
    Null,
    Bool(bool),
    Num(u64),
    Str(Seq<char>),
    Arr(Seq<JsonView>),
    Obj(Seq<(Seq<char>, JsonView)>),
}

/// The view of a document.
pub open spec fn json_view(j: Json) -> JsonView
    decreases j,
{
    match j {
        Json::Null => JsonView::Null,
        Json::Bool(b) => JsonView::Bool(b),
        Json::Num(n) => JsonView::Num(n),
        Json::Str(s) => JsonView::Str(s@),
        Json::Arr(v) => JsonView::Arr(
            Seq::new(
                v@.len(),
                |i: int|
                    if 0 <= i < v.len() {
                        json_view(v[i])
                    } else {
                        JsonView::Null
                    },
            ),
        ),
        Json::Obj(fields) => JsonView::Obj(
            Seq::new(
                fields@.len(),
                |i: int|
                    if 0 <= i < fields.len() {
                        (fields[i].0@, json_view(fields[i].1))
                    } else {
                        (Seq::empty(), JsonView::Null)
                    },
            ),
        ),
    }
}

/// The value under the first field named `key`, if any.
pub open spec fn obj_get(fields: Seq<(Seq<char>, JsonView)>, key: Seq<char>) -> Option<JsonView>
    decreases fields.len(),
{
    if fields.len() == 0 {
        None
    } else if fields[0].0 == key {
        Some(fields[0].1)
    } else {
        obj_get(fields.skip(1), key)
    }
}

/// Looks a field up in a document known to be an object.
pub fn get_field<'a>(fields: &'a Vec<(String, Json)>, key: &str) -> (r: Option<&'a Json>)
    ensures
        ({
            let ghost_fields = match json_view(Json::Obj(*fields)) {
                JsonView::Obj(f) => f,
                _ => Seq::empty(),
            };
            &&& (obj_get(ghost_fields, key@) is None ==> r is None)
            &&& (obj_get(ghost_fields, key@) matches Some(v) ==> (r matches Some(x) && json_view(
                *x,
            ) == v))
        }),
{
    let ghost gf = match json_view(Json::Obj(*fields)) {
        JsonView::Obj(f) => f,
        _ => Seq::empty(),
    };
    let mut i: usize = 0;
    proof {
        assert(gf.skip(0) =~= gf);
    }
    while i < fields.len()
        invariant
            i <= fields@.len(),
            gf == (match json_view(Json::Obj(*fields)) {
                JsonView::Obj(f) => f,
                _ => Seq::<(Seq<char>, JsonView)>::empty(),
            }),
            gf.len() == fields@.len(),
            forall|k: int| 0 <= k < gf.len() ==> #[trigger] gf[k] == (fields@[k].0@, json_view(fields@[k].1)),
            obj_get(gf, key@) == obj_get(gf.skip(i as int), key@),
        decreases fields@.len() - i,
    {
        if crate::strutil::str_eq(fields[i].0.as_str(), key) {
            assert(gf.skip(i as int)[0] == gf[i as int]);
            return Some(&fields[i].1);
        }
        proof {
            assert(gf.skip(i as int)[0] == gf[i as int]);
            assert(gf.skip(i as int).skip(1) =~= gf.skip(i + 1));
        }
        i = i + 1;
    }
    assert(gf.skip(i as int).len() == 0);
    None
}


/// `obj_get` answers with the field at `i` when no earlier field shares its
/// key.
pub proof fn lemma_obj_get_at(f: Seq<(Seq<char>, JsonView)>, key: Seq<char>, i: int)
    requires
        0 <= i < f.len(),
        f[i].0 == key,
        forall|j: int| 0 <= j < i ==> f[j].0 != key,
    ensures
        obj_get(f, key) == Some(f[i].1),
    decreases i,
{
    if i > 0 {
        assert forall|j: int| 0 <= j < i - 1 implies f.skip(1)[j].0 != key by {
            assert(f.skip(1)[j] == f[j + 1]);
        }
        assert(f.skip(1)[i - 1] == f[i]);
        lemma_obj_get_at(f.skip(1), key, i - 1);
    }
}



/// The decimal digit `d` as a character.
pub open spec fn digit_char(d: int) -> char {
    (48 + d) as char
}

/// The decimal rendering of `n`.
pub open spec fn dec_digits(n: nat) -> Seq<char>
    decreases n,
{
    if n < 10 {
        seq![digit_char(n as int)]
    } else {
        dec_digits(n / 10) + seq![digit_char((n % 10) as int)]
    }
}

/// The hexadecimal digit `d` as a lower-case character.
pub open spec fn hex_char(d: int) -> char {
    if d < 10 {
        (48 + d) as char
    } else {
        (87 + d) as char
    }
}

/// One character of a string body, with the escapes JSON requires: quote,
/// backslash, and control characters.
pub open spec fn esc_char(c: char) -> Seq<char> {
    if c == '"' {
        seq!['\\', '"']
    } else if c == '\\' {
        seq!['\\', '\\']
    } else if (c as int) < 0x20 {
        seq!['\\', 'u', '0', '0', hex_char(c as int / 16), hex_char(c as int % 16)]
    } else {
        seq![c]
    }
}

/// A string body with every character escaped as needed.
pub open spec fn esc_str(s: Seq<char>) -> Seq<char>
    decreases s.len(),
{
    if s.len() == 0 {
        Seq::empty()
    } else {
        esc_char(s[0]) + esc_str(s.skip(1))
    }
}

/// The JSON text of a document: no whitespace, object fields in storage
/// order, strings escaped as `esc_str` says.
pub open spec fn emit_spec(j: Json) -> Seq<char>
    decreases j, 0int,
{
    match j {
        Json::Null => "null"@,
        Json::Bool(b) => if b {
            "true"@
        } else {
            "false"@
        },
        Json::Num(n) => dec_digits(n as nat),
        Json::Str(s) => seq!['"'] + esc_str(s@) + seq!['"'],
        Json::Arr(v) => seq!['['] + emit_arr(v, 0) + seq![']'],
        Json::Obj(fields) => seq!['{'] + emit_obj(fields, 0) + seq!['}'],
    }
}

/// The comma-separated elements of an array, from position `i` on.
pub open spec fn emit_arr(v: Vec<Json>, i: int) -> Seq<char>
    decreases v, v.len() - i,
{
    if i < 0 || i >= v.len() {
        Seq::empty()
    } else if i + 1 < v.len() {
        emit_spec(v[i]) + seq![','] + emit_arr(v, i + 1)
    } else {
        emit_spec(v[i])
    }
}

/// The comma-separated fields of an object, from position `i` on.
pub open spec fn emit_obj(fields: Vec<(String, Json)>, i: int) -> Seq<char>
    decreases fields, fields.len() - i,
{
    if i < 0 || i >= fields.len() {
        Seq::empty()
    } else {
        let one = seq!['"'] + esc_str(fields[i].0@) + seq!['"'] + seq![':'] + emit_spec(
            fields[i].1,
        );
        if i + 1 < fields.len() {
            one + seq![','] + emit_obj(fields, i + 1)
        } else {
            one
        }
    }
}

fn emit_u64_into(n: u64, out: &mut String)
    ensures
        final(out)@ == old(out)@ + dec_digits(n as nat),
    decreases n,
{
    if n < 10 {
        let c = (48 + n as u8) as char;
        crate::strutil::push_char(out, c);
        assert(final(out)@ =~= old(out)@ + dec_digits(n as nat));
    } else {
        emit_u64_into(n / 10, out);
        let c = (48 + (n % 10) as u8) as char;
        crate::strutil::push_char(out, c);
        assert(final(out)@ =~= old(out)@ + dec_digits(n as nat));
    }
}

fn emit_str_body_into(s: &str, out: &mut String)
    ensures
        final(out)@ == old(out)@ + esc_str(s@),
{
    let len: usize = s.unicode_len();
    let mut i: usize = 0;
    proof {
        assert(s@.skip(0) =~= s@);
        assert(old(out)@ + Seq::<char>::empty() =~= old(out)@);
    }
    while i < len
        invariant
            i <= len,
            len == s@.len(),
            out@ + esc_str(s@.skip(i as int)) == old(out)@ + esc_str(s@),
        decreases len - i,
    {
        let c = s.get_char(i);
        proof {
            assert(s@.skip(i as int)[0] == c);
            assert(s@.skip(i as int).skip(1) =~= s@.skip(i + 1));
            assert(esc_str(s@.skip(i as int)) == esc_char(c) + esc_str(s@.skip(i + 1)));
        }
        let ghost before = out@;
        if c == '"' {
            crate::strutil::push_char(out, '\\');
            crate::strutil::push_char(out, '"');
        } else if c == '\\' {
            crate::strutil::push_char(out, '\\');
            crate::strutil::push_char(out, '\\');
        } else if (c as u32) < 0x20 {
            crate::strutil::push_char(out, '\\');
            crate::strutil::push_char(out, 'u');
            crate::strutil::push_char(out, '0');
            crate::strutil::push_char(out, '0');
            let hi = (c as u32) / 16;
            let lo = (c as u32) % 16;
            let hc = if hi < 10 {
                (48 + hi as u8) as char
            } else {
                (87 + hi as u8) as char
            };
            let lc = if lo < 10 {
                (48 + lo as u8) as char
            } else {
                (87 + lo as u8) as char
            };
            crate::strutil::push_char(out, hc);
            crate::strutil::push_char(out, lc);
        } else {
            crate::strutil::push_char(out, c);
        }
        proof {
            assert(out@ =~= before + esc_char(c));
            assert(out@ + esc_str(s@.skip(i + 1)) =~= before + esc_str(s@.skip(i as int)));
        }
        i = i + 1;
    }
    proof {
        assert(esc_str(s@.skip(len as int)) =~= Seq::<char>::empty());
        assert(final(out)@ =~= final(out)@ + esc_str(s@.skip(len as int)));
    }
}

fn emit_into(j: &Json, out: &mut String)
    ensures
        final(out)@ == old(out)@ + emit_spec(*j),
    decreases *j,
{
    broadcast use vstd::std_specs::vec::axiom_vec_index_decreases;

    match j {
        Json::Null => {
            out.append("null");
        },
        Json::Bool(b) => {
            if *b {
                out.append("true");
            } else {
                out.append("false");
            }
        },
        Json::Num(n) => {
            emit_u64_into(*n, out);
        },
        Json::Str(s) => {
            crate::strutil::push_char(out, '"');
            emit_str_body_into(s.as_str(), out);
            crate::strutil::push_char(out, '"');
            assert(final(out)@ =~= old(out)@ + emit_spec(*j));
        },
        Json::Arr(v) => {
            crate::strutil::push_char(out, '[');
            let mut i: usize = 0;
            while i < v.len()
                invariant
                    *j == Json::Arr(*v),
                    i <= v@.len(),
                    i == 0 ==> out@ == old(out)@ + seq!['['],
                    i > 0 ==> out@ + (if i < v@.len() {
                        seq![','] + emit_arr(*v, i as int)
                    } else {
                        Seq::<char>::empty()
                    }) == old(out)@ + seq!['['] + emit_arr(*v, 0),
                decreases v@.len() - i,
            {
                if i > 0 {
                    crate::strutil::push_char(out, ',');
                }
                proof {
                    assert(decreases_to!(*j => (*j)->Arr_0));
                    assert((*j)->Arr_0 == *v);
                    assert(decreases_to!(*v => v@));
                    assert(decreases_to!(v@ => v@[i as int]));
                }
                emit_into(&v[i], out);
                proof {
                    if i + 1 < v@.len() {
                        assert(emit_arr(*v, i as int) == emit_spec(v@[i as int]) + seq![',']
                            + emit_arr(*v, i + 1));
                    } else {
                        assert(emit_arr(*v, i as int) == emit_spec(v@[i as int]));
                    }
                    assert(out@ + (if i + 1 < v@.len() {
                        seq![','] + emit_arr(*v, i + 1)
                    } else {
                        Seq::<char>::empty()
                    }) =~= old(out)@ + seq!['['] + emit_arr(*v, 0));
                }
                i = i + 1;
            }
            crate::strutil::push_char(out, ']');
            proof {
                if v@.len() == 0 {
                    assert(emit_arr(*v, 0) =~= Seq::<char>::empty());
                }
                assert(final(out)@ =~= old(out)@ + emit_spec(*j));
            }
        },
        Json::Obj(fields) => {
            crate::strutil::push_char(out, '{');
            let mut i: usize = 0;
            while i < fields.len()
                invariant
                    *j == Json::Obj(*fields),
                    i <= fields@.len(),
                    i == 0 ==> out@ == old(out)@ + seq!['{'],
                    i > 0 ==> out@ + (if i < fields@.len() {
                        seq![','] + emit_obj(*fields, i as int)
                    } else {
                        Seq::<char>::empty()
                    }) == old(out)@ + seq!['{'] + emit_obj(*fields, 0),
                decreases fields@.len() - i,
            {
                if i > 0 {
                    crate::strutil::push_char(out, ',');
                }
                crate::strutil::push_char(out, '"');
                emit_str_body_into(fields[i].0.as_str(), out);
                crate::strutil::push_char(out, '"');
                crate::strutil::push_char(out, ':');
                proof {
                    assert(decreases_to!(*j => (*j)->Obj_0));
                    assert((*j)->Obj_0 == *fields);
                    assert(decreases_to!(*fields => fields@));
                    assert(decreases_to!(fields@ => fields@[i as int]));
                    assert(decreases_to!(fields@[i as int] => fields@[i as int].1));
                }
                emit_into(&fields[i].1, out);
                proof {
                    let one = seq!['"'] + esc_str(fields@[i as int].0@) + seq!['"'] + seq![':']
                        + emit_spec(fields@[i as int].1);
                    if i + 1 < fields@.len() {
                        assert(emit_obj(*fields, i as int) == one + seq![','] + emit_obj(
                            *fields,
                            i + 1,
                        ));
                    } else {
                        assert(emit_obj(*fields, i as int) == one);
                    }
                    assert(out@ + (if i + 1 < fields@.len() {
                        seq![','] + emit_obj(*fields, i + 1)
                    } else {
                        Seq::<char>::empty()
                    }) =~= old(out)@ + seq!['{'] + emit_obj(*fields, 0));
                }
                i = i + 1;
            }
            crate::strutil::push_char(out, '}');
            proof {
                if fields@.len() == 0 {
                    assert(emit_obj(*fields, 0) =~= Seq::<char>::empty());
                }
                assert(final(out)@ =~= old(out)@ + emit_spec(*j));
            }
        },
    }
}

/// Renders a document as JSON text, exactly as `emit_spec` lays it out.
pub fn emit_json(j: &Json) -> (r: String)
    ensures
        r@ == emit_spec(*j),
{
    let mut out = String::new();
    emit_into(j, &mut out);
    proof {
        assert(Seq::<char>::empty() + emit_spec(*j) =~= emit_spec(*j));
    }
    out
}

} // verus!
