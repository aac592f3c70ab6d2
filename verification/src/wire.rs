//! The documents this crate puts on the wire.
//!
//! A request body is built as a [`Json`] document and printed to text by
//! [`json_min_text`]; the exact text is pinned down, character by
//! character, by [`min_text_of`].  A document may embed an untyped
//! `serde_json::Value` (a tool's parameter schema, or a whole passthrough
//! request); such a node is printed by `serde_json` itself, which cannot
//! fail on a `Value`.
use vstd::prelude::*;

use crate::json::{json_text_of, json_to_text};

verus! {

/// A JSON document with the shapes this crate's requests need.
#[derive(Debug)]
pub enum Json {
    Null,
    Bool(bool),
    UInt(u64),
    Str(String),
    Arr(Vec<Json>),
    Obj(Vec<(String, Json)>),
    /// An untyped document taken over as it is.
    External(serde_json::Value),
}

/// The mathematical content of a [`Json`] document.
pub enum JsonView {
    Null,
    Bool(bool),
    UInt(u64),
    Str(Seq<char>),
    Arr(Seq<JsonView>),
    Obj(Seq<(Seq<char>, JsonView)>),
    External(serde_json::Value),
}

pub open spec fn view_json(j: Json) -> JsonView
    decreases j,
{
    match j {
        Json::Null => JsonView::Null,
        Json::Bool(b) => JsonView::Bool(b),
        Json::UInt(n) => JsonView::UInt(n),
        Json::Str(s) => JsonView::Str(s@),
        Json::Arr(items) => JsonView::Arr(view_json_vec(items@)),
        Json::Obj(fields) => JsonView::Obj(view_json_fields(fields@)),
        Json::External(v) => JsonView::External(v),
    }
}

pub open spec fn view_json_vec(items: Seq<Json>) -> Seq<JsonView>
    decreases items,
{
    if items.len() == 0 {
        Seq::empty()
    } else {
        view_json_vec(items.drop_last()).push(view_json(items.last()))
    }
}

pub open spec fn view_json_fields(fields: Seq<(String, Json)>) -> Seq<(Seq<char>, JsonView)>
    decreases fields,
{
    if fields.len() == 0 {
        Seq::empty()
    } else {
        view_json_fields(fields.drop_last()).push(
            (fields.last().0@, view_json(fields.last().1)),
        )
    }
}

/// The view of a list of documents is the list of their views.
pub proof fn lemma_view_json_vec(items: Seq<Json>)
    ensures
        view_json_vec(items).len() == items.len(),
        forall|i: int| 0 <= i < items.len() ==> view_json_vec(items)[i] == view_json(
            #[trigger] items[i],
        ),
    decreases items.len(),
{
    if items.len() > 0 {
        lemma_view_json_vec(items.drop_last());
        assert forall|i: int| 0 <= i < items.len() implies view_json_vec(items)[i] == view_json(
            #[trigger] items[i],
        ) by {
            if i < items.len() - 1 {
                assert(items.drop_last()[i] == items[i]);
            } else {
                assert(items[i] == items.last());
            }
        }
    }
}

/// The view of a list of members is the list of their views.
pub proof fn lemma_view_json_fields(fields: Seq<(String, Json)>)
    ensures
        view_json_fields(fields).len() == fields.len(),
        forall|i: int| 0 <= i < fields.len() ==> view_json_fields(fields)[i] == (
            #[trigger] fields[i].0@,
            view_json(fields[i].1),
        ),
    decreases fields.len(),
{
    if fields.len() > 0 {
        lemma_view_json_fields(fields.drop_last());
        assert forall|i: int| 0 <= i < fields.len() implies view_json_fields(fields)[i] == (
            (#[trigger] fields[i]).0@,
            view_json(fields[i].1),
        ) by {
            if i < fields.len() - 1 {
                assert(fields.drop_last()[i] == fields[i]);
            } else {
                assert(fields[i] == fields.last());
            }
        }
    }
}

impl View for Json {
    type V = JsonView;

    open spec fn view(&self) -> JsonView {
        view_json(*self)
    }
}

/// The decimal digit for one value below ten.
pub open spec fn dec_digit(n: nat) -> char {
    if n == 0 {
        '0'
    } else if n == 1 {
        '1'
    } else if n == 2 {
        '2'
    } else if n == 3 {
        '3'
    } else if n == 4 {
        '4'
    } else if n == 5 {
        '5'
    } else if n == 6 {
        '6'
    } else if n == 7 {
        '7'
    } else if n == 8 {
        '8'
    } else {
        '9'
    }
}

/// The decimal rendering of a number, most significant digit first.
pub open spec fn dec_text(n: nat) -> Seq<char>
    decreases n,
{
    if n < 10 {
        seq![dec_digit(n)]
    } else {
        dec_text(n / 10).push(dec_digit(n % 10))
    }
}

/// The lower-case hexadecimal digit for one value below sixteen.
pub open spec fn hex_digit(n: nat) -> char {
    if n < 10 {
        dec_digit(n)
    } else if n == 10 {
        'a'
    } else if n == 11 {
        'b'
    } else if n == 12 {
        'c'
    } else if n == 13 {
        'd'
    } else if n == 14 {
        'e'
    } else {
        'f'
    }
}

/// How one character appears inside a JSON string literal: quote and
/// backslash are escaped, the named control characters take their short
/// escapes, any other control character its `\u00..` escape, and
/// everything else stands as it is.
pub open spec fn esc_char(c: char) -> Seq<char> {
    if c == '"' {
        seq!['\\', '"']
    } else if c == '\\' {
        seq!['\\', '\\']
    } else if c == '\u{8}' {
        seq!['\\', 'b']
    } else if c == '\t' {
        seq!['\\', 't']
    } else if c == '\n' {
        seq!['\\', 'n']
    } else if c == '\u{c}' {
        seq!['\\', 'f']
    } else if c == '\r' {
        seq!['\\', 'r']
    } else if (c as u32) < 32 {
        let hi = hex_digit((c as u32 / 16) as nat);
        let lo = hex_digit((c as u32 % 16) as nat);
        seq!['\\', 'u', '0', '0', hi, lo]
    } else {
        seq![c]
    }
}

/// The body of a JSON string literal for this text.
pub open spec fn escaped(s: Seq<char>) -> Seq<char>
    decreases s.len(),
{
    if s.len() == 0 {
        Seq::empty()
    } else {
        escaped(s.drop_last()) + esc_char(s.last())
    }
}

/// A whole JSON string literal: quotes around the escaped text.
pub open spec fn quoted(s: Seq<char>) -> Seq<char> {
    seq!['"'] + escaped(s) + seq!['"']
}

/// Texts joined with commas between them.
pub open spec fn comma_joined(texts: Seq<Seq<char>>) -> Seq<char>
    decreases texts.len(),
{
    if texts.len() == 0 {
        Seq::empty()
    } else if texts.len() == 1 {
        texts.last()
    } else {
        comma_joined(texts.drop_last()) + seq![','] + texts.last()
    }
}

/// The compact text of a document: no spaces, members in order, strings
/// escaped as [`esc_char`] says; an embedded untyped document prints as
/// `serde_json` prints it.
pub open spec fn min_text_of(j: JsonView) -> Seq<char>
    decreases j,
{
    match j {
        JsonView::Null => "null"@,
        JsonView::Bool(b) => if b {
            "true"@
        } else {
            "false"@
        },
        JsonView::UInt(n) => dec_text(n as nat),
        JsonView::Str(s) => quoted(s),
        JsonView::Arr(items) => seq!['['] + comma_joined(arr_item_texts(items)) + seq![']'],
        JsonView::Obj(fields) => seq!['{'] + comma_joined(obj_member_texts(fields)) + seq!['}'],
        JsonView::External(v) => json_text_of(v),
    }
}

/// The printed elements of an array, in order.
pub open spec fn arr_item_texts(items: Seq<JsonView>) -> Seq<Seq<char>>
    decreases items,
{
    if items.len() == 0 {
        Seq::empty()
    } else {
        arr_item_texts(items.drop_last()).push(min_text_of(items.last()))
    }
}

/// The printed members of an object, each `"key":value`, in order.
pub open spec fn obj_member_texts(fields: Seq<(Seq<char>, JsonView)>) -> Seq<Seq<char>>
    decreases fields,
{
    if fields.len() == 0 {
        Seq::empty()
    } else {
        obj_member_texts(fields.drop_last()).push(
            quoted(fields.last().0) + seq![':'] + min_text_of(fields.last().1),
        )
    }
}

/// An array's printed elements are its elements, printed.
pub proof fn lemma_arr_item_texts(items: Seq<JsonView>)
    ensures
        arr_item_texts(items).len() == items.len(),
        forall|i: int| 0 <= i < items.len() ==> arr_item_texts(items)[i] == min_text_of(
            #[trigger] items[i],
        ),
    decreases items.len(),
{
    if items.len() > 0 {
        lemma_arr_item_texts(items.drop_last());
        assert forall|i: int| 0 <= i < items.len() implies arr_item_texts(items)[i] == min_text_of(
            #[trigger] items[i],
        ) by {
            if i < items.len() - 1 {
                assert(items.drop_last()[i] == items[i]);
            } else {
                assert(items[i] == items.last());
            }
        }
    }
}

/// An object's printed members are its members, printed.
pub proof fn lemma_obj_member_texts(fields: Seq<(Seq<char>, JsonView)>)
    ensures
        obj_member_texts(fields).len() == fields.len(),
        forall|i: int| 0 <= i < fields.len() ==> obj_member_texts(fields)[i] == quoted(
            (#[trigger] fields[i]).0,
        ) + seq![':'] + min_text_of(fields[i].1),
    decreases fields.len(),
{
    if fields.len() > 0 {
        lemma_obj_member_texts(fields.drop_last());
        assert forall|i: int| 0 <= i < fields.len() implies obj_member_texts(fields)[i] == quoted(
            (#[trigger] fields[i]).0,
        ) + seq![':'] + min_text_of(fields[i].1) by {
            if i < fields.len() - 1 {
                assert(fields.drop_last()[i] == fields[i]);
            } else {
                assert(fields[i] == fields.last());
            }
        }
    }
}

/// A document and its view sit in the same variant.
pub proof fn lemma_view_variants(j: Json)
    ensures
        view_json(j) is Null <==> j is Null,
        view_json(j) is Bool <==> j is Bool,
        view_json(j) is UInt <==> j is UInt,
        view_json(j) is Str <==> j is Str,
        view_json(j) is Arr <==> j is Arr,
        view_json(j) is Obj <==> j is Obj,
        view_json(j) is External <==> j is External,
{
}

/// Relies on std's String::from_iter over chars: the string holds exactly
/// the given characters, in order.
#[verifier::external_body]
fn chars_to_string(chars: &Vec<char>) -> (r: String)
    ensures
        r@ == chars@,
{
    chars.iter().collect()
}

/// The decimal rendering of a number.
pub fn u64_to_dec(n: u64) -> (r: String)
    ensures
        r@ == dec_text(n as nat),
{
    let mut digits: Vec<char> = Vec::new();
    let mut rest: u64 = n;
    loop
        invariant_except_break
            dec_text(n as nat) == dec_text(rest as nat) + digits@,
        ensures
            dec_text(n as nat) == digits@,
        decreases rest,
    {
        let d: u64 = rest % 10;
        let c = dec_digit_char(d);
        let ghost before = digits@;
        digits.insert(0, c);
        proof {
            assert(digits@ =~= seq![c] + before);
        }
        if rest < 10 {
            proof {
                assert(dec_text(rest as nat) =~= seq![c]);
                assert(dec_text(n as nat) =~= digits@);
            }
            break ;
        }
        proof {
            assert(dec_text(rest as nat) == dec_text(rest as nat / 10).push(
                dec_digit(rest as nat % 10),
            ));
            assert(dec_text(rest as nat) =~= dec_text((rest / 10) as nat) + seq![c]);
            assert(dec_text(n as nat) =~= dec_text((rest / 10) as nat) + digits@);
        }
        rest = rest / 10;
    }
    chars_to_string(&digits)
}

/// The decimal digit character for a value below ten.
fn dec_digit_char(d: u64) -> (r: char)
    requires
        d < 10,
    ensures
        r == dec_digit(d as nat),
{
    match d {
        0 => '0',
        1 => '1',
        2 => '2',
        3 => '3',
        4 => '4',
        5 => '5',
        6 => '6',
        7 => '7',
        8 => '8',
        _ => '9',
    }
}

/// The lower-case hexadecimal digit character for a value below sixteen.
fn hex_digit_char(d: u32) -> (r: char)
    requires
        d < 16,
    ensures
        r == hex_digit(d as nat),
{
    match d {
        0 => '0',
        1 => '1',
        2 => '2',
        3 => '3',
        4 => '4',
        5 => '5',
        6 => '6',
        7 => '7',
        8 => '8',
        9 => '9',
        10 => 'a',
        11 => 'b',
        12 => 'c',
        13 => 'd',
        14 => 'e',
        _ => 'f',
    }
}

/// Appends the escape of one character to the accumulator.
fn push_escaped_char(out: &mut Vec<char>, c: char)
    ensures
        final(out)@ == old(out)@ + esc_char(c),
{
    if c == '"' {
        out.push('\\');
        out.push('"');
    } else if c == '\\' {
        out.push('\\');
        out.push('\\');
    } else if c == '\u{8}' {
        out.push('\\');
        out.push('b');
    } else if c == '\t' {
        out.push('\\');
        out.push('t');
    } else if c == '\n' {
        out.push('\\');
        out.push('n');
    } else if c == '\u{c}' {
        out.push('\\');
        out.push('f');
    } else if c == '\r' {
        out.push('\\');
        out.push('r');
    } else if (c as u32) < 32 {
        let v = c as u32;
        out.push('\\');
        out.push('u');
        out.push('0');
        out.push('0');
        out.push(hex_digit_char(v / 16));
        out.push(hex_digit_char(v % 16));
    } else {
        out.push(c);
    }
    proof {
        assert(out@ =~= old(out)@ + esc_char(c));
    }
}

/// Appends a whole JSON string literal for `s` to the accumulator.
fn push_quoted(out: &mut Vec<char>, s: &str)
    ensures
        final(out)@ == old(out)@ + quoted(s@),
{
    out.push('"');
    let len = s.unicode_len();
    let mut i: usize = 0;
    while i < len
        invariant
            i <= len,
            len == s@.len(),
            out@ == old(out)@ + seq!['"'] + escaped(s@.subrange(0, i as int)),
        decreases len - i,
    {
        let c = s.get_char(i);
        push_escaped_char(out, c);
        proof {
            let pre = s@.subrange(0, i + 1);
            assert(pre.drop_last() =~= s@.subrange(0, i as int));
            assert(pre.last() == c);
        }
        i = i + 1;
    }
    out.push('"');
    proof {
        assert(s@.subrange(0, s@.len() as int) =~= s@);
        assert(out@ =~= old(out)@ + quoted(s@));
    }
}

/// Prints a document as compact JSON text.
pub fn json_min_text(j: &Json) -> (r: String)
    ensures
        r@ == min_text_of(j@),
{
    let mut out: Vec<char> = Vec::new();
    write_json(&mut out, j);
    chars_to_string(&out)
}

/// How one more element extends a comma-joined text.
proof fn lemma_comma_joined_step(texts: Seq<Seq<char>>, i: int)
    requires
        0 <= i < texts.len(),
    ensures
        comma_joined(texts.subrange(0, i + 1)) == if i == 0 {
            texts[0]
        } else {
            comma_joined(texts.subrange(0, i)) + seq![','] + texts[i]
        },
{
    let pre = texts.subrange(0, i + 1);
    assert(pre.drop_last() =~= texts.subrange(0, i));
    assert(pre.last() == texts[i]);
}

/// Appends the compact text of a document to the accumulator.
fn write_json(out: &mut Vec<char>, j: &Json)
    ensures
        final(out)@ == old(out)@ + min_text_of(j@),
    decreases *j,
{
    match j {
        Json::Null => {
            out.push('n');
            out.push('u');
            out.push('l');
            out.push('l');
            proof {
                reveal_strlit("null");
                assert(out@ =~= old(out)@ + "null"@);
            }
        },
        Json::Bool(b) => {
            if *b {
                out.push('t');
                out.push('r');
                out.push('u');
                out.push('e');
                proof {
                    reveal_strlit("true");
                    assert(out@ =~= old(out)@ + "true"@);
                }
            } else {
                out.push('f');
                out.push('a');
                out.push('l');
                out.push('s');
                out.push('e');
                proof {
                    reveal_strlit("false");
                    assert(out@ =~= old(out)@ + "false"@);
                }
            }
        },
        Json::UInt(n) => {
            let t = u64_to_dec(*n);
            push_str_chars(out, t.as_str());
        },
        Json::Str(s) => {
            push_quoted(out, s.as_str());
        },
        Json::Arr(items) => {
            out.push('[');
            let ghost views = Seq::new(items@.len(), |k: int| view_json(items@[k]));
            let ghost texts = Seq::new(views.len(), |k: int| min_text_of(views[k]));
            proof {
                lemma_view_json_vec(items@);
                assert(view_json_vec(items@) =~= views);
            }
            let mut i: usize = 0;
            while i < items.len()
                invariant
                    i <= items.len(),
                    views == Seq::new(items@.len(), |k: int| view_json(items@[k])),
                    texts == Seq::new(views.len(), |k: int| min_text_of(views[k])),
                    j@ == JsonView::Arr(views),
                    *j == Json::Arr(*items),
                    out@ == old(out)@ + seq!['['] + comma_joined(texts.subrange(0, i as int)),
                decreases items@.len() - i,
            {
                if i > 0 {
                    out.push(',');
                }
                proof {
                    assert(*j == Json::Arr(*items));
                    assert(decreases_to!(Json::Arr(*items) => *items));
                    assert(decreases_to!(*items => items@[i as int]));
                }
                write_json(out, &items[i]);
                proof {
                    lemma_comma_joined_step(texts, i as int);
                    assert(out@ =~= old(out)@ + seq!['['] + comma_joined(
                        texts.subrange(0, i + 1),
                    ));
                }
                i = i + 1;
            }
            out.push(']');
            proof {
                assert(texts.subrange(0, texts.len() as int) =~= texts);
                lemma_arr_item_texts(views);
                assert(arr_item_texts(views) =~= texts);
                assert(out@ =~= old(out)@ + min_text_of(j@));
            }
        },
        Json::Obj(fields) => {
            out.push('{');
            let ghost views = Seq::new(
                fields@.len(),
                |k: int| (fields@[k].0@, view_json(fields@[k].1)),
            );
            let ghost texts = Seq::new(
                views.len(),
                |k: int| quoted(views[k].0) + seq![':'] + min_text_of(views[k].1),
            );
            proof {
                lemma_view_json_fields(fields@);
                assert(view_json_fields(fields@) =~= views);
            }
            let mut i: usize = 0;
            while i < fields.len()
                invariant
                    i <= fields.len(),
                    views == Seq::new(
                        fields@.len(),
                        |k: int| (fields@[k].0@, view_json(fields@[k].1)),
                    ),
                    texts == Seq::new(
                        views.len(),
                        |k: int| quoted(views[k].0) + seq![':'] + min_text_of(views[k].1),
                    ),
                    j@ == JsonView::Obj(views),
                    *j == Json::Obj(*fields),
                    out@ == old(out)@ + seq!['{'] + comma_joined(texts.subrange(0, i as int)),
                decreases fields@.len() - i,
            {
                if i > 0 {
                    out.push(',');
                }
                push_quoted(out, fields[i].0.as_str());
                out.push(':');
                proof {
                    assert(*j == Json::Obj(*fields));
                    assert(decreases_to!(Json::Obj(*fields) => *fields));
                    assert(decreases_to!(*fields => fields@[i as int]));
                    assert(decreases_to!(fields@[i as int] => fields@[i as int].1));
                }
                write_json(out, &fields[i].1);
                proof {
                    lemma_comma_joined_step(texts, i as int);
                    assert(out@ =~= old(out)@ + seq!['{'] + comma_joined(
                        texts.subrange(0, i + 1),
                    ));
                }
                i = i + 1;
            }
            out.push('}');
            proof {
                assert(texts.subrange(0, texts.len() as int) =~= texts);
                lemma_obj_member_texts(views);
                assert(obj_member_texts(views) =~= texts);
                assert(out@ =~= old(out)@ + min_text_of(j@));
            }
        },
        Json::External(v) => {
            let t = json_to_text(v);
            push_str_chars(out, t.as_str());
        },
    }
}

/// Appends every character of `s` to the accumulator.
fn push_str_chars(out: &mut Vec<char>, s: &str)
    ensures
        final(out)@ == old(out)@ + s@,
{
    let len = s.unicode_len();
    let mut i: usize = 0;
    while i < len
        invariant
            i <= len,
            len == s@.len(),
            out@ == old(out)@ + s@.subrange(0, i as int),
        decreases len - i,
    {
        let c = s.get_char(i);
        out.push(c);
        proof {
            assert(out@ =~= old(out)@ + s@.subrange(0, i + 1));
        }
        i = i + 1;
    }
    proof {
        assert(s@.subrange(0, s@.len() as int) =~= s@);
    }
}

} // verus!
