//! The emission engine and the exact text it produces.
//!
//! [`render`] is the specification: the full text one value tree emits.
//! [`Uneval`] is the executable serializer, proved to append exactly that
//! text to its sink, or, when the sink rejects a write, to stop at once
//! having appended a prefix of it.

use vstd::prelude::*;

use crate::error::CoronaError;
use crate::sink::Sink;
use crate::text::{dec_digits, int_digits, push_char, push_dec_i128, push_dec_u128};
use crate::value::Value;

verus! {

/// The decimal text of one byte followed by its width suffix.
pub open spec fn byte_text(b: u8) -> Seq<char> {
    dec_digits(b as nat) + "u8"@
}

/// The full text one value emits.
pub open spec fn render(v: Value) -> Seq<char>
    decreases v,
{
    match v {
        Value::Bool(b) => if b {
            "true"@
        } else {
            "false"@
        },
        Value::I8(x) => int_digits(x as int) + "i8"@,
        Value::I16(x) => int_digits(x as int) + "i16"@,
        Value::I32(x) => int_digits(x as int) + "i32"@,
        Value::I64(x) => int_digits(x as int) + "i64"@,
        Value::I128(x) => int_digits(x as int) + "i128"@,
        Value::U8(x) => dec_digits(x as nat) + "u8"@,
        Value::U16(x) => dec_digits(x as nat) + "u16"@,
        Value::U32(x) => dec_digits(x as nat) + "u32"@,
        Value::U64(x) => dec_digits(x as nat) + "u64"@,
        Value::U128(x) => dec_digits(x as nat) + "u128"@,
        Value::F32(t) => t@ + "f32"@,
        Value::F64(t) => t@ + "f64"@,
        Value::Char(c) => seq!['\''] + seq![c] + seq!['\''],
        Value::Str(s) => seq!['"'] + s@ + "\".into()"@,
        Value::Bytes(bs) => "vec!["@ + render_bytes(bs@) + "].into_iter().collect()"@,
        Value::NoneVal => "None"@,
        Value::SomeVal(inner) => "Some("@ + render(*inner) + ")"@,
        Value::Unit => "()"@,
        Value::UnitStruct(n) => n@,
        Value::UnitVariant(n, var) => n@ + "::"@ + var@,
        Value::NewtypeStruct(n, inner) => n@ + "("@ + render(*inner) + ")"@,
        Value::NewtypeVariant(n, var, inner) => n@ + "::"@ + var@ + "("@ + render(*inner)
            + ")"@,
        Value::Sequence(elems) => "vec!["@ + render_items(elems@) + "].into_iter().collect()"@,
        Value::Tuple(elems) => if elems@.len() == 0 {
            "[]"@
        } else {
            "::uneval::convert::convert_tuple_"@ + dec_digits(elems@.len()) + "(("@
                + render_items(elems@) + ",))"@
        },
        Value::TupleStruct(n, elems) => n@ + "("@ + render_items(elems@) + ")"@,
        Value::TupleVariant(n, var, elems) => n@ + "::"@ + var@ + "("@ + render_items(elems@)
            + ")"@,
        Value::Mapping(pairs) => "vec!["@ + render_pairs(pairs@) + "].into_iter().collect()"@,
        Value::Struct(n, fields) => n@ + " {"@ + render_fields(fields@) + "}"@,
        Value::StructVariant(n, var, fields) => n@ + "::"@ + var@ + " {"@ + render_fields(
            fields@,
        ) + "}"@,
    }
}

/// The text of a run of elements: one `,` strictly between each pair of
/// consecutive elements, none leading, none trailing.
pub open spec fn render_items(items: Seq<Value>) -> Seq<char>
    decreases items,
{
    if items.len() == 0 {
        Seq::<char>::empty()
    } else if items.len() == 1 {
        render(items[0])
    } else {
        render_items(items.drop_last()) + ","@ + render(items.last())
    }
}

/// The text of a run of bytes, separated like any other elements.
pub open spec fn render_bytes(bs: Seq<u8>) -> Seq<char>
    decreases bs.len(),
{
    if bs.len() == 0 {
        Seq::<char>::empty()
    } else if bs.len() == 1 {
        byte_text(bs[0])
    } else {
        render_bytes(bs.drop_last()) + ","@ + byte_text(bs.last())
    }
}

/// The text of one key-value entry: a parenthesised two-element group.
pub open spec fn pair_text(p: (Value, Value)) -> Seq<char>
    decreases p,
{
    "("@ + render(p.0) + ","@ + render(p.1) + ")"@
}

/// The text of a run of key-value entries.
pub open spec fn render_pairs(pairs: Seq<(Value, Value)>) -> Seq<char>
    decreases pairs,
{
    if pairs.len() == 0 {
        Seq::<char>::empty()
    } else if pairs.len() == 1 {
        pair_text(pairs[0])
    } else {
        render_pairs(pairs.drop_last()) + ","@ + pair_text(pairs.last())
    }
}

/// The text of one named field: `name: value`.
pub open spec fn field_text(f: (String, Value)) -> Seq<char>
    decreases f,
{
    f.0@ + ": "@ + render(f.1)
}

/// The text of a run of named fields.
pub open spec fn render_fields(fields: Seq<(String, Value)>) -> Seq<char>
    decreases fields,
{
    if fields.len() == 0 {
        Seq::<char>::empty()
    } else if fields.len() == 1 {
        field_text(fields[0])
    } else {
        render_fields(fields.drop_last()) + ","@ + field_text(fields.last())
    }
}

/// The separator one level emits before an element: a comma exactly when an
/// element was already emitted at that level.
pub open spec fn sep_text(already: bool) -> Seq<char> {
    if already {
        ","@
    } else {
        Seq::<char>::empty()
    }
}

/// Separator correctness: a run of elements has no leading or trailing
/// separator, and exactly one separator strictly between each pair of
/// consecutive elements — none for an empty run, none around a single
/// element, and appending one more element to a nonempty run adds exactly
/// one comma before its text.
pub proof fn lemma_separators(items: Seq<Value>, x: Value)
    ensures
        render_items(Seq::<Value>::empty()) == Seq::<char>::empty(),
        render_items(seq![x]) == render(x),
        items.len() >= 1 ==> render_items(items.push(x)) == render_items(items) + ","@ + render(
            x,
        ),
{
    assert(seq![x][0] == x);
    if items.len() >= 1 {
        assert(items.push(x).drop_last() =~= items);
        assert(items.push(x).last() == x);
    }
}

/// Scalar round trip, for the integer kinds: the emitted text is the decimal
/// literal of the value followed by its exact width suffix, and the literal
/// denotes the very value it was rendered from, so compiling the text against
/// the original static type reproduces the value.
pub proof fn lemma_scalar_round_trip(v: Value)
    ensures
        v matches Value::U8(x) ==> render(v) == dec_digits(x as nat) + "u8"@ && crate::text::parse_dec(
            dec_digits(x as nat),
        ) == x as nat,
        v matches Value::U16(x) ==> render(v) == dec_digits(x as nat) + "u16"@
            && crate::text::parse_dec(dec_digits(x as nat)) == x as nat,
        v matches Value::U32(x) ==> render(v) == dec_digits(x as nat) + "u32"@
            && crate::text::parse_dec(dec_digits(x as nat)) == x as nat,
        v matches Value::U64(x) ==> render(v) == dec_digits(x as nat) + "u64"@
            && crate::text::parse_dec(dec_digits(x as nat)) == x as nat,
        v matches Value::U128(x) ==> render(v) == dec_digits(x as nat) + "u128"@
            && crate::text::parse_dec(dec_digits(x as nat)) == x as nat,
        v matches Value::I8(x) ==> render(v) == int_digits(x as int) + "i8"@
            && crate::text::parse_int(int_digits(x as int)) == x as int,
        v matches Value::I16(x) ==> render(v) == int_digits(x as int) + "i16"@
            && crate::text::parse_int(int_digits(x as int)) == x as int,
        v matches Value::I32(x) ==> render(v) == int_digits(x as int) + "i32"@
            && crate::text::parse_int(int_digits(x as int)) == x as int,
        v matches Value::I64(x) ==> render(v) == int_digits(x as int) + "i64"@
            && crate::text::parse_int(int_digits(x as int)) == x as int,
        v matches Value::I128(x) ==> render(v) == int_digits(x as int) + "i128"@
            && crate::text::parse_int(int_digits(x as int)) == x as int,
{
    match v {
        Value::U8(x) => crate::text::lemma_dec_digits_round_trip(x as nat),
        Value::U16(x) => crate::text::lemma_dec_digits_round_trip(x as nat),
        Value::U32(x) => crate::text::lemma_dec_digits_round_trip(x as nat),
        Value::U64(x) => crate::text::lemma_dec_digits_round_trip(x as nat),
        Value::U128(x) => crate::text::lemma_dec_digits_round_trip(x as nat),
        Value::I8(x) => crate::text::lemma_int_digits_round_trip(x as int),
        Value::I16(x) => crate::text::lemma_int_digits_round_trip(x as int),
        Value::I32(x) => crate::text::lemma_int_digits_round_trip(x as int),
        Value::I64(x) => crate::text::lemma_int_digits_round_trip(x as int),
        Value::I128(x) => crate::text::lemma_int_digits_round_trip(x as int),
        _ => {},
    }
}

/// Zero arity bypasses the dispatch table: an empty fixed-length group is
/// emitted as a bare empty-array literal, with no dispatch call around it.
pub proof fn lemma_zero_arity_group(v: Value)
    requires
        v matches Value::Tuple(elems) && elems@.len() == 0,
    ensures
        render(v) == "[]"@,
{
}

pub(crate) proof fn lemma_prefix_refl(s: Seq<char>)
    ensures
        s.is_prefix_of(s),
{
    assert(s =~= s.subrange(0, s.len() as int));
}

pub(crate) proof fn lemma_prefix_extend(a: Seq<char>, b: Seq<char>)
    ensures
        a.is_prefix_of(a + b),
{
    assert(a =~= (a + b).subrange(0, a.len() as int));
}

pub(crate) proof fn lemma_prefix_trans(a: Seq<char>, b: Seq<char>, c: Seq<char>)
    requires
        a.is_prefix_of(b),
        b.is_prefix_of(c),
    ensures
        a.is_prefix_of(c),
{
    assert(a =~= c.subrange(0, a.len() as int));
}

pub(crate) proof fn lemma_prefix_mono(a: Seq<char>, b1: Seq<char>, b2: Seq<char>)
    requires
        b1.is_prefix_of(b2),
    ensures
        (a + b1).is_prefix_of(a + b2),
{
    assert(a + b1 =~= (a + b2).subrange(0, (a + b1).len() as int));
}

/// An emission that stopped before writing anything: what stands is a prefix
/// of itself and of anything it is extended by.
pub(crate) proof fn lemma_err_stop(base: Seq<char>, a: Seq<char>, b: Seq<char>)
    ensures
        base.is_prefix_of(base),
        base.is_prefix_of(base + a),
        base.is_prefix_of(base + a + b),
{
    lemma_prefix_refl(base);
    lemma_prefix_extend(base, a);
    lemma_prefix_extend(base + a, b);
    lemma_prefix_trans(base, base + a, base + a + b);
}

/// An emission that failed in its middle part: `done` was written whole,
/// then a prefix of `part`; the result extends the base by a prefix of the
/// full text `done + part + tail`.
pub(crate) proof fn lemma_err_compose(
    base: Seq<char>,
    done: Seq<char>,
    part: Seq<char>,
    tail: Seq<char>,
    now: Seq<char>,
    full: Seq<char>,
)
    requires
        (base + done).is_prefix_of(now),
        now.is_prefix_of(base + done + part),
        full == done + part + tail,
    ensures
        base.is_prefix_of(now),
        now.is_prefix_of(base + full),
{
    lemma_prefix_extend(base, done);
    lemma_prefix_trans(base, base + done, now);
    assert(base + done + part =~= base + (done + part));
    lemma_prefix_extend(done + part, tail);
    lemma_prefix_mono(base, done + part, done + part + tail);
    assert(base + (done + part) =~= base + done + part);
    lemma_prefix_trans(now, base + (done + part), base + (done + part + tail));
    assert(base + (done + part + tail) =~= base + full);
}

/// An emission that failed on its closing fragment: everything before the
/// closer was written whole.
pub(crate) proof fn lemma_err_close(base: Seq<char>, done: Seq<char>, tail: Seq<char>, full: Seq<char>)
    requires
        full == done + tail,
    ensures
        base.is_prefix_of(base + done),
        (base + done).is_prefix_of(base + full),
{
    lemma_prefix_extend(base, done);
    lemma_prefix_extend(done, tail);
    lemma_prefix_mono(base, done, done + tail);
    assert(base + (done + tail) =~= base + full);
}

/// One more element extends the rendered run by its separator and its text.
proof fn lemma_items_step(items: Seq<Value>, k: int)
    requires
        0 <= k < items.len(),
    ensures
        render_items(items.subrange(0, k + 1)) == render_items(items.subrange(0, k)) + sep_text(
            k > 0,
        ) + render(items[k]),
{
    let a = items.subrange(0, k + 1);
    assert(a.drop_last() =~= items.subrange(0, k));
    assert(a.last() == items[k]);
    if k == 0 {
        assert(render_items(items.subrange(0, 0)) == Seq::<char>::empty());
        assert(Seq::<char>::empty() + Seq::<char>::empty() + render(items[0]) =~= render(
            items[0],
        ));
    }
}

/// The rendered text of a front run is a prefix of the whole rendered run.
proof fn lemma_items_prefix(items: Seq<Value>, k: int)
    requires
        0 <= k <= items.len(),
    ensures
        render_items(items.subrange(0, k)).is_prefix_of(render_items(items)),
    decreases items.len() - k,
{
    if k == items.len() {
        assert(items.subrange(0, k) =~= items);
        lemma_prefix_refl(render_items(items));
    } else {
        lemma_items_step(items, k);
        lemma_prefix_extend(render_items(items.subrange(0, k)), sep_text(k > 0) + render(items[k]));
        assert(render_items(items.subrange(0, k)) + (sep_text(k > 0) + render(items[k])) =~= render_items(
            items.subrange(0, k + 1),
        ));
        lemma_items_prefix(items, k + 1);
        lemma_prefix_trans(
            render_items(items.subrange(0, k)),
            render_items(items.subrange(0, k + 1)),
            render_items(items),
        );
    }
}

/// One more byte extends the rendered run by its separator and its text.
proof fn lemma_bytes_step(bs: Seq<u8>, k: int)
    requires
        0 <= k < bs.len(),
    ensures
        render_bytes(bs.subrange(0, k + 1)) == render_bytes(bs.subrange(0, k)) + sep_text(k > 0)
            + byte_text(bs[k]),
{
    let a = bs.subrange(0, k + 1);
    assert(a.drop_last() =~= bs.subrange(0, k));
    assert(a.last() == bs[k]);
    if k == 0 {
        assert(render_bytes(bs.subrange(0, 0)) == Seq::<char>::empty());
        assert(Seq::<char>::empty() + Seq::<char>::empty() + byte_text(bs[0]) =~= byte_text(
            bs[0],
        ));
    }
}

/// The rendered text of a front run of bytes is a prefix of the whole.
proof fn lemma_bytes_prefix(bs: Seq<u8>, k: int)
    requires
        0 <= k <= bs.len(),
    ensures
        render_bytes(bs.subrange(0, k)).is_prefix_of(render_bytes(bs)),
    decreases bs.len() - k,
{
    if k == bs.len() {
        assert(bs.subrange(0, k) =~= bs);
        lemma_prefix_refl(render_bytes(bs));
    } else {
        lemma_bytes_step(bs, k);
        lemma_prefix_extend(render_bytes(bs.subrange(0, k)), sep_text(k > 0) + byte_text(bs[k]));
        assert(render_bytes(bs.subrange(0, k)) + (sep_text(k > 0) + byte_text(bs[k])) =~= render_bytes(
            bs.subrange(0, k + 1),
        ));
        lemma_bytes_prefix(bs, k + 1);
        lemma_prefix_trans(
            render_bytes(bs.subrange(0, k)),
            render_bytes(bs.subrange(0, k + 1)),
            render_bytes(bs),
        );
    }
}

/// One more entry extends the rendered run by its separator and its text.
proof fn lemma_pairs_step(pairs: Seq<(Value, Value)>, k: int)
    requires
        0 <= k < pairs.len(),
    ensures
        render_pairs(pairs.subrange(0, k + 1)) == render_pairs(pairs.subrange(0, k)) + sep_text(
            k > 0,
        ) + pair_text(pairs[k]),
{
    let a = pairs.subrange(0, k + 1);
    assert(a.drop_last() =~= pairs.subrange(0, k));
    assert(a.last() == pairs[k]);
    if k == 0 {
        assert(render_pairs(pairs.subrange(0, 0)) == Seq::<char>::empty());
        assert(Seq::<char>::empty() + Seq::<char>::empty() + pair_text(pairs[0]) =~= pair_text(
            pairs[0],
        ));
    }
}

/// The rendered text of a front run of entries is a prefix of the whole.
proof fn lemma_pairs_prefix(pairs: Seq<(Value, Value)>, k: int)
    requires
        0 <= k <= pairs.len(),
    ensures
        render_pairs(pairs.subrange(0, k)).is_prefix_of(render_pairs(pairs)),
    decreases pairs.len() - k,
{
    if k == pairs.len() {
        assert(pairs.subrange(0, k) =~= pairs);
        lemma_prefix_refl(render_pairs(pairs));
    } else {
        lemma_pairs_step(pairs, k);
        lemma_prefix_extend(
            render_pairs(pairs.subrange(0, k)),
            sep_text(k > 0) + pair_text(pairs[k]),
        );
        assert(render_pairs(pairs.subrange(0, k)) + (sep_text(k > 0) + pair_text(pairs[k])) =~= render_pairs(
            pairs.subrange(0, k + 1),
        ));
        lemma_pairs_prefix(pairs, k + 1);
        lemma_prefix_trans(
            render_pairs(pairs.subrange(0, k)),
            render_pairs(pairs.subrange(0, k + 1)),
            render_pairs(pairs),
        );
    }
}

/// One more field extends the rendered run by its separator and its text.
proof fn lemma_fields_step(fields: Seq<(String, Value)>, k: int)
    requires
        0 <= k < fields.len(),
    ensures
        render_fields(fields.subrange(0, k + 1)) == render_fields(fields.subrange(0, k))
            + sep_text(k > 0) + field_text(fields[k]),
{
    let a = fields.subrange(0, k + 1);
    assert(a.drop_last() =~= fields.subrange(0, k));
    assert(a.last() == fields[k]);
    if k == 0 {
        assert(render_fields(fields.subrange(0, 0)) == Seq::<char>::empty());
        assert(Seq::<char>::empty() + Seq::<char>::empty() + field_text(fields[0]) =~= field_text(
            fields[0],
        ));
    }
}

/// The rendered text of a front run of fields is a prefix of the whole.
proof fn lemma_fields_prefix(fields: Seq<(String, Value)>, k: int)
    requires
        0 <= k <= fields.len(),
    ensures
        render_fields(fields.subrange(0, k)).is_prefix_of(render_fields(fields)),
    decreases fields.len() - k,
{
    if k == fields.len() {
        assert(fields.subrange(0, k) =~= fields);
        lemma_prefix_refl(render_fields(fields));
    } else {
        lemma_fields_step(fields, k);
        lemma_prefix_extend(
            render_fields(fields.subrange(0, k)),
            sep_text(k > 0) + field_text(fields[k]),
        );
        assert(render_fields(fields.subrange(0, k)) + (sep_text(k > 0) + field_text(fields[k])) =~= render_fields(
            fields.subrange(0, k + 1),
        ));
        lemma_fields_prefix(fields, k + 1);
        lemma_prefix_trans(
            render_fields(fields.subrange(0, k)),
            render_fields(fields.subrange(0, k + 1)),
            render_fields(fields),
        );
    }
}


/// The serializer: it drives text onto one sink, one fragment per node of
/// the value tree, keeping exactly one flag of state — whether a separator
/// is already owed at the current nesting level.
pub struct Uneval<W: Sink> {
    writer: W,
    inside: bool,
}

impl<W: Sink> Uneval<W> {
    /// The text the sink has accepted so far.
    pub closed spec fn sunk(&self) -> Seq<char> {
        self.writer.content()
    }

    /// Whether a separator is owed before the next element at the current
    /// nesting level.
    pub closed spec fn nested(&self) -> bool {
        self.inside
    }

    /// Whether the sink underneath never rejects a write.
    pub closed spec fn reliable(&self) -> bool {
        self.writer.infallible()
    }

    /// A serializer over a fresh nesting level of the given sink.
    pub fn new(target: W) -> (s: Self)
        ensures
            s.sunk() == target.content(),
            !s.nested(),
            s.reliable() == target.infallible(),
    {
        Uneval { writer: target, inside: false }
    }

    /// Hands the sink back, consuming the serializer.
    pub fn into_sink(self) -> (w: W)
        ensures
            w.content() == self.sunk(),
            w.infallible() == self.reliable(),
    {
        self.writer
    }

    /// Enters a new nesting level: no separator is owed there yet.
    pub fn start_sub(&mut self)
        ensures
            final(self).sunk() == old(self).sunk(),
            !final(self).nested(),
            final(self).reliable() == old(self).reliable(),
    {
        self.inside = false;
    }

    /// Writes one fragment through to the sink.
    fn out(&mut self, s: &str) -> (r: Result<(), CoronaError>)
        ensures
            r is Ok ==> final(self).sunk() == old(self).sunk() + s@,
            r is Err ==> final(self).sunk() == old(self).sunk(),
            r is Err ==> (r matches Err(CoronaError::Io(_))),
            final(self).nested() == old(self).nested(),
            final(self).reliable() == old(self).reliable(),
            old(self).reliable() ==> r is Ok,
    {
        self.writer.write_str(s)
    }

    /// Emits the separator owed at this level, if any, and records that the
    /// next element will owe one.
    pub fn comma(&mut self) -> (r: Result<(), CoronaError>)
        ensures
            r is Ok ==> final(self).sunk() == old(self).sunk() + sep_text(old(self).nested())
                && final(self).nested(),
            r is Err ==> final(self).sunk() == old(self).sunk(),
            r is Err ==> (r matches Err(CoronaError::Io(_))),
            final(self).reliable() == old(self).reliable(),
            old(self).reliable() ==> r is Ok,
    {
        if self.inside {
            match self.out(",") {
                Ok(()) => {},
                Err(e) => {
                    return Err(e);
                },
            }
        } else {
            proof {
                assert(old(self).sunk() + sep_text(false) =~= old(self).sunk());
            }
        }
        self.inside = true;
        Ok(())
    }

    /// Writes an unsigned decimal literal with its width suffix, as one
    /// fragment.
    fn write_uint(&mut self, v: u128, suffix: &str) -> (r: Result<(), CoronaError>)
        ensures
            r is Ok ==> final(self).sunk() == old(self).sunk() + (dec_digits(v as nat)
                + suffix@),
            r is Err ==> final(self).sunk() == old(self).sunk(),
            r is Err ==> (r matches Err(CoronaError::Io(_))),
            final(self).nested() == old(self).nested(),
            final(self).reliable() == old(self).reliable(),
            old(self).reliable() ==> r is Ok,
    {
        let mut s = String::new();
        push_dec_u128(&mut s, v);
        s.append(suffix);
        proof {
            assert(s@ =~= dec_digits(v as nat) + suffix@);
        }
        self.out(s.as_str())
    }

    /// Writes a signed decimal literal with its width suffix, as one
    /// fragment.
    fn write_int(&mut self, v: i128, suffix: &str) -> (r: Result<(), CoronaError>)
        ensures
            r is Ok ==> final(self).sunk() == old(self).sunk() + (int_digits(v as int)
                + suffix@),
            r is Err ==> final(self).sunk() == old(self).sunk(),
            r is Err ==> (r matches Err(CoronaError::Io(_))),
            final(self).nested() == old(self).nested(),
            final(self).reliable() == old(self).reliable(),
            old(self).reliable() ==> r is Ok,
    {
        let mut s = String::new();
        push_dec_i128(&mut s, v);
        s.append(suffix);
        proof {
            assert(s@ =~= int_digits(v as int) + suffix@);
        }
        self.out(s.as_str())
    }

    /// Writes a pre-rendered literal body with a width suffix, as one
    /// fragment.
    fn write_suffixed(&mut self, body: &str, suffix: &str) -> (r: Result<(), CoronaError>)
        ensures
            r is Ok ==> final(self).sunk() == old(self).sunk() + (body@ + suffix@),
            r is Err ==> final(self).sunk() == old(self).sunk(),
            r is Err ==> (r matches Err(CoronaError::Io(_))),
            final(self).nested() == old(self).nested(),
            final(self).reliable() == old(self).reliable(),
            old(self).reliable() ==> r is Ok,
    {
        let mut s = String::from_str(body);
        s.append(suffix);
        self.out(s.as_str())
    }

    /// Emits a boolean literal.
    pub fn serialize_bool(&mut self, v: bool) -> (r: Result<(), CoronaError>)
        ensures
            r is Ok ==> final(self).sunk() == old(self).sunk() + render(Value::Bool(v)),
            r is Err ==> final(self).sunk() == old(self).sunk(),
            r is Err ==> (r matches Err(CoronaError::Io(_))),
            final(self).nested() == old(self).nested(),
            final(self).reliable() == old(self).reliable(),
            old(self).reliable() ==> r is Ok,
    {
        if v {
            self.out("true")
        } else {
            self.out("false")
        }
    }

    /// Emits a suffixed signed 8-bit decimal literal.
    pub fn serialize_i8(&mut self, v: i8) -> (r: Result<(), CoronaError>)
        ensures
            r is Ok ==> final(self).sunk() == old(self).sunk() + render(Value::I8(v)),
            r is Err ==> final(self).sunk() == old(self).sunk(),
            r is Err ==> (r matches Err(CoronaError::Io(_))),
            final(self).nested() == old(self).nested(),
            final(self).reliable() == old(self).reliable(),
            old(self).reliable() ==> r is Ok,
    {
        self.write_int(v as i128, "i8")
    }

    /// Emits a suffixed signed 16-bit decimal literal.
    pub fn serialize_i16(&mut self, v: i16) -> (r: Result<(), CoronaError>)
        ensures
            r is Ok ==> final(self).sunk() == old(self).sunk() + render(Value::I16(v)),
            r is Err ==> final(self).sunk() == old(self).sunk(),
            r is Err ==> (r matches Err(CoronaError::Io(_))),
            final(self).nested() == old(self).nested(),
            final(self).reliable() == old(self).reliable(),
            old(self).reliable() ==> r is Ok,
    {
        self.write_int(v as i128, "i16")
    }

    /// Emits a suffixed signed 32-bit decimal literal.
    pub fn serialize_i32(&mut self, v: i32) -> (r: Result<(), CoronaError>)
        ensures
            r is Ok ==> final(self).sunk() == old(self).sunk() + render(Value::I32(v)),
            r is Err ==> final(self).sunk() == old(self).sunk(),
            r is Err ==> (r matches Err(CoronaError::Io(_))),
            final(self).nested() == old(self).nested(),
            final(self).reliable() == old(self).reliable(),
            old(self).reliable() ==> r is Ok,
    {
        self.write_int(v as i128, "i32")
    }

    /// Emits a suffixed signed 64-bit decimal literal.
    pub fn serialize_i64(&mut self, v: i64) -> (r: Result<(), CoronaError>)
        ensures
            r is Ok ==> final(self).sunk() == old(self).sunk() + render(Value::I64(v)),
            r is Err ==> final(self).sunk() == old(self).sunk(),
            r is Err ==> (r matches Err(CoronaError::Io(_))),
            final(self).nested() == old(self).nested(),
            final(self).reliable() == old(self).reliable(),
            old(self).reliable() ==> r is Ok,
    {
        self.write_int(v as i128, "i64")
    }

    /// Emits a suffixed signed 128-bit decimal literal.
    pub fn serialize_i128(&mut self, v: i128) -> (r: Result<(), CoronaError>)
        ensures
            r is Ok ==> final(self).sunk() == old(self).sunk() + render(Value::I128(v)),
            r is Err ==> final(self).sunk() == old(self).sunk(),
            r is Err ==> (r matches Err(CoronaError::Io(_))),
            final(self).nested() == old(self).nested(),
            final(self).reliable() == old(self).reliable(),
            old(self).reliable() ==> r is Ok,
    {
        self.write_int(v, "i128")
    }

    /// Emits a suffixed unsigned 8-bit decimal literal.
    pub fn serialize_u8(&mut self, v: u8) -> (r: Result<(), CoronaError>)
        ensures
            r is Ok ==> final(self).sunk() == old(self).sunk() + render(Value::U8(v)),
            r is Err ==> final(self).sunk() == old(self).sunk(),
            r is Err ==> (r matches Err(CoronaError::Io(_))),
            final(self).nested() == old(self).nested(),
            final(self).reliable() == old(self).reliable(),
            old(self).reliable() ==> r is Ok,
    {
        self.write_uint(v as u128, "u8")
    }

    /// Emits a suffixed unsigned 16-bit decimal literal.
    pub fn serialize_u16(&mut self, v: u16) -> (r: Result<(), CoronaError>)
        ensures
            r is Ok ==> final(self).sunk() == old(self).sunk() + render(Value::U16(v)),
            r is Err ==> final(self).sunk() == old(self).sunk(),
            r is Err ==> (r matches Err(CoronaError::Io(_))),
            final(self).nested() == old(self).nested(),
            final(self).reliable() == old(self).reliable(),
            old(self).reliable() ==> r is Ok,
    {
        self.write_uint(v as u128, "u16")
    }

    /// Emits a suffixed unsigned 32-bit decimal literal.
    pub fn serialize_u32(&mut self, v: u32) -> (r: Result<(), CoronaError>)
        ensures
            r is Ok ==> final(self).sunk() == old(self).sunk() + render(Value::U32(v)),
            r is Err ==> final(self).sunk() == old(self).sunk(),
            r is Err ==> (r matches Err(CoronaError::Io(_))),
            final(self).nested() == old(self).nested(),
            final(self).reliable() == old(self).reliable(),
            old(self).reliable() ==> r is Ok,
    {
        self.write_uint(v as u128, "u32")
    }

    /// Emits a suffixed unsigned 64-bit decimal literal.
    pub fn serialize_u64(&mut self, v: u64) -> (r: Result<(), CoronaError>)
        ensures
            r is Ok ==> final(self).sunk() == old(self).sunk() + render(Value::U64(v)),
            r is Err ==> final(self).sunk() == old(self).sunk(),
            r is Err ==> (r matches Err(CoronaError::Io(_))),
            final(self).nested() == old(self).nested(),
            final(self).reliable() == old(self).reliable(),
            old(self).reliable() ==> r is Ok,
    {
        self.write_uint(v as u128, "u64")
    }

    /// Emits a suffixed unsigned 128-bit decimal literal.
    pub fn serialize_u128(&mut self, v: u128) -> (r: Result<(), CoronaError>)
        ensures
            r is Ok ==> final(self).sunk() == old(self).sunk() + render(Value::U128(v)),
            r is Err ==> final(self).sunk() == old(self).sunk(),
            r is Err ==> (r matches Err(CoronaError::Io(_))),
            final(self).nested() == old(self).nested(),
            final(self).reliable() == old(self).reliable(),
            old(self).reliable() ==> r is Ok,
    {
        self.write_uint(v, "u128")
    }

    /// Emits a 32-bit float literal from its pre-rendered decimal text, with
    /// the mandatory width suffix.
    pub fn serialize_f32(&mut self, digits: &str) -> (r: Result<(), CoronaError>)
        ensures
            r is Ok ==> final(self).sunk() == old(self).sunk() + (digits@ + "f32"@),
            r is Err ==> final(self).sunk() == old(self).sunk(),
            r is Err ==> (r matches Err(CoronaError::Io(_))),
            final(self).nested() == old(self).nested(),
            final(self).reliable() == old(self).reliable(),
            old(self).reliable() ==> r is Ok,
    {
        self.write_suffixed(digits, "f32")
    }

    /// Emits a 64-bit float literal from its pre-rendered decimal text, with
    /// the mandatory width suffix.
    pub fn serialize_f64(&mut self, digits: &str) -> (r: Result<(), CoronaError>)
        ensures
            r is Ok ==> final(self).sunk() == old(self).sunk() + (digits@ + "f64"@),
            r is Err ==> final(self).sunk() == old(self).sunk(),
            r is Err ==> (r matches Err(CoronaError::Io(_))),
            final(self).nested() == old(self).nested(),
            final(self).reliable() == old(self).reliable(),
            old(self).reliable() ==> r is Ok,
    {
        self.write_suffixed(digits, "f64")
    }

    /// Emits a character literal.
    pub fn serialize_char(&mut self, v: char) -> (r: Result<(), CoronaError>)
        ensures
            r is Ok ==> final(self).sunk() == old(self).sunk() + render(Value::Char(v)),
            r is Err ==> final(self).sunk() == old(self).sunk(),
            r is Err ==> (r matches Err(CoronaError::Io(_))),
            final(self).nested() == old(self).nested(),
            final(self).reliable() == old(self).reliable(),
            old(self).reliable() ==> r is Ok,
    {
        let mut s = String::from_str("'");
        push_char(&mut s, v);
        s.append("'");
        proof {
            reveal_strlit("'");
            assert(s@ =~= seq!['\''] + seq![v] + seq!['\'']);
        }
        self.out(s.as_str())
    }

    /// Emits a string literal with the explicit conversion call string
    /// fields need.
    pub fn serialize_str(&mut self, v: &str) -> (r: Result<(), CoronaError>)
        ensures
            r is Ok ==> final(self).sunk() == old(self).sunk() + (seq!['"'] + v@
                + "\".into()"@),
            r is Err ==> final(self).sunk() == old(self).sunk(),
            r is Err ==> (r matches Err(CoronaError::Io(_))),
            final(self).nested() == old(self).nested(),
            final(self).reliable() == old(self).reliable(),
            old(self).reliable() ==> r is Ok,
    {
        let mut s = String::from_str("\"");
        s.append(v);
        s.append("\".into()");
        proof {
            reveal_strlit("\"");
            assert(s@ =~= seq!['"'] + v@ + "\".into()"@);
        }
        self.out(s.as_str())
    }

    /// Emits the absent option.
    pub fn serialize_none(&mut self) -> (r: Result<(), CoronaError>)
        ensures
            r is Ok ==> final(self).sunk() == old(self).sunk() + render(Value::NoneVal),
            r is Err ==> final(self).sunk() == old(self).sunk(),
            r is Err ==> (r matches Err(CoronaError::Io(_))),
            final(self).nested() == old(self).nested(),
            final(self).reliable() == old(self).reliable(),
            old(self).reliable() ==> r is Ok,
    {
        self.out("None")
    }

    /// Emits the unit value.
    pub fn serialize_unit(&mut self) -> (r: Result<(), CoronaError>)
        ensures
            r is Ok ==> final(self).sunk() == old(self).sunk() + render(Value::Unit),
            r is Err ==> final(self).sunk() == old(self).sunk(),
            r is Err ==> (r matches Err(CoronaError::Io(_))),
            final(self).nested() == old(self).nested(),
            final(self).reliable() == old(self).reliable(),
            old(self).reliable() ==> r is Ok,
    {
        self.out("()")
    }

    /// Emits one element of the enclosing level: the separator owed there,
    /// then the element itself.
    pub fn serialize_item(&mut self, item: &Value) -> (r: Result<(), CoronaError>)
        ensures
            r is Ok ==> final(self).sunk() == old(self).sunk() + sep_text(old(self).nested())
                + render(*item) && final(self).nested(),
            r is Err ==> old(self).sunk().is_prefix_of(final(self).sunk()) && final(self).sunk().is_prefix_of(
                old(self).sunk() + sep_text(old(self).nested()) + render(*item),
            ),
            r is Err ==> (r matches Err(CoronaError::Io(_))),
            final(self).reliable() == old(self).reliable(),
            old(self).reliable() ==> r is Ok,
        decreases *item, 1int,
    {
        match self.comma() {
            Ok(()) => {},
            Err(e) => {
                proof {
                    lemma_err_stop(
                        old(self).sunk(),
                        sep_text(old(self).nested()),
                        render(*item),
                    );
                }
                return Err(e);
            },
        }
        match self.serialize_value(item) {
            Ok(()) => {},
            Err(e) => {
                proof {
                    lemma_prefix_extend(old(self).sunk(), sep_text(old(self).nested()));
                    lemma_prefix_trans(
                        old(self).sunk(),
                        old(self).sunk() + sep_text(old(self).nested()),
                        self.sunk(),
                    );
                }
                return Err(e);
            },
        }
        Ok(())
    }

    /// Emits a run of elements at a fresh nesting level.
    fn serialize_elements(&mut self, items: &Vec<Value>) -> (r: Result<(), CoronaError>)
        ensures
            r is Ok ==> final(self).sunk() == old(self).sunk() + render_items(items@),
            r is Err ==> old(self).sunk().is_prefix_of(final(self).sunk()) && final(self).sunk().is_prefix_of(old(self).sunk() + render_items(items@)),
            r is Err ==> (r matches Err(CoronaError::Io(_))),
            final(self).reliable() == old(self).reliable(),
            old(self).reliable() ==> r is Ok,
        decreases items@, 2int,
    {
        self.start_sub();
        proof {
            assert(items@.subrange(0, 0) =~= Seq::<Value>::empty());
            assert(old(self).sunk() + render_items(items@.subrange(0, 0)) =~= old(self).sunk());
        }
        let mut i: usize = 0;
        while i < items.len()
            invariant
                i <= items.len(),
                self.sunk() == old(self).sunk() + render_items(items@.subrange(0, i as int)),
                self.nested() == (i > 0),
                self.reliable() == old(self).reliable(),
            decreases items@.len() - i,
        {
            match self.serialize_item(&items[i]) {
                Ok(()) => {
                    proof {
                        lemma_items_step(items@, i as int);
                        assert(self.sunk() =~= old(self).sunk() + render_items(
                            items@.subrange(0, i as int + 1),
                        ));
                    }
                },
                Err(e) => {
                    proof {
                        lemma_items_step(items@, i as int);
                        assert(old(self).sunk() + render_items(items@.subrange(0, i as int))
                            + sep_text(i > 0) + render(items@[i as int]) =~= old(self).sunk()
                            + render_items(items@.subrange(0, i as int + 1)));
                        lemma_items_prefix(items@, i as int + 1);
                        lemma_prefix_mono(
                            old(self).sunk(),
                            render_items(items@.subrange(0, i as int + 1)),
                            render_items(items@),
                        );
                        lemma_prefix_trans(
                            self.sunk(),
                            old(self).sunk() + render_items(items@.subrange(0, i as int + 1)),
                            old(self).sunk() + render_items(items@),
                        );
                        lemma_prefix_extend(
                            old(self).sunk(),
                            render_items(items@.subrange(0, i as int)),
                        );
                        lemma_prefix_trans(
                            old(self).sunk(),
                            old(self).sunk() + render_items(items@.subrange(0, i as int)),
                            self.sunk(),
                        );
                    }
                    return Err(e);
                },
            }
            i = i + 1;
        }
        proof {
            assert(items@.subrange(0, items@.len() as int) =~= items@);
        }
        Ok(())
    }

    /// Emits a run of bytes at a fresh nesting level, each as a suffixed
    /// 8-bit literal.
    fn serialize_byte_items(&mut self, bytes: &Vec<u8>) -> (r: Result<(), CoronaError>)
        ensures
            r is Ok ==> final(self).sunk() == old(self).sunk() + render_bytes(bytes@),
            r is Err ==> old(self).sunk().is_prefix_of(final(self).sunk()) && final(self).sunk().is_prefix_of(old(self).sunk() + render_bytes(bytes@)),
            r is Err ==> (r matches Err(CoronaError::Io(_))),
            final(self).reliable() == old(self).reliable(),
            old(self).reliable() ==> r is Ok,
    {
        self.start_sub();
        proof {
            assert(bytes@.subrange(0, 0) =~= Seq::<u8>::empty());
            assert(old(self).sunk() + render_bytes(bytes@.subrange(0, 0)) =~= old(self).sunk());
        }
        let mut i: usize = 0;
        while i < bytes.len()
            invariant
                i <= bytes.len(),
                self.sunk() == old(self).sunk() + render_bytes(bytes@.subrange(0, i as int)),
                self.nested() == (i > 0),
                self.reliable() == old(self).reliable(),
            decreases bytes@.len() - i,
        {
            let ghost done = render_bytes(bytes@.subrange(0, i as int));
            match self.comma() {
                Ok(()) => {},
                Err(e) => {
                    proof {
                        lemma_bytes_prefix(bytes@, i as int);
                        lemma_prefix_mono(old(self).sunk(), done, render_bytes(bytes@));
                        lemma_prefix_extend(old(self).sunk(), done);
                    }
                    return Err(e);
                },
            }
            match self.serialize_u8(bytes[i]) {
                Ok(()) => {
                    proof {
                        lemma_bytes_step(bytes@, i as int);
                        assert(self.sunk() =~= old(self).sunk() + render_bytes(
                            bytes@.subrange(0, i as int + 1),
                        ));
                    }
                },
                Err(e) => {
                    proof {
                        lemma_bytes_step(bytes@, i as int);
                        lemma_bytes_prefix(bytes@, i as int + 1);
                        assert(self.sunk() == old(self).sunk() + done + sep_text(i > 0));
                        assert(old(self).sunk() + done + sep_text(i > 0) =~= old(self).sunk()
                            + (done + sep_text(i > 0)));
                        lemma_prefix_extend(done + sep_text(i > 0), byte_text(bytes@[i as int]));
                        assert(done + sep_text(i > 0) + byte_text(bytes@[i as int])
                            =~= render_bytes(bytes@.subrange(0, i as int + 1)));
                        lemma_prefix_trans(
                            done + sep_text(i > 0),
                            render_bytes(bytes@.subrange(0, i as int + 1)),
                            render_bytes(bytes@),
                        );
                        lemma_prefix_mono(
                            old(self).sunk(),
                            done + sep_text(i > 0),
                            render_bytes(bytes@),
                        );
                        lemma_prefix_refl(self.sunk());
                        lemma_prefix_extend(old(self).sunk(), done + sep_text(i > 0));
                        lemma_prefix_trans(
                            old(self).sunk(),
                            old(self).sunk() + (done + sep_text(i > 0)),
                            self.sunk(),
                        );
                    }
                    return Err(e);
                },
            }
            i = i + 1;
        }
        proof {
            assert(bytes@.subrange(0, bytes@.len() as int) =~= bytes@);
        }
        Ok(())
    }

    /// Emits one key-value entry as a parenthesised two-element group.
    fn serialize_entry(&mut self, entry: &(Value, Value)) -> (r: Result<(), CoronaError>)
        ensures
            r is Ok ==> final(self).sunk() == old(self).sunk() + pair_text(*entry) && final(self).nested() == old(self).nested(),
            r is Err ==> old(self).sunk().is_prefix_of(final(self).sunk()) && final(self).sunk().is_prefix_of(old(self).sunk() + pair_text(*entry)),
            r is Err ==> (r matches Err(CoronaError::Io(_))),
            final(self).reliable() == old(self).reliable(),
            old(self).reliable() ==> r is Ok,
        decreases *entry, 1int,
    {
        match self.out("(") {
            Ok(()) => {},
            Err(e) => {
                proof {
                    lemma_err_stop(old(self).sunk(), pair_text(*entry), Seq::<char>::empty());
                }
                return Err(e);
            },
        }
        match self.serialize_value(&entry.0) {
            Ok(()) => {},
            Err(e) => {
                proof {
                    assert(pair_text(*entry) == "("@ + render(entry.0) + (","@ + render(entry.1)
                        + ")"@)) by {
                        assert(pair_text(*entry) =~= "("@ + render(entry.0) + (","@ + render(
                            entry.1,
                        ) + ")"@));
                    }
                    lemma_err_compose(
                        old(self).sunk(),
                        "("@,
                        render(entry.0),
                        ","@ + render(entry.1) + ")"@,
                        self.sunk(),
                        pair_text(*entry),
                    );
                }
                return Err(e);
            },
        }
        match self.out(",") {
            Ok(()) => {},
            Err(e) => {
                proof {
                    assert(self.sunk() =~= old(self).sunk() + ("("@ + render(entry.0)));
                    assert(pair_text(*entry) == "("@ + render(entry.0) + (","@ + render(entry.1)
                        + ")"@)) by {
                        assert(pair_text(*entry) =~= "("@ + render(entry.0) + (","@ + render(
                            entry.1,
                        ) + ")"@));
                    }
                    lemma_err_close(
                        old(self).sunk(),
                        "("@ + render(entry.0),
                        ","@ + render(entry.1) + ")"@,
                        pair_text(*entry),
                    );
                }
                return Err(e);
            },
        }
        let ghost pre = self.sunk();
        match self.serialize_value(&entry.1) {
            Ok(()) => {},
            Err(e) => {
                proof {
                    assert(pre =~= old(self).sunk() + ("("@ + render(entry.0) + ","@));
                    lemma_err_compose(
                        old(self).sunk(),
                        "("@ + render(entry.0) + ","@,
                        render(entry.1),
                        ")"@,
                        self.sunk(),
                        pair_text(*entry),
                    );
                }
                return Err(e);
            },
        }
        match self.out(")") {
            Ok(()) => {},
            Err(e) => {
                proof {
                    assert(self.sunk() =~= old(self).sunk() + ("("@ + render(entry.0) + ","@
                        + render(entry.1)));
                    lemma_err_close(
                        old(self).sunk(),
                        "("@ + render(entry.0) + ","@ + render(entry.1),
                        ")"@,
                        pair_text(*entry),
                    );
                }
                return Err(e);
            },
        }
        proof {
            assert(self.sunk() =~= old(self).sunk() + pair_text(*entry));
        }
        Ok(())
    }

    /// Emits a run of key-value entries at a fresh nesting level.
    fn serialize_pairs(&mut self, pairs: &Vec<(Value, Value)>) -> (r: Result<(), CoronaError>)
        ensures
            r is Ok ==> final(self).sunk() == old(self).sunk() + render_pairs(pairs@),
            r is Err ==> old(self).sunk().is_prefix_of(final(self).sunk()) && final(self).sunk().is_prefix_of(old(self).sunk() + render_pairs(pairs@)),
            r is Err ==> (r matches Err(CoronaError::Io(_))),
            final(self).reliable() == old(self).reliable(),
            old(self).reliable() ==> r is Ok,
        decreases pairs@, 2int,
    {
        self.start_sub();
        proof {
            assert(pairs@.subrange(0, 0) =~= Seq::<(Value, Value)>::empty());
            assert(old(self).sunk() + render_pairs(pairs@.subrange(0, 0)) =~= old(self).sunk());
        }
        let mut i: usize = 0;
        while i < pairs.len()
            invariant
                i <= pairs.len(),
                self.sunk() == old(self).sunk() + render_pairs(pairs@.subrange(0, i as int)),
                self.nested() == (i > 0),
                self.reliable() == old(self).reliable(),
            decreases pairs@.len() - i,
        {
            let ghost done = render_pairs(pairs@.subrange(0, i as int));
            match self.comma() {
                Ok(()) => {},
                Err(e) => {
                    proof {
                        lemma_pairs_prefix(pairs@, i as int);
                        lemma_prefix_mono(old(self).sunk(), done, render_pairs(pairs@));
                        lemma_prefix_extend(old(self).sunk(), done);
                    }
                    return Err(e);
                },
            }
            match self.serialize_entry(&pairs[i]) {
                Ok(()) => {
                    proof {
                        lemma_pairs_step(pairs@, i as int);
                        assert(self.sunk() =~= old(self).sunk() + render_pairs(
                            pairs@.subrange(0, i as int + 1),
                        ));
                    }
                },
                Err(e) => {
                    proof {
                        lemma_pairs_step(pairs@, i as int);
                        lemma_pairs_prefix(pairs@, i as int + 1);
                        assert(old(self).sunk() + done + sep_text(i > 0) =~= old(self).sunk()
                            + (done + sep_text(i > 0)));
                        lemma_prefix_extend(
                            done + sep_text(i > 0),
                            pair_text(pairs@[i as int]),
                        );
                        assert(done + sep_text(i > 0) + pair_text(pairs@[i as int])
                            =~= render_pairs(pairs@.subrange(0, i as int + 1)));
                        lemma_prefix_trans(
                            done + sep_text(i > 0),
                            render_pairs(pairs@.subrange(0, i as int + 1)),
                            render_pairs(pairs@),
                        );
                        lemma_prefix_mono(
                            old(self).sunk(),
                            done + sep_text(i > 0),
                            render_pairs(pairs@),
                        );
                        lemma_prefix_extend(old(self).sunk(), done + sep_text(i > 0));
                        lemma_prefix_trans(
                            old(self).sunk(),
                            old(self).sunk() + (done + sep_text(i > 0)),
                            self.sunk(),
                        );
                        assert(self.sunk().is_prefix_of(
                            old(self).sunk() + done + sep_text(i > 0) + pair_text(
                                pairs@[i as int],
                            ),
                        ));
                        assert(old(self).sunk() + done + sep_text(i > 0) + pair_text(
                            pairs@[i as int],
                        ) =~= old(self).sunk() + (done + sep_text(i > 0) + pair_text(
                            pairs@[i as int],
                        )));
                        lemma_prefix_mono(
                            old(self).sunk(),
                            done + sep_text(i > 0) + pair_text(pairs@[i as int]),
                            render_pairs(pairs@),
                        );
                        lemma_prefix_trans(
                            self.sunk(),
                            old(self).sunk() + (done + sep_text(i > 0) + pair_text(
                                pairs@[i as int],
                            )),
                            old(self).sunk() + render_pairs(pairs@),
                        );
                    }
                    return Err(e);
                },
            }
            i = i + 1;
        }
        proof {
            assert(pairs@.subrange(0, pairs@.len() as int) =~= pairs@);
        }
        Ok(())
    }

    /// Emits one named field: the field name, a colon, and its value.
    fn serialize_named_field(&mut self, field: &(String, Value)) -> (r: Result<(), CoronaError>)
        ensures
            r is Ok ==> final(self).sunk() == old(self).sunk() + field_text(*field) && final(self).nested() == old(self).nested(),
            r is Err ==> old(self).sunk().is_prefix_of(final(self).sunk()) && final(self).sunk().is_prefix_of(old(self).sunk() + field_text(*field)),
            r is Err ==> (r matches Err(CoronaError::Io(_))),
            final(self).reliable() == old(self).reliable(),
            old(self).reliable() ==> r is Ok,
        decreases *field, 1int,
    {
        let mut s = field.0.clone();
        s.append(": ");
        match self.out(s.as_str()) {
            Ok(()) => {},
            Err(e) => {
                proof {
                    lemma_err_stop(old(self).sunk(), field_text(*field), Seq::<char>::empty());
                }
                return Err(e);
            },
        }
        match self.serialize_value(&field.1) {
            Ok(()) => {},
            Err(e) => {
                proof {
                    assert(field_text(*field) == field.0@ + ": "@ + render(field.1)
                        + Seq::<char>::empty()) by {
                        assert(field_text(*field) =~= field.0@ + ": "@ + render(field.1)
                            + Seq::<char>::empty());
                    }
                    lemma_err_compose(
                        old(self).sunk(),
                        field.0@ + ": "@,
                        render(field.1),
                        Seq::<char>::empty(),
                        self.sunk(),
                        field_text(*field),
                    );
                }
                return Err(e);
            },
        }
        proof {
            assert(self.sunk() =~= old(self).sunk() + field_text(*field));
        }
        Ok(())
    }

    /// Emits a run of named fields at a fresh nesting level.
    fn serialize_fields(&mut self, fields: &Vec<(String, Value)>) -> (r: Result<
        (),
        CoronaError,
    >)
        ensures
            r is Ok ==> final(self).sunk() == old(self).sunk() + render_fields(fields@),
            r is Err ==> old(self).sunk().is_prefix_of(final(self).sunk()) && final(self).sunk().is_prefix_of(old(self).sunk() + render_fields(fields@)),
            r is Err ==> (r matches Err(CoronaError::Io(_))),
            final(self).reliable() == old(self).reliable(),
            old(self).reliable() ==> r is Ok,
        decreases fields@, 2int,
    {
        self.start_sub();
        proof {
            assert(fields@.subrange(0, 0) =~= Seq::<(String, Value)>::empty());
            assert(old(self).sunk() + render_fields(fields@.subrange(0, 0)) =~= old(self).sunk());
        }
        let mut i: usize = 0;
        while i < fields.len()
            invariant
                i <= fields.len(),
                self.sunk() == old(self).sunk() + render_fields(fields@.subrange(0, i as int)),
                self.nested() == (i > 0),
                self.reliable() == old(self).reliable(),
            decreases fields@.len() - i,
        {
            let ghost done = render_fields(fields@.subrange(0, i as int));
            match self.comma() {
                Ok(()) => {},
                Err(e) => {
                    proof {
                        lemma_fields_prefix(fields@, i as int);
                        lemma_prefix_mono(old(self).sunk(), done, render_fields(fields@));
                        lemma_prefix_extend(old(self).sunk(), done);
                    }
                    return Err(e);
                },
            }
            match self.serialize_named_field(&fields[i]) {
                Ok(()) => {
                    proof {
                        lemma_fields_step(fields@, i as int);
                        assert(self.sunk() =~= old(self).sunk() + render_fields(
                            fields@.subrange(0, i as int + 1),
                        ));
                    }
                },
                Err(e) => {
                    proof {
                        lemma_fields_step(fields@, i as int);
                        lemma_fields_prefix(fields@, i as int + 1);
                        assert(old(self).sunk() + done + sep_text(i > 0) =~= old(self).sunk()
                            + (done + sep_text(i > 0)));
                        lemma_prefix_extend(
                            done + sep_text(i > 0),
                            field_text(fields@[i as int]),
                        );
                        assert(done + sep_text(i > 0) + field_text(fields@[i as int])
                            =~= render_fields(fields@.subrange(0, i as int + 1)));
                        lemma_prefix_trans(
                            done + sep_text(i > 0),
                            render_fields(fields@.subrange(0, i as int + 1)),
                            render_fields(fields@),
                        );
                        lemma_prefix_mono(
                            old(self).sunk(),
                            done + sep_text(i > 0),
                            render_fields(fields@),
                        );
                        lemma_prefix_extend(old(self).sunk(), done + sep_text(i > 0));
                        lemma_prefix_trans(
                            old(self).sunk(),
                            old(self).sunk() + (done + sep_text(i > 0)),
                            self.sunk(),
                        );
                        assert(self.sunk().is_prefix_of(
                            old(self).sunk() + done + sep_text(i > 0) + field_text(
                                fields@[i as int],
                            ),
                        ));
                        assert(old(self).sunk() + done + sep_text(i > 0) + field_text(
                            fields@[i as int],
                        ) =~= old(self).sunk() + (done + sep_text(i > 0) + field_text(
                            fields@[i as int],
                        )));
                        lemma_prefix_mono(
                            old(self).sunk(),
                            done + sep_text(i > 0) + field_text(fields@[i as int]),
                            render_fields(fields@),
                        );
                        lemma_prefix_trans(
                            self.sunk(),
                            old(self).sunk() + (done + sep_text(i > 0) + field_text(
                                fields@[i as int],
                            )),
                            old(self).sunk() + render_fields(fields@),
                        );
                    }
                    return Err(e);
                },
            }
            i = i + 1;
        }
        proof {
            assert(fields@.subrange(0, fields@.len() as int) =~= fields@);
        }
        Ok(())
    }

    /// Emits the expression for one value tree: exactly [`render`] of it on
    /// success; on a rejected write, a prefix of it, stopping at once.
    #[verifier::rlimit(100)]
    #[verifier::spinoff_prover]
    pub fn serialize_value(&mut self, v: &Value) -> (r: Result<(), CoronaError>)
        ensures
            r is Ok ==> final(self).sunk() == old(self).sunk() + render(*v) && final(self).nested() == old(self).nested(),
            r is Err ==> old(self).sunk().is_prefix_of(final(self).sunk()) && final(self).sunk().is_prefix_of(old(self).sunk() + render(*v)),
            r is Err ==> (r matches Err(CoronaError::Io(_))),
            final(self).reliable() == old(self).reliable(),
            old(self).reliable() ==> r is Ok,
        decreases *v, 0int,
    {
        match v {
            Value::Bool(b) => {
                match self.serialize_bool(*b) {
                    Ok(()) => Ok(()),
                    Err(e) => {
                        proof {
                            lemma_err_stop(old(self).sunk(), render(*v), Seq::<char>::empty());
                        }
                        Err(e)
                    },
                }
            },
            Value::I8(x) => {
                match self.serialize_i8(*x) {
                    Ok(()) => Ok(()),
                    Err(e) => {
                        proof {
                            lemma_err_stop(old(self).sunk(), render(*v), Seq::<char>::empty());
                        }
                        Err(e)
                    },
                }
            },
            Value::I16(x) => {
                match self.serialize_i16(*x) {
                    Ok(()) => Ok(()),
                    Err(e) => {
                        proof {
                            lemma_err_stop(old(self).sunk(), render(*v), Seq::<char>::empty());
                        }
                        Err(e)
                    },
                }
            },
            Value::I32(x) => {
                match self.serialize_i32(*x) {
                    Ok(()) => Ok(()),
                    Err(e) => {
                        proof {
                            lemma_err_stop(old(self).sunk(), render(*v), Seq::<char>::empty());
                        }
                        Err(e)
                    },
                }
            },
            Value::I64(x) => {
                match self.serialize_i64(*x) {
                    Ok(()) => Ok(()),
                    Err(e) => {
                        proof {
                            lemma_err_stop(old(self).sunk(), render(*v), Seq::<char>::empty());
                        }
                        Err(e)
                    },
                }
            },
            Value::I128(x) => {
                match self.serialize_i128(*x) {
                    Ok(()) => Ok(()),
                    Err(e) => {
                        proof {
                            lemma_err_stop(old(self).sunk(), render(*v), Seq::<char>::empty());
                        }
                        Err(e)
                    },
                }
            },
            Value::U8(x) => {
                match self.serialize_u8(*x) {
                    Ok(()) => Ok(()),
                    Err(e) => {
                        proof {
                            lemma_err_stop(old(self).sunk(), render(*v), Seq::<char>::empty());
                        }
                        Err(e)
                    },
                }
            },
            Value::U16(x) => {
                match self.serialize_u16(*x) {
                    Ok(()) => Ok(()),
                    Err(e) => {
                        proof {
                            lemma_err_stop(old(self).sunk(), render(*v), Seq::<char>::empty());
                        }
                        Err(e)
                    },
                }
            },
            Value::U32(x) => {
                match self.serialize_u32(*x) {
                    Ok(()) => Ok(()),
                    Err(e) => {
                        proof {
                            lemma_err_stop(old(self).sunk(), render(*v), Seq::<char>::empty());
                        }
                        Err(e)
                    },
                }
            },
            Value::U64(x) => {
                match self.serialize_u64(*x) {
                    Ok(()) => Ok(()),
                    Err(e) => {
                        proof {
                            lemma_err_stop(old(self).sunk(), render(*v), Seq::<char>::empty());
                        }
                        Err(e)
                    },
                }
            },
            Value::U128(x) => {
                match self.serialize_u128(*x) {
                    Ok(()) => Ok(()),
                    Err(e) => {
                        proof {
                            lemma_err_stop(old(self).sunk(), render(*v), Seq::<char>::empty());
                        }
                        Err(e)
                    },
                }
            },
            Value::F32(t) => {
                match self.serialize_f32(t.as_str()) {
                    Ok(()) => Ok(()),
                    Err(e) => {
                        proof {
                            lemma_err_stop(old(self).sunk(), render(*v), Seq::<char>::empty());
                        }
                        Err(e)
                    },
                }
            },
            Value::F64(t) => {
                match self.serialize_f64(t.as_str()) {
                    Ok(()) => Ok(()),
                    Err(e) => {
                        proof {
                            lemma_err_stop(old(self).sunk(), render(*v), Seq::<char>::empty());
                        }
                        Err(e)
                    },
                }
            },
            Value::Char(c) => {
                match self.serialize_char(*c) {
                    Ok(()) => Ok(()),
                    Err(e) => {
                        proof {
                            lemma_err_stop(old(self).sunk(), render(*v), Seq::<char>::empty());
                        }
                        Err(e)
                    },
                }
            },
            Value::Str(s) => {
                match self.serialize_str(s.as_str()) {
                    Ok(()) => Ok(()),
                    Err(e) => {
                        proof {
                            lemma_err_stop(old(self).sunk(), render(*v), Seq::<char>::empty());
                        }
                        Err(e)
                    },
                }
            },
            Value::NoneVal => {
                match self.serialize_none() {
                    Ok(()) => Ok(()),
                    Err(e) => {
                        proof {
                            lemma_err_stop(old(self).sunk(), render(*v), Seq::<char>::empty());
                        }
                        Err(e)
                    },
                }
            },
            Value::Unit => {
                match self.serialize_unit() {
                    Ok(()) => Ok(()),
                    Err(e) => {
                        proof {
                            lemma_err_stop(old(self).sunk(), render(*v), Seq::<char>::empty());
                        }
                        Err(e)
                    },
                }
            },
            Value::UnitStruct(n) => {
                match self.out(n.as_str()) {
                    Ok(()) => Ok(()),
                    Err(e) => {
                        proof {
                            lemma_err_stop(old(self).sunk(), render(*v), Seq::<char>::empty());
                        }
                        Err(e)
                    },
                }
            },
            Value::UnitVariant(n, var) => {
                let mut s = n.clone();
                s.append("::");
                s.append(var.as_str());
                match self.out(s.as_str()) {
                    Ok(()) => Ok(()),
                    Err(e) => {
                        proof {
                            lemma_err_stop(old(self).sunk(), render(*v), Seq::<char>::empty());
                        }
                        Err(e)
                    },
                }
            },
            Value::SomeVal(inner) => {
                match self.out("Some(") {
                    Ok(()) => {},
                    Err(e) => {
                        proof {
                            lemma_err_stop(old(self).sunk(), render(*v), Seq::<char>::empty());
                        }
                        return Err(e);
                    },
                }
                match self.serialize_value(&**inner) {
                    Ok(()) => {},
                    Err(e) => {
                        proof {
                            lemma_err_compose(
                                old(self).sunk(),
                                "Some("@,
                                render(**inner),
                                ")"@,
                                self.sunk(),
                                render(*v),
                            );
                        }
                        return Err(e);
                    },
                }
                match self.out(")") {
                    Ok(()) => {},
                    Err(e) => {
                        proof {
                            assert(self.sunk() =~= old(self).sunk() + ("Some("@ + render(
                                **inner,
                            )));
                            lemma_err_close(
                                old(self).sunk(),
                                "Some("@ + render(**inner),
                                ")"@,
                                render(*v),
                            );
                        }
                        return Err(e);
                    },
                }
                proof {
                    assert(self.sunk() =~= old(self).sunk() + render(*v));
                }
                Ok(())
            },
            Value::NewtypeStruct(n, inner) => {
                let mut s = n.clone();
                s.append("(");
                match self.out(s.as_str()) {
                    Ok(()) => {},
                    Err(e) => {
                        proof {
                            lemma_err_stop(old(self).sunk(), render(*v), Seq::<char>::empty());
                        }
                        return Err(e);
                    },
                }
                match self.serialize_value(&**inner) {
                    Ok(()) => {},
                    Err(e) => {
                        proof {
                            lemma_err_compose(
                                old(self).sunk(),
                                n@ + "("@,
                                render(**inner),
                                ")"@,
                                self.sunk(),
                                render(*v),
                            );
                        }
                        return Err(e);
                    },
                }
                match self.out(")") {
                    Ok(()) => {},
                    Err(e) => {
                        proof {
                            assert(self.sunk() =~= old(self).sunk() + (n@ + "("@ + render(
                                **inner,
                            )));
                            lemma_err_close(
                                old(self).sunk(),
                                n@ + "("@ + render(**inner),
                                ")"@,
                                render(*v),
                            );
                        }
                        return Err(e);
                    },
                }
                proof {
                    assert(self.sunk() =~= old(self).sunk() + render(*v));
                }
                Ok(())
            },
            Value::NewtypeVariant(n, var, inner) => {
                let mut s = n.clone();
                s.append("::");
                s.append(var.as_str());
                s.append("(");
                match self.out(s.as_str()) {
                    Ok(()) => {},
                    Err(e) => {
                        proof {
                            lemma_err_stop(old(self).sunk(), render(*v), Seq::<char>::empty());
                        }
                        return Err(e);
                    },
                }
                match self.serialize_value(&**inner) {
                    Ok(()) => {},
                    Err(e) => {
                        proof {
                            lemma_err_compose(
                                old(self).sunk(),
                                n@ + "::"@ + var@ + "("@,
                                render(**inner),
                                ")"@,
                                self.sunk(),
                                render(*v),
                            );
                        }
                        return Err(e);
                    },
                }
                match self.out(")") {
                    Ok(()) => {},
                    Err(e) => {
                        proof {
                            assert(self.sunk() =~= old(self).sunk() + (n@ + "::"@ + var@ + "("@
                                + render(**inner)));
                            lemma_err_close(
                                old(self).sunk(),
                                n@ + "::"@ + var@ + "("@ + render(**inner),
                                ")"@,
                                render(*v),
                            );
                        }
                        return Err(e);
                    },
                }
                proof {
                    assert(self.sunk() =~= old(self).sunk() + render(*v));
                }
                Ok(())
            },
            Value::Bytes(bs) => {
                let saved = self.inside;
                match self.out("vec![") {
                    Ok(()) => {},
                    Err(e) => {
                        proof {
                            lemma_err_stop(old(self).sunk(), render(*v), Seq::<char>::empty());
                        }
                        return Err(e);
                    },
                }
                match self.serialize_byte_items(bs) {
                    Ok(()) => {},
                    Err(e) => {
                        proof {
                            lemma_err_compose(
                                old(self).sunk(),
                                "vec!["@,
                                render_bytes(bs@),
                                "].into_iter().collect()"@,
                                self.sunk(),
                                render(*v),
                            );
                        }
                        return Err(e);
                    },
                }
                match self.out("].into_iter().collect()") {
                    Ok(()) => {},
                    Err(e) => {
                        proof {
                            assert(self.sunk() =~= old(self).sunk() + ("vec!["@ + render_bytes(
                                bs@,
                            )));
                            lemma_err_close(
                                old(self).sunk(),
                                "vec!["@ + render_bytes(bs@),
                                "].into_iter().collect()"@,
                                render(*v),
                            );
                        }
                        return Err(e);
                    },
                }
                self.inside = saved;
                proof {
                    assert(self.sunk() =~= old(self).sunk() + render(*v));
                }
                Ok(())
            },
            Value::Sequence(elems) => {
                let saved = self.inside;
                match self.out("vec![") {
                    Ok(()) => {},
                    Err(e) => {
                        proof {
                            lemma_err_stop(old(self).sunk(), render(*v), Seq::<char>::empty());
                        }
                        return Err(e);
                    },
                }
                match self.serialize_elements(elems) {
                    Ok(()) => {},
                    Err(e) => {
                        proof {
                            lemma_err_compose(
                                old(self).sunk(),
                                "vec!["@,
                                render_items(elems@),
                                "].into_iter().collect()"@,
                                self.sunk(),
                                render(*v),
                            );
                        }
                        return Err(e);
                    },
                }
                match self.out("].into_iter().collect()") {
                    Ok(()) => {},
                    Err(e) => {
                        proof {
                            assert(self.sunk() =~= old(self).sunk() + ("vec!["@ + render_items(
                                elems@,
                            )));
                            lemma_err_close(
                                old(self).sunk(),
                                "vec!["@ + render_items(elems@),
                                "].into_iter().collect()"@,
                                render(*v),
                            );
                        }
                        return Err(e);
                    },
                }
                self.inside = saved;
                proof {
                    assert(self.sunk() =~= old(self).sunk() + render(*v));
                }
                Ok(())
            },
            Value::Tuple(elems) => {
                if elems.len() == 0 {
                    match self.out("[]") {
                        Ok(()) => Ok(()),
                        Err(e) => {
                            proof {
                                lemma_err_stop(
                                    old(self).sunk(),
                                    render(*v),
                                    Seq::<char>::empty(),
                                );
                            }
                            Err(e)
                        },
                    }
                } else {
                    let saved = self.inside;
                    let mut s = String::from_str("::uneval::convert::convert_tuple_");
                    push_dec_u128(&mut s, elems.len() as u128);
                    s.append("((");
                    match self.out(s.as_str()) {
                        Ok(()) => {},
                        Err(e) => {
                            proof {
                                lemma_err_stop(
                                    old(self).sunk(),
                                    render(*v),
                                    Seq::<char>::empty(),
                                );
                            }
                            return Err(e);
                        },
                    }
                    match self.serialize_elements(elems) {
                        Ok(()) => {},
                        Err(e) => {
                            proof {
                                lemma_err_compose(
                                    old(self).sunk(),
                                    s@,
                                    render_items(elems@),
                                    ",))"@,
                                    self.sunk(),
                                    render(*v),
                                );
                            }
                            return Err(e);
                        },
                    }
                    match self.out(",))") {
                        Ok(()) => {},
                        Err(e) => {
                            proof {
                                assert(self.sunk() =~= old(self).sunk() + (s@ + render_items(
                                    elems@,
                                )));
                                lemma_err_close(
                                    old(self).sunk(),
                                    s@ + render_items(elems@),
                                    ",))"@,
                                    render(*v),
                                );
                            }
                            return Err(e);
                        },
                    }
                    self.inside = saved;
                    proof {
                        assert(self.sunk() =~= old(self).sunk() + render(*v));
                    }
                    Ok(())
                }
            },
            Value::TupleStruct(n, elems) => {
                let saved = self.inside;
                let mut s = n.clone();
                s.append("(");
                match self.out(s.as_str()) {
                    Ok(()) => {},
                    Err(e) => {
                        proof {
                            lemma_err_stop(old(self).sunk(), render(*v), Seq::<char>::empty());
                        }
                        return Err(e);
                    },
                }
                match self.serialize_elements(elems) {
                    Ok(()) => {},
                    Err(e) => {
                        proof {
                            lemma_err_compose(
                                old(self).sunk(),
                                n@ + "("@,
                                render_items(elems@),
                                ")"@,
                                self.sunk(),
                                render(*v),
                            );
                        }
                        return Err(e);
                    },
                }
                match self.out(")") {
                    Ok(()) => {},
                    Err(e) => {
                        proof {
                            assert(self.sunk() =~= old(self).sunk() + (n@ + "("@ + render_items(
                                elems@,
                            )));
                            lemma_err_close(
                                old(self).sunk(),
                                n@ + "("@ + render_items(elems@),
                                ")"@,
                                render(*v),
                            );
                        }
                        return Err(e);
                    },
                }
                self.inside = saved;
                proof {
                    assert(self.sunk() =~= old(self).sunk() + render(*v));
                }
                Ok(())
            },
            Value::TupleVariant(n, var, elems) => {
                let saved = self.inside;
                let mut s = n.clone();
                s.append("::");
                s.append(var.as_str());
                s.append("(");
                match self.out(s.as_str()) {
                    Ok(()) => {},
                    Err(e) => {
                        proof {
                            lemma_err_stop(old(self).sunk(), render(*v), Seq::<char>::empty());
                        }
                        return Err(e);
                    },
                }
                match self.serialize_elements(elems) {
                    Ok(()) => {},
                    Err(e) => {
                        proof {
                            lemma_err_compose(
                                old(self).sunk(),
                                n@ + "::"@ + var@ + "("@,
                                render_items(elems@),
                                ")"@,
                                self.sunk(),
                                render(*v),
                            );
                        }
                        return Err(e);
                    },
                }
                match self.out(")") {
                    Ok(()) => {},
                    Err(e) => {
                        proof {
                            assert(self.sunk() =~= old(self).sunk() + (n@ + "::"@ + var@ + "("@
                                + render_items(elems@)));
                            lemma_err_close(
                                old(self).sunk(),
                                n@ + "::"@ + var@ + "("@ + render_items(elems@),
                                ")"@,
                                render(*v),
                            );
                        }
                        return Err(e);
                    },
                }
                self.inside = saved;
                proof {
                    assert(self.sunk() =~= old(self).sunk() + render(*v));
                }
                Ok(())
            },
            Value::Mapping(pairs) => {
                let saved = self.inside;
                match self.out("vec![") {
                    Ok(()) => {},
                    Err(e) => {
                        proof {
                            lemma_err_stop(old(self).sunk(), render(*v), Seq::<char>::empty());
                        }
                        return Err(e);
                    },
                }
                match self.serialize_pairs(pairs) {
                    Ok(()) => {},
                    Err(e) => {
                        proof {
                            lemma_err_compose(
                                old(self).sunk(),
                                "vec!["@,
                                render_pairs(pairs@),
                                "].into_iter().collect()"@,
                                self.sunk(),
                                render(*v),
                            );
                        }
                        return Err(e);
                    },
                }
                match self.out("].into_iter().collect()") {
                    Ok(()) => {},
                    Err(e) => {
                        proof {
                            assert(self.sunk() =~= old(self).sunk() + ("vec!["@ + render_pairs(
                                pairs@,
                            )));
                            lemma_err_close(
                                old(self).sunk(),
                                "vec!["@ + render_pairs(pairs@),
                                "].into_iter().collect()"@,
                                render(*v),
                            );
                        }
                        return Err(e);
                    },
                }
                self.inside = saved;
                proof {
                    assert(self.sunk() =~= old(self).sunk() + render(*v));
                }
                Ok(())
            },
            Value::Struct(n, fields) => {
                let saved = self.inside;
                let mut s = n.clone();
                s.append(" {");
                match self.out(s.as_str()) {
                    Ok(()) => {},
                    Err(e) => {
                        proof {
                            lemma_err_stop(old(self).sunk(), render(*v), Seq::<char>::empty());
                        }
                        return Err(e);
                    },
                }
                match self.serialize_fields(fields) {
                    Ok(()) => {},
                    Err(e) => {
                        proof {
                            lemma_err_compose(
                                old(self).sunk(),
                                n@ + " {"@,
                                render_fields(fields@),
                                "}"@,
                                self.sunk(),
                                render(*v),
                            );
                        }
                        return Err(e);
                    },
                }
                match self.out("}") {
                    Ok(()) => {},
                    Err(e) => {
                        proof {
                            assert(self.sunk() =~= old(self).sunk() + (n@ + " {"@
                                + render_fields(fields@)));
                            lemma_err_close(
                                old(self).sunk(),
                                n@ + " {"@ + render_fields(fields@),
                                "}"@,
                                render(*v),
                            );
                        }
                        return Err(e);
                    },
                }
                self.inside = saved;
                proof {
                    assert(self.sunk() =~= old(self).sunk() + render(*v));
                }
                Ok(())
            },
            Value::StructVariant(n, var, fields) => {
                let saved = self.inside;
                let mut s = n.clone();
                s.append("::");
                s.append(var.as_str());
                s.append(" {");
                match self.out(s.as_str()) {
                    Ok(()) => {},
                    Err(e) => {
                        proof {
                            lemma_err_stop(old(self).sunk(), render(*v), Seq::<char>::empty());
                        }
                        return Err(e);
                    },
                }
                match self.serialize_fields(fields) {
                    Ok(()) => {},
                    Err(e) => {
                        proof {
                            lemma_err_compose(
                                old(self).sunk(),
                                n@ + "::"@ + var@ + " {"@,
                                render_fields(fields@),
                                "}"@,
                                self.sunk(),
                                render(*v),
                            );
                        }
                        return Err(e);
                    },
                }
                match self.out("}") {
                    Ok(()) => {},
                    Err(e) => {
                        proof {
                            assert(self.sunk() =~= old(self).sunk() + (n@ + "::"@ + var@ + " {"@
                                + render_fields(fields@)));
                            lemma_err_close(
                                old(self).sunk(),
                                n@ + "::"@ + var@ + " {"@ + render_fields(fields@),
                                "}"@,
                                render(*v),
                            );
                        }
                        return Err(e);
                    },
                }
                self.inside = saved;
                proof {
                    assert(self.sunk() =~= old(self).sunk() + render(*v));
                }
                Ok(())
            },
        }
    }
}

} // verus!
