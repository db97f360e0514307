//! The wire codec: a small composable set of field types and their canonical
//! byte layout.  Fixed-width integers are little-endian; small integers may be
//! compact-encoded; byte strings and sequences carry a compact length prefix;
//! optional values carry a one-byte presence flag.  Decoding is total and
//! fails closed: truncated or malformed input yields `None`, never a default
//! value, and a successful decode of a field consumes at least one byte.

use vstd::prelude::*;

verus! {

broadcast use vstd::seq::axiom_seq_index_decreases, vstd::std_specs::vec::axiom_vec_index_decreases, vstd::std_specs::vec::axiom_vec_decreases_to_view;

/// The type of one field of a call payload or of an encodable result.
#[derive(Debug, PartialEq, Eq)]
pub enum FieldType {
    U8,
    U16,
    U32,
    U64,
    U128,
    Bool,
    /// A compact-encoded unsigned 32-bit integer.
    Compact,
    /// A 32-byte account identity, laid out raw.
    Address,
    /// A byte string with a compact length prefix and a declared maximum
    /// length; longer input is rejected.
    Bytes(u32),
    /// An optional value: a one-byte presence flag, then the payload.
    OptionOf(Box<FieldType>),
    /// A homogeneous sequence with a compact length prefix.
    ListOf(Box<FieldType>),
}

/// A decoded or encodable value, the executable side.
#[derive(Debug, PartialEq, Eq)]
pub enum Value {
    U8(u8),
    U16(u16),
    U32(u32),
    U64(u64),
    U128(u128),
    Bool(bool),
    Compact(u32),
    Address(Vec<u8>),
    Bytes(Vec<u8>),
    OptionVal(Option<Box<Value>>),
    List(Vec<Value>),
    /// The result of an effect with no return value; encodes to no bytes.
    Unit,
}

/// The mathematical model of a `Value`.
pub enum Val {
    U8(u8),
    U16(u16),
    U32(u32),
    U64(u64),
    U128(u128),
    Bool(bool),
    Compact(u32),
    Address(Seq<u8>),
    Bytes(Seq<u8>),
    OptionVal(Option<Box<Val>>),
    List(Seq<Val>),
    Unit,
}

/// The model of an executable value.
pub open spec fn val_of(v: Value) -> Val
    decreases v,
{
    match v {
        Value::U8(x) => Val::U8(x),
        Value::U16(x) => Val::U16(x),
        Value::U32(x) => Val::U32(x),
        Value::U64(x) => Val::U64(x),
        Value::U128(x) => Val::U128(x),
        Value::Bool(x) => Val::Bool(x),
        Value::Compact(x) => Val::Compact(x),
        Value::Address(b) => Val::Address(b@),
        Value::Bytes(b) => Val::Bytes(b@),
        Value::OptionVal(o) => match o {
            Option::None => Val::OptionVal(Option::None),
            Option::Some(b) => Val::OptionVal(Option::Some(Box::new(val_of(*b)))),
        },
        Value::List(vs) => Val::List(vals_of(vs@)),
        Value::Unit => Val::Unit,
    }
}

/// The models of a sequence of executable values.
pub open spec fn vals_of(vs: Seq<Value>) -> Seq<Val>
    decreases vs,
{
    if vs.len() == 0 {
        Seq::empty()
    } else {
        seq![val_of(vs[0])] + vals_of(vs.drop_first())
    }
}

impl View for Value {
    type V = Val;

    open spec fn view(&self) -> Val {
        val_of(*self)
    }
}

/// `vals_of` maps element by element.
pub proof fn lemma_vals_of(vs: Seq<Value>)
    ensures
        vals_of(vs).len() == vs.len(),
        forall|i: int| 0 <= i < vs.len() ==> vals_of(vs)[i] == val_of(vs[i]),
    decreases vs,
{
    if vs.len() > 0 {
        lemma_vals_of(vs.drop_first());
    }
}

/// 256 to the `w`th power: the number of byte strings of width `w`.
pub open spec fn pow256(w: nat) -> nat
    decreases w,
{
    if w == 0 {
        1
    } else {
        256 * pow256((w - 1) as nat)
    }
}

/// The unsigned integer laid out little-endian in `s[pos .. pos + width]`.
pub open spec fn le_value(s: Seq<u8>, pos: int, width: nat) -> nat
    decreases width,
{
    if width == 0 {
        0
    } else {
        (s[pos] + 256 * le_value(s, pos + 1, (width - 1) as nat)) as nat
    }
}

/// A `width`-byte little-endian value is below `pow256(width)`.
pub proof fn lemma_le_value_bound(s: Seq<u8>, pos: int, width: nat)
    requires
        0 <= pos,
        pos + width <= s.len(),
    ensures
        le_value(s, pos, width) < pow256(width),
    decreases width,
{
    if width > 0 {
        lemma_le_value_bound(s, pos + 1, (width - 1) as nat);
    }
}

/// `le_value` reads only the bytes it covers.
pub proof fn lemma_le_value_agree(s: Seq<u8>, t: Seq<u8>, pos: int, width: nat)
    requires
        0 <= pos,
        pos + width <= s.len(),
        pos + width <= t.len(),
        forall|i: int| pos <= i < pos + width ==> s[i] == t[i],
    ensures
        le_value(s, pos, width) == le_value(t, pos, width),
    decreases width,
{
    if width > 0 {
        lemma_le_value_agree(s, t, pos + 1, (width - 1) as nat);
    }
}

/// The little-endian layout of `v` in `width` bytes, low byte first.
pub open spec fn spec_encode_le(v: nat, width: nat) -> Seq<u8>
    decreases width,
{
    if width == 0 {
        Seq::empty()
    } else {
        seq![(v % 256) as u8] + spec_encode_le(v / 256, (width - 1) as nat)
    }
}

/// Reads the little-endian integer in `s[pos .. pos + width]`.
pub fn read_le(s: &Vec<u8>, pos: usize, width: usize) -> (r: u128)
    requires
        width <= 16,
        pos + width <= s@.len(),
    ensures
        r as nat == le_value(s@, pos as int, width as nat),
{
    let mut acc: u128 = 0;
    let mut i: usize = width;
    proof {
        lemma_le_value_bound(s@, pos + width, 0);
    }
    while i > 0
        invariant
            i <= width,
            width <= 16,
            pos + width <= s@.len(),
            acc as nat == le_value(s@, pos + i as int, (width - i) as nat),
            (acc as nat) < pow256((width - i) as nat),
        decreases i,
    {
        i = i - 1;
        proof {
            lemma_le_value_bound(s@, pos + i + 1, (width - i - 1) as nat);
            assert(pow256((width - i) as nat) == 256 * pow256((width - i - 1) as nat));
            lemma_pow256_le((width - i) as nat, 16);
            assert(pos + i < s.len());
        }
        acc = acc * 256 + (s[pos + i] as u128);
    }
    acc
}

/// `pow256` is positive.
pub proof fn lemma_pow256_pos(w: nat)
    ensures
        pow256(w) >= 1,
    decreases w,
{
    if w > 0 {
        lemma_pow256_pos((w - 1) as nat);
    }
}

/// `pow256` is monotone.
pub proof fn lemma_pow256_mono(w: nat, cap: nat)
    requires
        w <= cap,
    ensures
        pow256(w) <= pow256(cap),
    decreases cap,
{
    if w < cap {
        lemma_pow256_mono(w, (cap - 1) as nat);
        lemma_pow256_pos((cap - 1) as nat);
    }
}

/// `pow256(w)` fits every 16-byte value: at most one past `u128::MAX`.
pub proof fn lemma_pow256_le(w: nat, cap: nat)
    requires
        w <= cap,
        cap <= 16,
    ensures
        pow256(w) <= pow256(cap),
        pow256(cap) <= 0x1_0000_0000_0000_0000_0000_0000_0000_0000,
{
    lemma_pow256_mono(w, cap);
    lemma_pow256_mono(cap, 16);
    assert(pow256(16) == 0x1_0000_0000_0000_0000_0000_0000_0000_0000) by {
        reveal_with_fuel(pow256, 17);
    }
}

/// Appends the `width`-byte little-endian layout of `v` to `out`.
pub fn write_le(v: u128, width: usize, out: &mut Vec<u8>)
    requires
        width <= 16,
    ensures
        final(out)@ == old(out)@ + spec_encode_le(v as nat, width as nat),
{
    let mut rest: u128 = v;
    let mut i: usize = 0;
    while i < width
        invariant
            i <= width,
            old(out)@ + spec_encode_le(v as nat, width as nat) == out@ + spec_encode_le(
                rest as nat,
                (width - i) as nat,
            ),
        decreases width - i,
    {
        let b: u8 = (rest % 256) as u8;
        proof {
            assert(spec_encode_le(rest as nat, (width - i) as nat) == seq![
                (rest as nat % 256) as u8,
            ] + spec_encode_le(rest as nat / 256, (width - i - 1) as nat));
            assert(out@ + (seq![(rest as nat % 256) as u8] + spec_encode_le(
                rest as nat / 256,
                (width - i - 1) as nat,
            )) =~= out@.push((rest as nat % 256) as u8) + spec_encode_le(
                rest as nat / 256,
                (width - i - 1) as nat,
            ));
        }
        out.push(b);
        rest = rest / 256;
        i = i + 1;
    }
    proof {
        assert(out@ + spec_encode_le(rest as nat, 0) =~= out@);
    }
}

/// The values of `pow256` at the widths the codec uses.
pub proof fn lemma_pow256_values()
    ensures
        pow256(1) == 0x100,
        pow256(2) == 0x1_0000,
        pow256(4) == 0x1_0000_0000,
        pow256(16) == 0x1_0000_0000_0000_0000_0000_0000_0000_0000,
{
    reveal_with_fuel(pow256, 17);
}

/// Decodes a compact-encoded unsigned 32-bit integer at `pos`.  The two low
/// bits of the first byte select the width (1, 2, 4 or 5 bytes); an encoding
/// wider than the value needs is rejected.
pub open spec fn spec_decode_compact(s: Seq<u8>, pos: int) -> Option<(u32, int)> {
    if pos + 1 > s.len() {
        Option::None
    } else if s[pos] % 4 == 0 {
        Option::Some(((s[pos] / 4) as u32, pos + 1))
    } else if s[pos] % 4 == 1 {
        if pos + 2 <= s.len() {
            let x = (s[pos] + 256 * s[pos + 1]) / 4;
            if x >= 64 {
                Option::Some((x as u32, pos + 2))
            } else {
                Option::None
            }
        } else {
            Option::None
        }
    } else if s[pos] % 4 == 2 {
        if pos + 4 <= s.len() {
            let x = le_value(s, pos, 4) / 4;
            if x >= 16384 {
                Option::Some((x as u32, pos + 4))
            } else {
                Option::None
            }
        } else {
            Option::None
        }
    } else {
        if s[pos] == 3 && pos + 5 <= s.len() {
            let x = le_value(s, pos + 1, 4);
            if x > 0x3FFF_FFFF {
                Option::Some((x as u32, pos + 5))
            } else {
                Option::None
            }
        } else {
            Option::None
        }
    }
}

/// The compact layout of `n`: the narrowest of the four widths that holds it.
pub open spec fn spec_encode_compact(n: u32) -> Seq<u8> {
    if n < 64 {
        seq![(n * 4) as u8]
    } else if n < 16384 {
        spec_encode_le((n * 4 + 1) as nat, 2)
    } else if n < 0x4000_0000 {
        spec_encode_le((n * 4 + 2) as nat, 4)
    } else {
        seq![3u8] + spec_encode_le(n as nat, 4)
    }
}

/// Decodes a compact-encoded unsigned 32-bit integer.
pub fn decode_compact(s: &Vec<u8>, pos: usize) -> (r: Option<(u32, usize)>)
    ensures
        r matches Some((v, end)) ==> spec_decode_compact(s@, pos as int) == Option::Some(
            (v, end as int),
        ),
        r is None ==> spec_decode_compact(s@, pos as int) is None,
{
    if pos >= s.len() {
        return None;
    }
    let remaining = s.len() - pos;
    let b0 = s[pos];
    let mode = b0 % 4;
    if mode == 0 {
        Some(((b0 / 4) as u32, pos + 1))
    } else if mode == 1 {
        if remaining < 2 {
            return None;
        }
        let x = (b0 as u32 + 256 * (s[pos + 1] as u32)) / 4;
        if x >= 64 {
            Some((x, pos + 2))
        } else {
            None
        }
    } else if mode == 2 {
        if remaining < 4 {
            return None;
        }
        let w = read_le(s, pos, 4);
        proof {
            lemma_le_value_bound(s@, pos as int, 4);
            lemma_pow256_values();
        }
        let x = (w / 4) as u32;
        if x >= 16384 {
            Some((x, pos + 4))
        } else {
            None
        }
    } else {
        if b0 == 3 && remaining >= 5 {
            let w = read_le(s, pos + 1, 4);
            proof {
                lemma_le_value_bound(s@, pos + 1, 4);
                lemma_pow256_values();
            }
            let x = w as u32;
            if x > 0x3FFF_FFFF {
                Some((x, pos + 5))
            } else {
                None
            }
        } else {
            None
        }
    }
}

/// Appends the compact layout of `n` to `out`.
pub fn encode_compact(n: u32, out: &mut Vec<u8>)
    ensures
        final(out)@ == old(out)@ + spec_encode_compact(n),
{
    if n < 64 {
        out.push((n * 4) as u8);
        proof {
            assert(out@ =~= old(out)@ + seq![(n * 4) as u8]);
        }
    } else if n < 16384 {
        write_le((n * 4 + 1) as u128, 2, out);
    } else if n < 0x4000_0000 {
        write_le((n * 4 + 2) as u128, 4, out);
    } else {
        out.push(3u8);
        write_le(n as u128, 4, out);
        proof {
            assert(out@ =~= old(out)@ + (seq![3u8] + spec_encode_le(n as nat, 4)));
        }
    }
}

/// A successful compact decode stays within the input and consumes at least
/// one byte.
pub proof fn lemma_compact_bounds(s: Seq<u8>, pos: int)
    requires
        0 <= pos,
        spec_decode_compact(s, pos) is Some,
    ensures
        pos < spec_decode_compact(s, pos)->Some_0.1 <= s.len(),
{
}

/// A compact decode reads only the bytes it consumes: it gives the same
/// result on any input that agrees there.
pub proof fn lemma_compact_agree(s: Seq<u8>, t: Seq<u8>, pos: int)
    requires
        0 <= pos,
        spec_decode_compact(s, pos) is Some,
        t.len() >= spec_decode_compact(s, pos)->Some_0.1,
        forall|i: int| pos <= i < spec_decode_compact(s, pos)->Some_0.1 ==> s[i] == t[i],
    ensures
        spec_decode_compact(t, pos) == spec_decode_compact(s, pos),
{
    let end = spec_decode_compact(s, pos)->Some_0.1;
    if s[pos] % 4 == 2 {
        lemma_le_value_agree(s, t, pos, 4);
    } else if s[pos] % 4 == 3 {
        lemma_le_value_agree(s, t, pos + 1, 4);
    }
}

/// Decodes one field of type `t` at `pos`: the value and the position one
/// past its last byte, or `None` on truncated or malformed input.
pub open spec fn spec_decode_field(t: FieldType, s: Seq<u8>, pos: int) -> Option<(Val, int)>
    decreases t, 0nat,
{
    match t {
        FieldType::U8 => if pos + 1 <= s.len() {
            Option::Some((Val::U8(le_value(s, pos, 1) as u8), pos + 1))
        } else {
            Option::None
        },
        FieldType::U16 => if pos + 2 <= s.len() {
            Option::Some((Val::U16(le_value(s, pos, 2) as u16), pos + 2))
        } else {
            Option::None
        },
        FieldType::U32 => if pos + 4 <= s.len() {
            Option::Some((Val::U32(le_value(s, pos, 4) as u32), pos + 4))
        } else {
            Option::None
        },
        FieldType::U64 => if pos + 8 <= s.len() {
            Option::Some((Val::U64(le_value(s, pos, 8) as u64), pos + 8))
        } else {
            Option::None
        },
        FieldType::U128 => if pos + 16 <= s.len() {
            Option::Some((Val::U128(le_value(s, pos, 16) as u128), pos + 16))
        } else {
            Option::None
        },
        FieldType::Bool => if pos + 1 <= s.len() {
            if s[pos] == 0 {
                Option::Some((Val::Bool(false), pos + 1))
            } else if s[pos] == 1 {
                Option::Some((Val::Bool(true), pos + 1))
            } else {
                Option::None
            }
        } else {
            Option::None
        },
        FieldType::Compact => match spec_decode_compact(s, pos) {
            Option::Some((v, end)) => Option::Some((Val::Compact(v), end)),
            Option::None => Option::None,
        },
        FieldType::Address => if pos + 32 <= s.len() {
            Option::Some((Val::Address(s.subrange(pos, pos + 32)), pos + 32))
        } else {
            Option::None
        },
        FieldType::Bytes(max) => match spec_decode_compact(s, pos) {
            Option::Some((n, p2)) => if n <= max && p2 + n <= s.len() {
                Option::Some((Val::Bytes(s.subrange(p2, p2 + n)), p2 + n))
            } else {
                Option::None
            },
            Option::None => Option::None,
        },
        FieldType::OptionOf(inner) => if pos + 1 <= s.len() {
            if s[pos] == 0 {
                Option::Some((Val::OptionVal(Option::None), pos + 1))
            } else if s[pos] == 1 {
                match spec_decode_field(*inner, s, pos + 1) {
                    Option::Some((v, end)) => Option::Some(
                        (Val::OptionVal(Option::Some(Box::new(v))), end),
                    ),
                    Option::None => Option::None,
                }
            } else {
                Option::None
            }
        } else {
            Option::None
        },
        FieldType::ListOf(elem) => match spec_decode_compact(s, pos) {
            Option::Some((n, p2)) => match spec_decode_list(*elem, s, p2, n as nat) {
                Option::Some((vs, end)) => Option::Some((Val::List(vs), end)),
                Option::None => Option::None,
            },
            Option::None => Option::None,
        },
    }
}

/// Decodes `count` consecutive fields of type `elem` starting at `pos`.
pub open spec fn spec_decode_list(elem: FieldType, s: Seq<u8>, pos: int, count: nat) -> Option<
    (Seq<Val>, int),
>
    decreases elem, count,
{
    if count == 0 {
        Option::Some((Seq::empty(), pos))
    } else {
        match spec_decode_field(elem, s, pos) {
            Option::Some((v, p2)) => match spec_decode_list(elem, s, p2, (count - 1) as nat) {
                Option::Some((vs, end)) => Option::Some((seq![v] + vs, end)),
                Option::None => Option::None,
            },
            Option::None => Option::None,
        }
    }
}

/// Decodes the ordered fields of `shape`, one after the other.
pub open spec fn spec_decode_shape(shape: Seq<FieldType>, s: Seq<u8>, pos: int) -> Option<
    (Seq<Val>, int),
>
    decreases shape.len(),
{
    if shape.len() == 0 {
        Option::Some((Seq::empty(), pos))
    } else {
        match spec_decode_field(shape[0], s, pos) {
            Option::Some((v, p2)) => match spec_decode_shape(shape.drop_first(), s, p2) {
                Option::Some((vs, end)) => Option::Some((seq![v] + vs, end)),
                Option::None => Option::None,
            },
            Option::None => Option::None,
        }
    }
}

/// A successful field decode stays within the input and consumes at least one
/// byte.
pub proof fn lemma_field_bounds(t: FieldType, s: Seq<u8>, pos: int)
    requires
        0 <= pos,
        spec_decode_field(t, s, pos) is Some,
    ensures
        pos < spec_decode_field(t, s, pos)->Some_0.1 <= s.len(),
    decreases t, 0nat,
{
    match t {
        FieldType::Compact => {
            lemma_compact_bounds(s, pos);
        },
        FieldType::Bytes(max) => {
            lemma_compact_bounds(s, pos);
        },
        FieldType::OptionOf(inner) => {
            if s[pos] == 1 {
                lemma_field_bounds(*inner, s, pos + 1);
            }
        },
        FieldType::ListOf(elem) => {
            lemma_compact_bounds(s, pos);
            let (n, p2) = spec_decode_compact(s, pos)->Some_0;
            lemma_list_bounds(*elem, s, p2, n as nat);
        },
        _ => {},
    }
}

/// A successful list decode never moves backwards and stays within the input.
pub proof fn lemma_list_bounds(elem: FieldType, s: Seq<u8>, pos: int, count: nat)
    requires
        0 <= pos <= s.len(),
        spec_decode_list(elem, s, pos, count) is Some,
    ensures
        pos <= spec_decode_list(elem, s, pos, count)->Some_0.1 <= s.len(),
    decreases elem, count,
{
    if count > 0 {
        lemma_field_bounds(elem, s, pos);
        let (v, p2) = spec_decode_field(elem, s, pos)->Some_0;
        lemma_list_bounds(elem, s, p2, (count - 1) as nat);
    }
}

/// A successful shape decode never moves backwards and stays within the input.
pub proof fn lemma_shape_bounds(shape: Seq<FieldType>, s: Seq<u8>, pos: int)
    requires
        0 <= pos <= s.len(),
        spec_decode_shape(shape, s, pos) is Some,
    ensures
        pos <= spec_decode_shape(shape, s, pos)->Some_0.1 <= s.len(),
        shape.len() > 0 ==> pos < spec_decode_shape(shape, s, pos)->Some_0.1,
    decreases shape.len(),
{
    if shape.len() > 0 {
        lemma_field_bounds(shape[0], s, pos);
        let (v, p2) = spec_decode_field(shape[0], s, pos)->Some_0;
        lemma_shape_bounds(shape.drop_first(), s, p2);
    }
}

/// A field decode reads only the bytes it consumes: it gives the same result
/// on any input that agrees there.
pub proof fn lemma_field_agree(t: FieldType, s: Seq<u8>, t2: Seq<u8>, pos: int)
    requires
        0 <= pos,
        spec_decode_field(t, s, pos) is Some,
        t2.len() >= spec_decode_field(t, s, pos)->Some_0.1,
        forall|i: int| pos <= i < spec_decode_field(t, s, pos)->Some_0.1 ==> s[i] == t2[i],
    ensures
        spec_decode_field(t, t2, pos) == spec_decode_field(t, s, pos),
    decreases t, 0nat,
{
    let end = spec_decode_field(t, s, pos)->Some_0.1;
    lemma_field_bounds(t, s, pos);
    match t {
        FieldType::U8 => {
            lemma_le_value_agree(s, t2, pos, 1);
        },
        FieldType::U16 => {
            lemma_le_value_agree(s, t2, pos, 2);
        },
        FieldType::U32 => {
            lemma_le_value_agree(s, t2, pos, 4);
        },
        FieldType::U64 => {
            lemma_le_value_agree(s, t2, pos, 8);
        },
        FieldType::U128 => {
            lemma_le_value_agree(s, t2, pos, 16);
        },
        FieldType::Bool => {},
        FieldType::Compact => {
            lemma_compact_agree(s, t2, pos);
        },
        FieldType::Address => {
            assert(s.subrange(pos, pos + 32) =~= t2.subrange(pos, pos + 32));
        },
        FieldType::Bytes(max) => {
            lemma_compact_bounds(s, pos);
            lemma_compact_agree(s, t2, pos);
            let (n, p2) = spec_decode_compact(s, pos)->Some_0;
            assert(s.subrange(p2, p2 + n) =~= t2.subrange(p2, p2 + n));
        },
        FieldType::OptionOf(inner) => {
            if s[pos] == 1 {
                lemma_field_bounds(*inner, s, pos + 1);
                lemma_field_agree(*inner, s, t2, pos + 1);
            }
        },
        FieldType::ListOf(elem) => {
            lemma_compact_bounds(s, pos);
            let (n, p2) = spec_decode_compact(s, pos)->Some_0;
            lemma_list_bounds(*elem, s, p2, n as nat);
            lemma_compact_agree(s, t2, pos);
            lemma_list_agree(*elem, s, t2, p2, n as nat);
        },
    }
}

/// A list decode reads only the bytes it consumes.
pub proof fn lemma_list_agree(elem: FieldType, s: Seq<u8>, t2: Seq<u8>, pos: int, count: nat)
    requires
        0 <= pos <= s.len(),
        spec_decode_list(elem, s, pos, count) is Some,
        t2.len() >= spec_decode_list(elem, s, pos, count)->Some_0.1,
        pos <= t2.len(),
        forall|i: int| pos <= i < spec_decode_list(elem, s, pos, count)->Some_0.1 ==> s[i] == t2[i],
    ensures
        spec_decode_list(elem, t2, pos, count) == spec_decode_list(elem, s, pos, count),
    decreases elem, count,
{
    if count > 0 {
        lemma_field_bounds(elem, s, pos);
        let (v, p2) = spec_decode_field(elem, s, pos)->Some_0;
        lemma_list_bounds(elem, s, p2, (count - 1) as nat);
        lemma_field_agree(elem, s, t2, pos);
        lemma_list_agree(elem, s, t2, p2, (count - 1) as nat);
    }
}

/// A shape decode reads only the bytes it consumes.
pub proof fn lemma_shape_agree(shape: Seq<FieldType>, s: Seq<u8>, t2: Seq<u8>, pos: int)
    requires
        0 <= pos <= s.len(),
        spec_decode_shape(shape, s, pos) is Some,
        t2.len() >= spec_decode_shape(shape, s, pos)->Some_0.1,
        pos <= t2.len(),
        forall|i: int| pos <= i < spec_decode_shape(shape, s, pos)->Some_0.1 ==> s[i] == t2[i],
    ensures
        spec_decode_shape(shape, t2, pos) == spec_decode_shape(shape, s, pos),
    decreases shape.len(),
{
    if shape.len() > 0 {
        lemma_field_bounds(shape[0], s, pos);
        let (v, p2) = spec_decode_field(shape[0], s, pos)->Some_0;
        lemma_shape_bounds(shape.drop_first(), s, p2);
        lemma_field_agree(shape[0], s, t2, pos);
        lemma_shape_agree(shape.drop_first(), s, t2, p2);
    }
}

/// Decodes one field of type `t` at `pos`, exactly as `spec_decode_field`
/// says.
#[verifier::loop_isolation(false)]
pub fn decode_field(t: &FieldType, s: &Vec<u8>, pos: usize) -> (r: Option<(Value, usize)>)
    ensures
        r matches Some((v, end)) ==> spec_decode_field(*t, s@, pos as int) == Option::Some(
            (v@, end as int),
        ),
        r is None ==> spec_decode_field(*t, s@, pos as int) is None,
    decreases *t,
{
    match t {
        FieldType::U8 => {
            if pos < s.len() {
                let w = read_le(s, pos, 1);
                proof {
                    lemma_le_value_bound(s@, pos as int, 1);
                    lemma_pow256_values();
                }
                Some((Value::U8(w as u8), pos + 1))
            } else {
                None
            }
        },
        FieldType::U16 => {
            if pos < s.len() && s.len() - pos >= 2 {
                let w = read_le(s, pos, 2);
                proof {
                    lemma_le_value_bound(s@, pos as int, 2);
                    lemma_pow256_values();
                }
                Some((Value::U16(w as u16), pos + 2))
            } else {
                None
            }
        },
        FieldType::U32 => {
            if pos < s.len() && s.len() - pos >= 4 {
                let w = read_le(s, pos, 4);
                proof {
                    lemma_le_value_bound(s@, pos as int, 4);
                    lemma_pow256_values();
                }
                Some((Value::U32(w as u32), pos + 4))
            } else {
                None
            }
        },
        FieldType::U64 => {
            if pos < s.len() && s.len() - pos >= 8 {
                let w = read_le(s, pos, 8);
                proof {
                    lemma_le_value_bound(s@, pos as int, 8);
                    lemma_pow256_le(8, 16);
                    lemma_pow256_values();
                    assert(pow256(8) == 0x1_0000_0000_0000_0000) by {
                        reveal_with_fuel(pow256, 9);
                    }
                }
                Some((Value::U64(w as u64), pos + 8))
            } else {
                None
            }
        },
        FieldType::U128 => {
            if pos < s.len() && s.len() - pos >= 16 {
                let w = read_le(s, pos, 16);
                Some((Value::U128(w), pos + 16))
            } else {
                None
            }
        },
        FieldType::Bool => {
            if pos < s.len() {
                let b = s[pos];
                if b == 0 {
                    Some((Value::Bool(false), pos + 1))
                } else if b == 1 {
                    Some((Value::Bool(true), pos + 1))
                } else {
                    None
                }
            } else {
                None
            }
        },
        FieldType::Compact => {
            match decode_compact(s, pos) {
                Some((v, end)) => Some((Value::Compact(v), end)),
                None => None,
            }
        },
        FieldType::Address => {
            if pos < s.len() && s.len() - pos >= 32 {
                let bytes = copy_range(s, pos, 32);
                Some((Value::Address(bytes), pos + 32))
            } else {
                None
            }
        },
        FieldType::Bytes(max) => {
            match decode_compact(s, pos) {
                Some((n, p2)) => {
                    if n <= *max && p2 <= s.len() && n as usize <= s.len() - p2 {
                        let bytes = copy_range(s, p2, n as usize);
                        Some((Value::Bytes(bytes), p2 + n as usize))
                    } else {
                        proof {
                            lemma_compact_bounds(s@, pos as int);
                        }
                        None
                    }
                },
                None => None,
            }
        },
        FieldType::OptionOf(inner) => {
            if pos < s.len() {
                let b = s[pos];
                if b == 0 {
                    Some((Value::OptionVal(None), pos + 1))
                } else if b == 1 {
                    match decode_field(&**inner, s, pos + 1) {
                        Some((v, end)) => Some((Value::OptionVal(Some(Box::new(v))), end)),
                        None => None,
                    }
                } else {
                    None
                }
            } else {
                None
            }
        },
        FieldType::ListOf(elem) => {
            match decode_compact(s, pos) {
                Some((n, start)) => {
                    proof {
                        lemma_compact_bounds(s@, pos as int);
                    }
                    let mut items: Vec<Value> = Vec::new();
                    let mut p = start;
                    let mut i: u32 = 0;
                    proof {
                        if spec_decode_list(**elem, s@, start as int, n as nat) is Some {
                            assert(vals_of(items@) + spec_decode_list(
                                **elem,
                                s@,
                                start as int,
                                n as nat,
                            )->Some_0.0 =~= spec_decode_list(
                                **elem,
                                s@,
                                start as int,
                                n as nat,
                            )->Some_0.0);
                        }
                    }
                    while i < n
                        invariant
                            i <= n,
                            p <= s@.len(),
                            spec_decode_compact(s@, pos as int) == Option::Some(
                                (n, start as int),
                            ),
                            items@.len() == i as nat,
                            (match spec_decode_list(**elem, s@, p as int, (n - i) as nat) {
                                Option::Some((vs, end)) => spec_decode_list(
                                    **elem,
                                    s@,
                                    start as int,
                                    n as nat,
                                ) == Option::Some((vals_of(items@) + vs, end)),
                                Option::None => spec_decode_list(
                                    **elem,
                                    s@,
                                    start as int,
                                    n as nat,
                                ) is None,
                            }),
                        decreases n - i,
                    {
                        proof {
                            lemma_vals_of(items@);
                        }
                        match decode_field(&**elem, s, p) {
                            Some((v, p2)) => {
                                proof {
                                    lemma_field_bounds(**elem, s@, p as int);
                                    lemma_vals_of(items@.push(v));
                                    assert(vals_of(items@.push(v)) =~= vals_of(items@).push(
                                        v@,
                                    ));
                                    assert(vals_of(items@) + (seq![v@] + spec_decode_list(
                                        **elem,
                                        s@,
                                        p2 as int,
                                        (n - i - 1) as nat,
                                    )->Some_0.0) =~= vals_of(items@).push(v@)
                                        + spec_decode_list(
                                        **elem,
                                        s@,
                                        p2 as int,
                                        (n - i - 1) as nat,
                                    )->Some_0.0);
                                }
                                items.push(v);
                                p = p2;
                                i = i + 1;
                            },
                            None => {
                                return None;
                            },
                        }
                    }
                    proof {
                        assert(vals_of(items@) + Seq::<Val>::empty() =~= vals_of(items@));
                    }
                    Some((Value::List(items), p))
                },
                None => None,
            }
        },
    }
}

/// Byte-for-byte copy of a byte vector.
pub fn clone_bytes(v: &Vec<u8>) -> (r: Vec<u8>)
    ensures
        r@ == v@,
{
    copy_range(v, 0, v.len())
}

/// Copies `s[pos .. pos + n]` into a fresh vector.
pub fn copy_range(s: &Vec<u8>, pos: usize, n: usize) -> (r: Vec<u8>)
    requires
        pos + n <= s@.len(),
    ensures
        r@ == s@.subrange(pos as int, pos + n),
{
    let mut out: Vec<u8> = Vec::new();
    let mut i: usize = 0;
    while i < n
        invariant
            i <= n,
            pos + n <= s@.len(),
            out@ == s@.subrange(pos as int, pos + i),
        decreases n - i,
    {
        proof {
            assert(pos + i < s.len());
        }
        out.push(s[pos + i]);
        proof {
            assert(out@ =~= s@.subrange(pos as int, pos + i + 1));
        }
        i = i + 1;
    }
    out
}

/// Decodes the ordered fields of `shape`, exactly as `spec_decode_shape`
/// says.
#[verifier::loop_isolation(false)]
pub fn decode_shape(shape: &Vec<FieldType>, s: &Vec<u8>, pos: usize) -> (r: Option<
    (Vec<Value>, usize),
>)
    requires
        pos <= s@.len(),
    ensures
        r matches Some((vs, end)) ==> spec_decode_shape(shape@, s@, pos as int) == Option::Some(
            (vals_of(vs@), end as int),
        ),
        r is None ==> spec_decode_shape(shape@, s@, pos as int) is None,
{
    let mut args: Vec<Value> = Vec::new();
    let mut p = pos;
    let mut i: usize = 0;
    proof {
        assert(shape@.skip(0) =~= shape@);
        if spec_decode_shape(shape@, s@, pos as int) is Some {
            assert(vals_of(args@) + spec_decode_shape(shape@, s@, pos as int)->Some_0.0
                =~= spec_decode_shape(shape@, s@, pos as int)->Some_0.0);
        }
    }
    while i < shape.len()
        invariant
            i <= shape@.len(),
            pos <= p <= s@.len(),
            args@.len() == i as nat,
            (match spec_decode_shape(shape@.skip(i as int), s@, p as int) {
                Option::Some((vs, end)) => spec_decode_shape(shape@, s@, pos as int)
                    == Option::Some((vals_of(args@) + vs, end)),
                Option::None => spec_decode_shape(shape@, s@, pos as int) is None,
            }),
        decreases shape@.len() - i,
    {
        proof {
            lemma_vals_of(args@);
            assert(shape@.skip(i as int)[0] == shape@[i as int]);
        }
        match decode_field(&shape[i], s, p) {
            Some((v, p2)) => {
                proof {
                    lemma_field_bounds(shape@[i as int], s@, p as int);
                    lemma_vals_of(args@.push(v));
                    assert(vals_of(args@.push(v)) =~= vals_of(args@).push(v@));
                    assert(shape@.skip(i as int).drop_first() =~= shape@.skip(i + 1));
                    assert(vals_of(args@) + (seq![v@] + spec_decode_shape(
                        shape@.skip(i + 1),
                        s@,
                        p2 as int,
                    )->Some_0.0) =~= vals_of(args@).push(v@) + spec_decode_shape(
                        shape@.skip(i + 1),
                        s@,
                        p2 as int,
                    )->Some_0.0);
                }
                args.push(v);
                p = p2;
                i = i + 1;
            },
            None => {
                return None;
            },
        }
    }
    proof {
        assert(shape@.skip(shape@.len() as int).len() == 0);
        assert(vals_of(args@) + Seq::<Val>::empty() =~= vals_of(args@));
    }
    Some((args, p))
}

/// Whether a value fits the wire format: addresses are 32 bytes, and byte
/// strings and sequences are short enough for a compact length prefix.
pub open spec fn encodable(v: Val) -> bool
    decreases v,
{
    match v {
        Val::Address(bs) => bs.len() == 32,
        Val::Bytes(bs) => bs.len() <= u32::MAX,
        Val::OptionVal(o) => match o {
            Option::Some(b) => encodable(*b),
            Option::None => true,
        },
        Val::List(vs) => vs.len() <= u32::MAX && (forall|i: int|
            0 <= i < vs.len() ==> encodable(#[trigger] vs[i])),
        _ => true,
    }
}

/// The canonical byte layout of an encodable value.
pub open spec fn spec_encode_val(v: Val) -> Seq<u8>
    decreases v, 0nat,
{
    match v {
        Val::U8(x) => spec_encode_le(x as nat, 1),
        Val::U16(x) => spec_encode_le(x as nat, 2),
        Val::U32(x) => spec_encode_le(x as nat, 4),
        Val::U64(x) => spec_encode_le(x as nat, 8),
        Val::U128(x) => spec_encode_le(x as nat, 16),
        Val::Bool(x) => seq![
            if x {
                1u8
            } else {
                0u8
            },
        ],
        Val::Compact(n) => spec_encode_compact(n),
        Val::Address(bs) => bs,
        Val::Bytes(bs) => spec_encode_compact(bs.len() as u32) + bs,
        Val::OptionVal(o) => match o {
            Option::None => seq![0u8],
            Option::Some(b) => seq![1u8] + spec_encode_val(*b),
        },
        Val::List(vs) => spec_encode_compact(vs.len() as u32) + spec_encode_vals(vs),
        Val::Unit => Seq::empty(),
    }
}

/// The concatenated layouts of a sequence of values.
pub open spec fn spec_encode_vals(vs: Seq<Val>) -> Seq<u8>
    decreases vs, 1nat,
{
    if vs.len() == 0 {
        Seq::empty()
    } else {
        spec_encode_val(vs[0]) + spec_encode_vals(vs.drop_first())
    }
}

/// Appending a value extends the concatenated layout on the right.
pub proof fn lemma_encode_vals_push(vs: Seq<Val>, v: Val)
    ensures
        spec_encode_vals(vs.push(v)) == spec_encode_vals(vs) + spec_encode_val(v),
    decreases vs,
{
    if vs.len() == 0 {
        assert(vs.push(v).drop_first() =~= Seq::<Val>::empty());
        assert(vs.push(v)[0] == v);
        assert(spec_encode_vals(Seq::<Val>::empty()) == Seq::<u8>::empty());
        assert(spec_encode_vals(vs.push(v)) == spec_encode_val(v) + Seq::<u8>::empty());
        assert(spec_encode_val(v) + Seq::<u8>::empty() =~= Seq::<u8>::empty() + spec_encode_val(
            v,
        ));
    } else {
        assert(vs.push(v).drop_first() =~= vs.drop_first().push(v));
        lemma_encode_vals_push(vs.drop_first(), v);
        assert(spec_encode_vals(vs.push(v)) == spec_encode_val(vs[0]) + (spec_encode_vals(
            vs.drop_first(),
        ) + spec_encode_val(v)));
        assert(spec_encode_val(vs[0]) + (spec_encode_vals(vs.drop_first()) + spec_encode_val(v))
            =~= (spec_encode_val(vs[0]) + spec_encode_vals(vs.drop_first())) + spec_encode_val(
            v,
        ));
    }
}

/// Appends the canonical layout of `v` to `out`.
#[verifier::loop_isolation(false)]
pub fn encode_value(v: &Value, out: &mut Vec<u8>)
    requires
        encodable(v@),
    ensures
        final(out)@ == old(out)@ + spec_encode_val(v@),
    decreases *v,
{
    match v {
        Value::U8(x) => {
            write_le(*x as u128, 1, out);
        },
        Value::U16(x) => {
            write_le(*x as u128, 2, out);
        },
        Value::U32(x) => {
            write_le(*x as u128, 4, out);
        },
        Value::U64(x) => {
            write_le(*x as u128, 8, out);
        },
        Value::U128(x) => {
            write_le(*x, 16, out);
        },
        Value::Bool(x) => {
            out.push(
                if *x {
                    1u8
                } else {
                    0u8
                },
            );
            proof {
                assert(out@ =~= old(out)@ + spec_encode_val(v@));
            }
        },
        Value::Compact(n) => {
            encode_compact(*n, out);
        },
        Value::Address(bs) => {
            append_bytes(out, bs);
            proof {
                assert(out@ =~= old(out)@ + spec_encode_val(v@));
            }
        },
        Value::Bytes(bs) => {
            encode_compact(bs.len() as u32, out);
            append_bytes(out, bs);
            proof {
                assert(out@ =~= old(out)@ + spec_encode_val(v@));
            }
        },
        Value::OptionVal(o) => {
            match o {
                None => {
                    out.push(0u8);
                    proof {
                        assert(out@ =~= old(out)@ + spec_encode_val(v@));
                    }
                },
                Some(b) => {
                    out.push(1u8);
                    encode_value(&**b, out);
                    proof {
                        assert(out@ =~= old(out)@ + spec_encode_val(v@));
                    }
                },
            }
        },
        Value::List(vs) => {
            proof {
                lemma_vals_of(vs@);
            }
            encode_compact(vs.len() as u32, out);
            let mut i: usize = 0;
            proof {
                assert(vals_of(vs@).take(0) =~= Seq::empty());
            }
            while i < vs.len()
                invariant
                    i <= vs@.len(),
                    out@ == old(out)@ + spec_encode_compact(vs@.len() as u32)
                        + spec_encode_vals(vals_of(vs@).take(i as int)),
                decreases vs@.len() - i,
            {
                proof {
                    assert(encodable(vals_of(vs@)[i as int]));
                    assert(vals_of(vs@)[i as int] == vs@[i as int]@);
                }
                let ghost before = out@;
                encode_value(&vs[i], out);
                proof {
                    assert(vals_of(vs@).take(i + 1) =~= vals_of(vs@).take(i as int).push(
                        vals_of(vs@)[i as int],
                    ));
                    lemma_encode_vals_push(vals_of(vs@).take(i as int), vals_of(vs@)[i as int]);
                    assert(out@ =~= old(out)@ + spec_encode_compact(vs@.len() as u32)
                        + spec_encode_vals(vals_of(vs@).take(i + 1)));
                }
                i = i + 1;
            }
            proof {
                assert(vals_of(vs@).take(vals_of(vs@).len() as int) =~= vals_of(vs@));
                assert(out@ =~= old(out)@ + spec_encode_val(v@));
            }
        },
        Value::Unit => {
            proof {
                assert(out@ =~= old(out)@ + spec_encode_val(v@));
            }
        },
    }
}

/// Appends every byte of `bs` to `out`.
pub fn append_bytes(out: &mut Vec<u8>, bs: &Vec<u8>)
    ensures
        final(out)@ == old(out)@ + bs@,
{
    let mut i: usize = 0;
    while i < bs.len()
        invariant
            i <= bs@.len(),
            out@ == old(out)@ + bs@.take(i as int),
        decreases bs@.len() - i,
    {
        out.push(bs[i]);
        proof {
            assert(out@ =~= old(out)@ + bs@.take(i + 1));
        }
        i = i + 1;
    }
    proof {
        assert(old(out)@ + bs@.take(bs@.len() as int) =~= old(out)@ + bs@);
    }
}

/// Encodes a value into a fresh buffer.
pub fn encode_to_vec(v: &Value) -> (r: Vec<u8>)
    requires
        encodable(v@),
    ensures
        r@ == spec_encode_val(v@),
{
    let mut out: Vec<u8> = Vec::new();
    encode_value(v, &mut out);
    proof {
        assert(Seq::<u8>::empty() + spec_encode_val(v@) =~= spec_encode_val(v@));
    }
    out
}

/// Fail-closed truncation: a shape that decodes successfully from `s` fails
/// to decode from any strict prefix of the bytes it consumed.
pub proof fn lemma_shape_prefix_fails(shape: Seq<FieldType>, s: Seq<u8>, pos: int, j: int)
    requires
        0 <= pos <= s.len(),
        spec_decode_shape(shape, s, pos) is Some,
        pos <= j < spec_decode_shape(shape, s, pos)->Some_0.1,
    ensures
        spec_decode_shape(shape, s.take(j), pos) is None,
{
    let end = spec_decode_shape(shape, s, pos)->Some_0.1;
    lemma_shape_bounds(shape, s, pos);
    if spec_decode_shape(shape, s.take(j), pos) is Some {
        let end2 = spec_decode_shape(shape, s.take(j), pos)->Some_0.1;
        lemma_shape_bounds(shape, s.take(j), pos);
        lemma_shape_agree(shape, s.take(j), s, pos);
        assert(end == end2);
        assert(false);
    }
}

} // verus!
