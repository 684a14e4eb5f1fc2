//! What holds of the grammar for every input.

use crate::decode::error::DecodeErrorView;
use crate::decode::grammar::{
    group_weight, header_magic, leb128, lemma_framed_section_advances, lemma_varuint_advances,
    parse_framed_section,
    parse_header, parse_module, parse_section, parse_section_header, parse_varuint,
    sections_from, text_of, varuint_from,
};
use crate::types::{SectionView, VarUInt};
use vstd::prelude::*;

verus! {

/// Where the input holds the LEB128 encoding of `v` at `pos`, and `index`
/// groups worth `value` were read before it, the read ends behind the
/// encoding with `value` plus `v` times the weight of the group.
proof fn lemma_round_trip_from(s: Seq<u8>, pos: int, index: nat, value: nat, v: nat)
    requires
        0 <= pos,
        pos + leb128(v).len() <= s.len(),
        s.subrange(pos, pos + leb128(v).len()) == leb128(v),
        index <= 4,
        value + v * group_weight(index) <= u32::MAX,
    ensures
        varuint_from(s, pos, index, value) == (
            Ok::<VarUInt, DecodeErrorView>(VarUInt((value + v * group_weight(index)) as u32)),
            pos + leb128(v).len(),
        ),
    decreases v,
{
    let w = group_weight(index);
    let code = leb128(v);
    assert(s[pos] == s.subrange(pos, pos + code.len())[0]);
    if v < 128 {
        assert(code.len() == 1);
        assert((s[pos] % 128) as nat * w == v * w);
    } else {
        let rest = leb128(v / 128);
        let low = v % 128;
        assert(code =~= seq![(low + 128) as u8] + rest);
        assert(s[pos] == (low + 128) as u8);
        assert((s[pos] % 128) as nat == low);
        assert(group_weight(index + 1) == 128 * w);
        assert(v * w == low * w + (v / 128) * (128 * w)) by (nonlinear_arith)
            requires
                low == v % 128,
        ;
        assert((v / 128) * (128 * w) >= 128 * w) by (nonlinear_arith)
            requires
                v >= 128,
                w >= 0,
        ;
        reveal_with_fuel(group_weight, 6);
        assert(index <= 3);
        assert(s.subrange(pos + 1, pos + 1 + rest.len()) =~= rest) by {
            assert(code.subrange(1, code.len() as int) =~= rest);
            assert(s.subrange(pos + 1, pos + 1 + rest.len()) =~= s.subrange(
                pos,
                pos + code.len(),
            ).subrange(1, code.len() as int));
        }
        lemma_round_trip_from(s, pos + 1, index + 1, value + low * w, v / 128);
    }
}

/// Round trip at any place: where the input holds the LEB128 encoding of a
/// 32-bit value at `pos`, decoding there gives that value and ends right
/// behind the encoding.
pub proof fn theorem_varuint_round_trip_at(v: u32, s: Seq<u8>, pos: int)
    requires
        0 <= pos,
        pos + leb128(v as nat).len() <= s.len(),
        s.subrange(pos, pos + leb128(v as nat).len()) == leb128(v as nat),
    ensures
        parse_varuint(s, pos) == (
            Ok::<VarUInt, DecodeErrorView>(VarUInt(v)),
            pos + leb128(v as nat).len(),
        ),
{
    let w = group_weight(0);
    assert(v as nat * w == v as nat) by (nonlinear_arith)
        requires
            w == 1,
    ;
    lemma_round_trip_from(s, pos, 0, 0, v as nat);
}

/// Round trip: decoding the LEB128 encoding of any 32-bit value gives the
/// value back, and consumes the whole encoding.
pub proof fn theorem_varuint_round_trip(v: u32)
    ensures
        parse_varuint(leb128(v as nat), 0) == (
            Ok::<VarUInt, DecodeErrorView>(VarUInt(v)),
            leb128(v as nat).len() as int,
        ),
{
    let code = leb128(v as nat);
    assert(code.subrange(0, code.len() as int) =~= code);
    theorem_varuint_round_trip_at(v, code, 0);
}

/// Overflow: an integer whose first four bytes all ask for more, and whose
/// fifth byte either holds bits beyond the 32nd or asks for a sixth byte
/// that is there, fails with `Numeric`. No such input gives a value.
pub proof fn theorem_varuint_overflow(s: Seq<u8>, pos: int)
    requires
        0 <= pos,
        pos + 5 <= s.len(),
        forall|i: int| pos <= i < pos + 4 ==> s[i] >= 128,
        s[pos + 4] % 128 > 15 || (s[pos + 4] >= 128 && pos + 6 <= s.len()),
    ensures
        parse_varuint(s, pos).0 is Err,
        parse_varuint(s, pos).0->Err_0 is Numeric,
{
    reveal_with_fuel(group_weight, 6);
    let b0 = (s[pos] % 128) as nat;
    let b1 = (s[pos + 1] % 128) as nat;
    let b2 = (s[pos + 2] % 128) as nat;
    let b3 = (s[pos + 3] % 128) as nat;
    let b4 = (s[pos + 4] % 128) as nat;
    let w0 = group_weight(0);
    let w1 = group_weight(1);
    let w2 = group_weight(2);
    let w3 = group_weight(3);
    let w4 = group_weight(4);
    let v1 = b0 * w0;
    let v2 = v1 + b1 * w1;
    let v3 = v2 + b2 * w2;
    let v4 = v3 + b3 * w3;
    let v5 = v4 + b4 * w4;
    assert(s[pos] >= 128 && s[pos + 1] >= 128 && s[pos + 2] >= 128 && s[pos + 3] >= 128);
    assert(v1 == b0 && v2 == v1 + b1 * 128 && v3 == v2 + b2 * 16384 && v4 == v3 + b3 * 2097152
        && v5 == v4 + b4 * 268435456) by (nonlinear_arith)
        requires
            w0 == 1 && w1 == 128 && w2 == 16384 && w3 == 2097152 && w4 == 268435456,
            v1 == b0 * w0 && v2 == v1 + b1 * w1 && v3 == v2 + b2 * w2 && v4 == v3 + b3 * w3 && v5
                == v4 + b4 * w4,
    ;
    assert(varuint_from(s, pos, 0, 0) == varuint_from(s, pos + 1, 1, v1));
    assert(varuint_from(s, pos + 1, 1, v1) == varuint_from(s, pos + 2, 2, v2));
    assert(varuint_from(s, pos + 2, 2, v2) == varuint_from(s, pos + 3, 3, v3));
    assert(varuint_from(s, pos + 3, 3, v3) == varuint_from(s, pos + 4, 4, v4));
    if b4 <= 15 {
        assert(varuint_from(s, pos + 4, 4, v4) == varuint_from(s, pos + 5, 5, v5));
    }
}

/// The exact value of the first `n` seven-bit groups at `pos`: each byte's
/// low seven bits times the weight of its place, added up as integers.
pub open spec fn groups_value(s: Seq<u8>, pos: int, n: nat) -> nat
    decreases n,
{
    if n == 0 {
        0
    } else {
        groups_value(s, pos, (n - 1) as nat) + (s[pos + n - 1] % 128) as nat * group_weight(
            (n - 1) as nat,
        )
    }
}

/// Where a read that has taken `index` groups from `start` on goes on to
/// succeed, it ends within five bytes of `start` on the first byte under
/// 128, with the exact value of the groups.
proof fn lemma_value_is_exact_from(s: Seq<u8>, start: int, index: nat, value: nat)
    requires
        0 <= start,
        start + index <= s.len(),
        value == groups_value(s, start, index),
        forall|j: int| start <= j < start + index ==> s[j] >= 128,
        varuint_from(s, start + index, index, value).0 is Ok,
    ensures
        ({
            let (r, end) = varuint_from(s, start + index, index, value);
            let n = end - start;
            &&& 1 <= n <= 5
            &&& end <= s.len()
            &&& r->Ok_0.0 == groups_value(s, start, n as nat)
            &&& s[end - 1] < 128
            &&& forall|j: int| start <= j < end - 1 ==> s[j] >= 128
        }),
    decreases s.len() - (start + index),
{
    let pos = start + index;
    let byte = s[pos];
    let sum = value + (byte % 128) as nat * group_weight(index);
    assert(sum == groups_value(s, start, index + 1));
    if byte >= 128 {
        lemma_value_is_exact_from(s, start, index + 1, sum);
    }
}

/// No wrapping: an integer that decodes took at most five bytes, the last
/// of them the first one under 128, and its value is the exact sum of the
/// groups, which therefore fits in 32 bits.
pub proof fn theorem_varuint_value_is_exact(s: Seq<u8>, pos: int)
    requires
        0 <= pos <= s.len(),
        parse_varuint(s, pos).0 is Ok,
    ensures
        ({
            let (r, end) = parse_varuint(s, pos);
            let n = end - pos;
            &&& 1 <= n <= 5
            &&& end <= s.len()
            &&& r->Ok_0.0 == groups_value(s, pos, n as nat)
            &&& groups_value(s, pos, n as nat) <= u32::MAX
            &&& s[end - 1] < 128
            &&& forall|j: int| pos <= j < end - 1 ==> s[j] >= 128
        }),
{
    lemma_value_is_exact_from(s, pos, 0, 0);
}

/// Header validation: input that does not start with the four magic bytes,
/// whether it is shorter than four bytes or not, fails with `Binary`, which
/// holds the magic and the bytes found, both as text.
pub proof fn theorem_header_rejected(s: Seq<u8>)
    requires
        !(s.len() >= 4 && s.subrange(0, 4) == header_magic()),
    ensures
        parse_module(s) == Err::<crate::module::ModuleView, DecodeErrorView>(
            DecodeErrorView::Binary {
                expected: text_of(header_magic()),
                found: text_of(
                    s.subrange(
                        0,
                        if s.len() >= 4 {
                            4
                        } else {
                            s.len() as int
                        },
                    ),
                ),
            },
        ),
{
    if s.len() < 4 {
        assert(s.subrange(0, s.len() as int).len() != header_magic().len());
    }
}

/// Input that starts with the four magic bytes passes the header check,
/// which consumes exactly those four bytes.
pub proof fn theorem_header_accepted(s: Seq<u8>)
    requires
        s.len() >= 4,
        s.subrange(0, 4) == header_magic(),
    ensures
        parse_header(s, 0) == (Ok::<(), DecodeErrorView>(()), 4int),
{
}

/// The bytes that the sections from `pos` on take, by their own heads: for
/// each section its kind byte, the bytes of its size, and the size it
/// declares.
pub open spec fn framed_length(s: Seq<u8>, pos: int) -> int
    decreases s.len() - pos,
    via framed_length_decreases
{
    if !(0 <= pos < s.len()) {
        0
    } else {
        let (head, p1) = parse_section_header(s, pos);
        let (section, p2) = parse_framed_section(s, pos);
        if head is Ok && section is Ok {
            (p1 - pos) + head->Ok_0.1 + framed_length(s, p2)
        } else {
            0
        }
    }
}

#[via_fn]
proof fn framed_length_decreases(s: Seq<u8>, pos: int) {
    if 0 <= pos < s.len() {
        lemma_framed_section_advances(s, pos);
    }
}

/// Where the sections from `pos` on decode, their framed lengths add up to
/// what is left of the input.
proof fn lemma_sections_fill_input(s: Seq<u8>, pos: int, acc: Seq<SectionView>)
    requires
        0 <= pos <= s.len(),
        sections_from(s, pos, acc) is Ok,
    ensures
        pos + framed_length(s, pos) == s.len(),
    decreases s.len() - pos,
{
    if pos < s.len() {
        lemma_framed_section_advances(s, pos);
        let (section, p2) = parse_framed_section(s, pos);
        lemma_sections_fill_input(s, p2, acc.push(section->Ok_0));
    }
}

/// Framing: for every input that decodes as a module, the eight bytes of
/// header and version and the framed lengths of the sections add up to the
/// length of the input exactly: nothing is left over and nothing overrun.
pub proof fn theorem_framing_is_exact(s: Seq<u8>)
    requires
        parse_module(s) is Ok,
    ensures
        8 + framed_length(s, 8) == s.len(),
{
    lemma_sections_fill_input(s, 8, Seq::empty());
}

/// A section whose content is passed over consumes exactly the size it
/// declares, whatever the bytes are, and gives its marker.
pub proof fn theorem_custom_section_skipped(s: Seq<u8>, pos: int, size: u32)
    requires
        0 <= pos,
        pos + size <= s.len(),
    ensures
        parse_section(s, pos, 0, size) == (
            Ok::<SectionView, DecodeErrorView>(SectionView::Custom),
            pos + size,
        ),
{
}

/// After a custom section the decode goes on with the section behind it:
/// where a head at `pos` announces a custom section whose bytes are there,
/// the sections from `pos` are the marker and then the sections that start
/// right behind those bytes.
pub proof fn theorem_decode_continues_after_custom(
    s: Seq<u8>,
    pos: int,
    size: u32,
    acc: Seq<SectionView>,
)
    requires
        0 <= pos < s.len(),
        parse_section_header(s, pos).0 == Ok::<(u8, u32), DecodeErrorView>((0u8, size)),
        parse_section_header(s, pos).1 + size <= s.len(),
    ensures
        sections_from(s, pos, acc) == sections_from(
            s,
            parse_section_header(s, pos).1 + size,
            acc.push(SectionView::Custom),
        ),
{
    lemma_varuint_advances(s, pos + 1, 0, 0);
}

} // verus!
