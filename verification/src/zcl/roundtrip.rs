//! Reading back what was written: a value of the cluster library, written
//! and read at the same nesting depth, is read back as itself, where its
//! data type allows it.
use vstd::prelude::*;

use crate::bytes::{le_bytes, lemma_le_roundtrip, lemma_pow256_values};
use crate::zcl::types::{
    date_refused, field_byte, is_list_tag, is_number_tag, items_bytes, list_view, spec_parse,
    spec_parse_items, spec_parse_number, ZclDataView, ZclItemsParse, ZclParse,
};
use vstd::utf8::encode_utf8;

verus! {

/// A value that reads back as itself: no long character string (it reads
/// back as a short one) and no IEEE address (its length is read as 4);
/// numbers that fit their width (numbers of 3, 5, 6 or 7 bytes held in a
/// wider integer are not negative); strings and lists whose length fits
/// their length field, lists whose count is their length and whose items
/// read back; times and dates in range, with no field 0xff.
pub open spec fn spec_reads_back(d: ZclDataView, depth: nat) -> bool
    decreases d,
{
    &&& depth <= 15
    &&& match d {
        ZclDataView::Data24(x) => 0 <= x < 0x1000000,
        ZclDataView::Data40(x) => 0 <= x < 0x10000000000,
        ZclDataView::Data48(x) => 0 <= x < 0x1000000000000,
        ZclDataView::Data56(x) => 0 <= x < 0x100000000000000,
        ZclDataView::Bitmap24(x) => 0 <= x < 0x1000000,
        ZclDataView::Bitmap40(x) => 0 <= x < 0x10000000000,
        ZclDataView::Bitmap48(x) => 0 <= x < 0x1000000000000,
        ZclDataView::Bitmap56(x) => 0 <= x < 0x100000000000000,
        ZclDataView::UInt24(x) => 0 <= x < 0x1000000,
        ZclDataView::UInt40(x) => 0 <= x < 0x10000000000,
        ZclDataView::UInt48(x) => 0 <= x < 0x1000000000000,
        ZclDataView::UInt56(x) => 0 <= x < 0x100000000000000,
        ZclDataView::Int24(x) => 0 <= x < 0x1000000,
        ZclDataView::Int40(x) => 0 <= x < 0x10000000000,
        ZclDataView::Int48(x) => 0 <= x < 0x1000000000000,
        ZclDataView::Int56(x) => 0 <= x < 0x100000000000000,
        ZclDataView::Float16(x) => 0 <= x < 0x10000,
        ZclDataView::OctetString(x) => x.len() <= 255,
        ZclDataView::String(x) => encode_utf8(x).len() <= 255,
        ZclDataView::LongOctetString(x) => x.len() <= 65535,
        ZclDataView::LongString(_) => false,
        ZclDataView::Array(n, items) => n == items.len() && items_read_back(items, depth + 1),
        ZclDataView::Structure(n, items) => n == items.len() && items_read_back(items, depth + 1),
        ZclDataView::DataSet(n, items) => n == items.len() && items_read_back(items, depth + 1),
        ZclDataView::Bag(n, items) => n == items.len() && items_read_back(items, depth + 1),
        ZclDataView::Time(t) => t.spec_wf() && t.hour != Some(0xffu8) && t.minute != Some(0xffu8) && t.second != Some(0xffu8) && t.hundredth != Some(0xffu8),
        ZclDataView::Date(x) => !date_refused(field_byte(x.year), field_byte(x.month), field_byte(x.day), field_byte(x.weekday)) && x.year != Some(0xffu8) && x.month != Some(0xffu8) && x.day != Some(0xffu8) && x.weekday != Some(0xffu8),
        ZclDataView::IeeeAddress(_) => false,
        ZclDataView::SecurityKey(k) => k.len() == 16,
        _ => true,
    }
}

/// Every item of a list reads back (see [`spec_reads_back`]).
pub open spec fn items_read_back(items: Seq<ZclDataView>, depth: nat) -> bool
    decreases items,
{
    if items.len() == 0 {
        true
    } else {
        &&& spec_reads_back(items[items.len() - 1], depth)
        &&& items_read_back(items.subrange(0, items.len() - 1), depth)
    }
}

proof fn lemma_items_read_back_all(items: Seq<ZclDataView>, depth: nat)
    ensures
        items_read_back(items, depth) <==> forall|i: int|
            0 <= i < items.len() ==> #[trigger] spec_reads_back(items[i], depth),
    decreases items.len(),
{
    if items.len() > 0 {
        let init = items.subrange(0, items.len() - 1);
        lemma_items_read_back_all(init, depth);
        assert(forall|i: int| 0 <= i < init.len() ==> init[i] == items[i]);
        if items_read_back(items, depth) {
            assert forall|i: int| 0 <= i < items.len() implies #[trigger] spec_reads_back(items[i], depth) by {
                if i < init.len() {
                    assert(spec_reads_back(init[i], depth));
                }
            }
        }
        if forall|i: int| 0 <= i < items.len() ==> #[trigger] spec_reads_back(items[i], depth) {
            assert forall|i: int| 0 <= i < init.len() implies #[trigger] spec_reads_back(init[i], depth) by {
                assert(spec_reads_back(items[i], depth));
            }
            assert(spec_reads_back(items[items.len() - 1], depth));
        }
    }
}

/// The middle part of three concatenated sequences.
proof fn lemma_middle(pre: Seq<u8>, a: Seq<u8>, post: Seq<u8>)
    ensures
        (pre + a + post).subrange(pre.len() as int, (pre.len() + a.len()) as int) == a,
        (pre + a + post).len() == pre.len() + a.len() + post.len(),
        forall|i: int| 0 <= i < a.len() ==> (pre + a + post)[pre.len() + i] == a[i],
{
    assert((pre + a + post).subrange(pre.len() as int, (pre.len() + a.len()) as int) =~= a);
}

/// The bytes of a list are those of its first item, then those of the rest.
proof fn lemma_items_bytes_front(items: Seq<ZclDataView>, depth: nat)
    requires
        items.len() > 0,
        depth <= 16,
        items_bytes(items, depth) is Some,
    ensures
        items[0].spec_payload(depth) is Some,
        items_bytes(items.drop_first(), depth) is Some,
        items_bytes(items, depth)->Some_0 == seq![items[0].spec_tag()] + items[0].spec_payload(depth)->Some_0 + items_bytes(items.drop_first(), depth)->Some_0,
    decreases items.len(),
{
    if items.len() == 1 {
        assert(items.drop_last() =~= Seq::<ZclDataView>::empty());
        assert(items.drop_first() =~= Seq::<ZclDataView>::empty());
        assert(items_bytes(items, depth)->Some_0 =~= seq![items[0].spec_tag()] + items[0].spec_payload(depth)->Some_0 + Seq::<u8>::empty());
    } else {
        let init = items.drop_last();
        lemma_items_bytes_front(init, depth);
        assert(init.drop_first() =~= items.drop_first().drop_last());
        assert(items.drop_first().last() == items.last());
        assert(init[0] == items[0]);
        assert(items_bytes(items, depth)->Some_0 =~= seq![items[0].spec_tag()] + items[0].spec_payload(depth)->Some_0 + items_bytes(items.drop_first(), depth)->Some_0);
    }
}

/// A value that reads back can be written.
proof fn lemma_reads_back_bytes(d: ZclDataView, depth: nat)
    requires
        spec_reads_back(d, depth),
    ensures
        d.spec_payload(depth) is Some,
    decreases d,
{
    match d {
        ZclDataView::Array(_, items) => {
            lemma_items_read_back_all(items, depth + 1);
            lemma_items_bytes_some_rec(items, depth + 1);
        },
        ZclDataView::Structure(_, items) => {
            lemma_items_read_back_all(items, depth + 1);
            lemma_items_bytes_some_rec(items, depth + 1);
        },
        ZclDataView::DataSet(_, items) => {
            lemma_items_read_back_all(items, depth + 1);
            lemma_items_bytes_some_rec(items, depth + 1);
        },
        ZclDataView::Bag(_, items) => {
            lemma_items_read_back_all(items, depth + 1);
            lemma_items_bytes_some_rec(items, depth + 1);
        },
        _ => {},
    }
}

/// The bytes of items that all read back can be written.
proof fn lemma_items_bytes_some_rec(items: Seq<ZclDataView>, depth: nat)
    requires
        depth <= 16,
        forall|i: int| 0 <= i < items.len() ==> #[trigger] spec_reads_back(items[i], depth),
    ensures
        items_bytes(items, depth) is Some,
    decreases items,
{
    if items.len() > 0 {
        assert(spec_reads_back(items[items.len() - 1], depth));
        let init = items.drop_last();
        assert forall|i: int| 0 <= i < init.len() implies #[trigger] spec_reads_back(init[i], depth) by {
            assert(init[i] == items[i]);
        }
        lemma_items_bytes_some_rec(init, depth);
        lemma_reads_back_bytes(items[items.len() - 1], depth);
    }
}

#[verifier::spinoff_prover]
#[verifier::rlimit(100)]
proof fn lemma_number_reads_back_data(d: ZclDataView, depth: nat, pre: Seq<u8>, post: Seq<u8>)
    requires
        spec_reads_back(d, depth),
        is_number_tag(d.spec_tag()),
        0x08 <= d.spec_tag() <= 0x0f,
    ensures
        d.spec_payload(depth) is Some,
        spec_parse_number(pre + d.spec_bytes(depth)->Some_0 + post, pre.len() as int)
            == ZclParse::Parsed(d, d.spec_bytes(depth)->Some_0.len() as int),
{
    let off = pre.len() as int;
    let b = d.spec_bytes(depth)->Some_0;
    let s = pre + b + post;
    lemma_middle(pre, b, post);
    lemma_pow256_values();
    assert(s[off] == d.spec_tag());
    match d {
        ZclDataView::Data8(x) => {
            lemma_le_roundtrip(x as nat, 1);
            assert(s.subrange(off + 1, off + 1 + 1) =~= le_bytes(x as nat, 1));
        },
        ZclDataView::Data16(x) => {
            lemma_le_roundtrip(x as nat, 2);
            assert(s.subrange(off + 1, off + 1 + 2) =~= le_bytes(x as nat, 2));
        },
        ZclDataView::Data24(x) => {
            lemma_le_roundtrip(x as nat, 3);
            assert(s.subrange(off + 1, off + 1 + 3) =~= le_bytes(x as nat, 3));
        },
        ZclDataView::Data32(x) => {
            lemma_le_roundtrip(x as nat, 4);
            assert(s.subrange(off + 1, off + 1 + 4) =~= le_bytes(x as nat, 4));
        },
        ZclDataView::Data40(x) => {
            lemma_le_roundtrip(x as nat, 5);
            assert(s.subrange(off + 1, off + 1 + 5) =~= le_bytes(x as nat, 5));
        },
        ZclDataView::Data48(x) => {
            lemma_le_roundtrip(x as nat, 6);
            assert(s.subrange(off + 1, off + 1 + 6) =~= le_bytes(x as nat, 6));
        },
        ZclDataView::Data56(x) => {
            lemma_le_roundtrip(x as nat, 7);
            assert(s.subrange(off + 1, off + 1 + 7) =~= le_bytes(x as nat, 7));
        },
        ZclDataView::Data64(x) => {
            lemma_le_roundtrip(x as nat, 8);
            assert(s.subrange(off + 1, off + 1 + 8) =~= le_bytes(x as nat, 8));
        },
        _ => {},
    }
}

#[verifier::spinoff_prover]
#[verifier::rlimit(100)]
proof fn lemma_number_reads_back_bitmap(d: ZclDataView, depth: nat, pre: Seq<u8>, post: Seq<u8>)
    requires
        spec_reads_back(d, depth),
        is_number_tag(d.spec_tag()),
        0x18 <= d.spec_tag() <= 0x1f,
    ensures
        d.spec_payload(depth) is Some,
        spec_parse_number(pre + d.spec_bytes(depth)->Some_0 + post, pre.len() as int)
            == ZclParse::Parsed(d, d.spec_bytes(depth)->Some_0.len() as int),
{
    let off = pre.len() as int;
    let b = d.spec_bytes(depth)->Some_0;
    let s = pre + b + post;
    lemma_middle(pre, b, post);
    lemma_pow256_values();
    assert(s[off] == d.spec_tag());
    match d {
        ZclDataView::Bitmap8(x) => {
            lemma_le_roundtrip(x as nat, 1);
            assert(s.subrange(off + 1, off + 1 + 1) =~= le_bytes(x as nat, 1));
        },
        ZclDataView::Bitmap16(x) => {
            lemma_le_roundtrip(x as nat, 2);
            assert(s.subrange(off + 1, off + 1 + 2) =~= le_bytes(x as nat, 2));
        },
        ZclDataView::Bitmap24(x) => {
            lemma_le_roundtrip(x as nat, 3);
            assert(s.subrange(off + 1, off + 1 + 3) =~= le_bytes(x as nat, 3));
        },
        ZclDataView::Bitmap32(x) => {
            lemma_le_roundtrip(x as nat, 4);
            assert(s.subrange(off + 1, off + 1 + 4) =~= le_bytes(x as nat, 4));
        },
        ZclDataView::Bitmap40(x) => {
            lemma_le_roundtrip(x as nat, 5);
            assert(s.subrange(off + 1, off + 1 + 5) =~= le_bytes(x as nat, 5));
        },
        ZclDataView::Bitmap48(x) => {
            lemma_le_roundtrip(x as nat, 6);
            assert(s.subrange(off + 1, off + 1 + 6) =~= le_bytes(x as nat, 6));
        },
        ZclDataView::Bitmap56(x) => {
            lemma_le_roundtrip(x as nat, 7);
            assert(s.subrange(off + 1, off + 1 + 7) =~= le_bytes(x as nat, 7));
        },
        ZclDataView::Bitmap64(x) => {
            lemma_le_roundtrip(x as nat, 8);
            assert(s.subrange(off + 1, off + 1 + 8) =~= le_bytes(x as nat, 8));
        },
        _ => {},
    }
}

#[verifier::spinoff_prover]
#[verifier::rlimit(100)]
proof fn lemma_number_reads_back_unsigned(d: ZclDataView, depth: nat, pre: Seq<u8>, post: Seq<u8>)
    requires
        spec_reads_back(d, depth),
        is_number_tag(d.spec_tag()),
        0x20 <= d.spec_tag() <= 0x27,
    ensures
        d.spec_payload(depth) is Some,
        spec_parse_number(pre + d.spec_bytes(depth)->Some_0 + post, pre.len() as int)
            == ZclParse::Parsed(d, d.spec_bytes(depth)->Some_0.len() as int),
{
    let off = pre.len() as int;
    let b = d.spec_bytes(depth)->Some_0;
    let s = pre + b + post;
    lemma_middle(pre, b, post);
    lemma_pow256_values();
    assert(s[off] == d.spec_tag());
    match d {
        ZclDataView::UInt8(x) => {
            lemma_le_roundtrip(x as nat, 1);
            assert(s.subrange(off + 1, off + 1 + 1) =~= le_bytes(x as nat, 1));
        },
        ZclDataView::UInt16(x) => {
            lemma_le_roundtrip(x as nat, 2);
            assert(s.subrange(off + 1, off + 1 + 2) =~= le_bytes(x as nat, 2));
        },
        ZclDataView::UInt24(x) => {
            lemma_le_roundtrip(x as nat, 3);
            assert(s.subrange(off + 1, off + 1 + 3) =~= le_bytes(x as nat, 3));
        },
        ZclDataView::UInt32(x) => {
            lemma_le_roundtrip(x as nat, 4);
            assert(s.subrange(off + 1, off + 1 + 4) =~= le_bytes(x as nat, 4));
        },
        ZclDataView::UInt40(x) => {
            lemma_le_roundtrip(x as nat, 5);
            assert(s.subrange(off + 1, off + 1 + 5) =~= le_bytes(x as nat, 5));
        },
        ZclDataView::UInt48(x) => {
            lemma_le_roundtrip(x as nat, 6);
            assert(s.subrange(off + 1, off + 1 + 6) =~= le_bytes(x as nat, 6));
        },
        ZclDataView::UInt56(x) => {
            lemma_le_roundtrip(x as nat, 7);
            assert(s.subrange(off + 1, off + 1 + 7) =~= le_bytes(x as nat, 7));
        },
        ZclDataView::UInt64(x) => {
            lemma_le_roundtrip(x as nat, 8);
            assert(s.subrange(off + 1, off + 1 + 8) =~= le_bytes(x as nat, 8));
        },
        _ => {},
    }
}

#[verifier::spinoff_prover]
#[verifier::rlimit(100)]
proof fn lemma_number_reads_back_signed(d: ZclDataView, depth: nat, pre: Seq<u8>, post: Seq<u8>)
    requires
        spec_reads_back(d, depth),
        is_number_tag(d.spec_tag()),
        0x28 <= d.spec_tag() <= 0x2f,
    ensures
        d.spec_payload(depth) is Some,
        spec_parse_number(pre + d.spec_bytes(depth)->Some_0 + post, pre.len() as int)
            == ZclParse::Parsed(d, d.spec_bytes(depth)->Some_0.len() as int),
{
    let off = pre.len() as int;
    let b = d.spec_bytes(depth)->Some_0;
    let s = pre + b + post;
    lemma_middle(pre, b, post);
    lemma_pow256_values();
    assert(s[off] == d.spec_tag());
    match d {
        ZclDataView::Int8(x) => {
            lemma_le_roundtrip((x as u8) as nat, 1);
            assert(s.subrange(off + 1, off + 1 + 1) =~= le_bytes((x as u8) as nat, 1));
            assert(((x as u8) as i8) == x) by (bit_vector);
        },
        ZclDataView::Int16(x) => {
            lemma_le_roundtrip((x as u16) as nat, 2);
            assert(s.subrange(off + 1, off + 1 + 2) =~= le_bytes((x as u16) as nat, 2));
            assert(((x as u16) as i16) == x) by (bit_vector);
        },
        ZclDataView::Int24(x) => {
            lemma_le_roundtrip((x as u32) as nat, 3);
            assert(s.subrange(off + 1, off + 1 + 3) =~= le_bytes((x as u32) as nat, 3));
            
        },
        ZclDataView::Int32(x) => {
            lemma_le_roundtrip((x as u32) as nat, 4);
            assert(s.subrange(off + 1, off + 1 + 4) =~= le_bytes((x as u32) as nat, 4));
            assert(((x as u32) as i32) == x) by (bit_vector);
        },
        ZclDataView::Int40(x) => {
            lemma_le_roundtrip((x as u64) as nat, 5);
            assert(s.subrange(off + 1, off + 1 + 5) =~= le_bytes((x as u64) as nat, 5));
            
        },
        ZclDataView::Int48(x) => {
            lemma_le_roundtrip((x as u64) as nat, 6);
            assert(s.subrange(off + 1, off + 1 + 6) =~= le_bytes((x as u64) as nat, 6));
            
        },
        ZclDataView::Int56(x) => {
            lemma_le_roundtrip((x as u64) as nat, 7);
            assert(s.subrange(off + 1, off + 1 + 7) =~= le_bytes((x as u64) as nat, 7));
            
        },
        ZclDataView::Int64(x) => {
            lemma_le_roundtrip((x as u64) as nat, 8);
            assert(s.subrange(off + 1, off + 1 + 8) =~= le_bytes((x as u64) as nat, 8));
            assert(((x as u64) as i64) == x) by (bit_vector);
        },
        _ => {},
    }
}

#[verifier::spinoff_prover]
#[verifier::rlimit(100)]
proof fn lemma_number_reads_back_other(d: ZclDataView, depth: nat, pre: Seq<u8>, post: Seq<u8>)
    requires
        spec_reads_back(d, depth),
        is_number_tag(d.spec_tag()),
        !(0x08 <= d.spec_tag() <= 0x2f),
    ensures
        d.spec_payload(depth) is Some,
        spec_parse_number(pre + d.spec_bytes(depth)->Some_0 + post, pre.len() as int)
            == ZclParse::Parsed(d, d.spec_bytes(depth)->Some_0.len() as int),
{
    let off = pre.len() as int;
    let b = d.spec_bytes(depth)->Some_0;
    let s = pre + b + post;
    lemma_middle(pre, b, post);
    lemma_pow256_values();
    assert(s[off] == d.spec_tag());
    match d {
        ZclDataView::Enum8(x) => {
            lemma_le_roundtrip(x as nat, 1);
            assert(s.subrange(off + 1, off + 1 + 1) =~= le_bytes(x as nat, 1));
        },
        ZclDataView::Enum16(x) => {
            lemma_le_roundtrip(x as nat, 2);
            assert(s.subrange(off + 1, off + 1 + 2) =~= le_bytes(x as nat, 2));
        },
        ZclDataView::Float16(x) => {
            lemma_le_roundtrip(x as nat, 2);
            assert(s.subrange(off + 1, off + 1 + 2) =~= le_bytes(x as nat, 2));
        },
        ZclDataView::Float(x) => {
            lemma_le_roundtrip(x as nat, 4);
            assert(s.subrange(off + 1, off + 1 + 4) =~= le_bytes(x as nat, 4));
        },
        ZclDataView::Double(x) => {
            lemma_le_roundtrip(x as nat, 8);
            assert(s.subrange(off + 1, off + 1 + 8) =~= le_bytes(x as nat, 8));
        },
        ZclDataView::Timestamp(x) => {
            lemma_le_roundtrip(x as nat, 4);
            assert(s.subrange(off + 1, off + 1 + 4) =~= le_bytes(x as nat, 4));
        },
        ZclDataView::ClusterId(x) => {
            lemma_le_roundtrip(x as nat, 2);
            assert(s.subrange(off + 1, off + 1 + 2) =~= le_bytes(x as nat, 2));
        },
        ZclDataView::AttributeId(x) => {
            lemma_le_roundtrip(x as nat, 2);
            assert(s.subrange(off + 1, off + 1 + 2) =~= le_bytes(x as nat, 2));
        },
        ZclDataView::BacNetOid(x) => {
            lemma_le_roundtrip(x as nat, 2);
            assert(s.subrange(off + 1, off + 1 + 2) =~= le_bytes(x as nat, 2));
        },
        _ => {},
    }
}

/// A fixed-size number reads back as itself.
proof fn lemma_number_reads_back(d: ZclDataView, depth: nat, pre: Seq<u8>, post: Seq<u8>)
    requires
        spec_reads_back(d, depth),
        is_number_tag(d.spec_tag()),
    ensures
        d.spec_payload(depth) is Some,
        spec_parse_number(pre + d.spec_bytes(depth)->Some_0 + post, pre.len() as int)
            == ZclParse::Parsed(d, d.spec_bytes(depth)->Some_0.len() as int),
{
    let t = d.spec_tag();
    if 0x08 <= t <= 0x0f {
        lemma_number_reads_back_data(d, depth, pre, post);
    } else if 0x18 <= t <= 0x1f {
        lemma_number_reads_back_bitmap(d, depth, pre, post);
    } else if 0x20 <= t <= 0x27 {
        lemma_number_reads_back_unsigned(d, depth, pre, post);
    } else if 0x28 <= t <= 0x2f {
        lemma_number_reads_back_signed(d, depth, pre, post);
    } else {
        lemma_number_reads_back_other(d, depth, pre, post);
    }
}


/// A value that reads back (see [`spec_reads_back`]) can be written at its
/// depth, and its bytes, wherever they stand, are read back as the value,
/// taking all of them: what [`crate::zcl::types::ZclData::serialize`]
/// writes, [`crate::zcl::types::ZclData::parse`] reads back.
#[verifier::spinoff_prover]
#[verifier::rlimit(100)]
pub proof fn lemma_reads_back(d: ZclDataView, depth: nat, pre: Seq<u8>, post: Seq<u8>)
    requires
        spec_reads_back(d, depth),
    ensures
        d.spec_bytes(depth) is Some,
        spec_parse(pre + d.spec_bytes(depth)->Some_0 + post, pre.len() as int, depth)
            == ZclParse::Parsed(d, d.spec_bytes(depth)->Some_0.len() as int),
    decreases d,
{
    lemma_reads_back_bytes(d, depth);
    let off = pre.len() as int;
    let b = d.spec_bytes(depth)->Some_0;
    let s = pre + b + post;
    lemma_middle(pre, b, post);
    lemma_pow256_values();
    assert(s[off] == d.spec_tag());
    if is_number_tag(d.spec_tag()) {
        lemma_number_reads_back(d, depth, pre, post);
    } else {
        match d {
            ZclDataView::OctetString(x) => {
                assert(s[off + 1] == x.len() as u8);
                assert(s.subrange(off + 2, off + 2 + x.len()) =~= x);
            },
            ZclDataView::String(x) => {
                let e = encode_utf8(x);
                vstd::utf8::encode_utf8_valid_utf8(x);
                vstd::utf8::encode_utf8_decode_utf8(x);
                assert(s[off + 1] == e.len() as u8);
                assert(s.subrange(off + 2, off + 2 + e.len()) =~= e);
            },
            ZclDataView::LongOctetString(x) => {
                lemma_le_roundtrip((x.len() as u16) as nat, 2);
                assert(s.subrange(off + 1, off + 3) =~= le_bytes((x.len() as u16) as nat, 2));
                assert(s.subrange(off + 3, off + 3 + x.len()) =~= x);
            },
            ZclDataView::Time(t) => {
                let p1 = pre + seq![0xe0u8];
                assert(s =~= p1 + t.spec_bytes() + post);
                t.lemma_roundtrip(p1, post);
            },
            ZclDataView::Date(t) => {
                assert(s.subrange(off + 1, off + 5) =~= t.spec_bytes());
                assert(s[off + 1] == field_byte(t.year));
                assert(s[off + 2] == field_byte(t.month));
                assert(s[off + 3] == field_byte(t.day));
                assert(s[off + 4] == field_byte(t.weekday));
            },
            ZclDataView::SecurityKey(k) => {
                assert(s.subrange(off + 1, off + 17) =~= k);
            },
            ZclDataView::Array(n, items) => {
                lemma_list_reads_back(d, depth, pre, post);
            },
            ZclDataView::Structure(n, items) => {
                lemma_list_reads_back(d, depth, pre, post);
            },
            ZclDataView::DataSet(n, items) => {
                lemma_list_reads_back(d, depth, pre, post);
            },
            ZclDataView::Bag(n, items) => {
                lemma_list_reads_back(d, depth, pre, post);
            },
            _ => {},
        }
    }
}

/// A list that reads back is read back as itself.
#[verifier::spinoff_prover]
proof fn lemma_list_reads_back(d: ZclDataView, depth: nat, pre: Seq<u8>, post: Seq<u8>)
    requires
        spec_reads_back(d, depth),
        is_list_tag(d.spec_tag()),
    ensures
        d.spec_bytes(depth) is Some,
        spec_parse(pre + d.spec_bytes(depth)->Some_0 + post, pre.len() as int, depth)
            == ZclParse::Parsed(d, d.spec_bytes(depth)->Some_0.len() as int),
    decreases d, 0int,
{
    let (n, items) = match d {
        ZclDataView::Array(n, items) => (n, items),
        ZclDataView::Structure(n, items) => (n, items),
        ZclDataView::DataSet(n, items) => (n, items),
        ZclDataView::Bag(n, items) => (n, items),
        _ => (0u16, Seq::empty()),
    };
    lemma_items_read_back_all(items, depth + 1);
    lemma_items_bytes_some_rec(items, depth + 1);
    let off = pre.len() as int;
    let ib = items_bytes(items, depth + 1)->Some_0;
    let cnt = le_bytes((items.len() as u16) as nat, 2);
    let b = seq![d.spec_tag()] + cnt + ib;
    assert(d.spec_bytes(depth)->Some_0 == b);
    let s = pre + b + post;
    lemma_middle(pre, b, post);
    lemma_pow256_values();
    lemma_le_roundtrip((items.len() as u16) as nat, 2);
    assert(s.subrange(off + 1, off + 3) =~= cnt);
    let pre2 = pre + seq![d.spec_tag()] + cnt;
    assert(s =~= pre2 + ib + post);
    lemma_items_read_back(items, depth + 1, pre2, post);
    assert(d == list_view(d.spec_tag(), n, items));
}

/// A value followed by a list reads as the list that starts with it.
proof fn lemma_items_step(s: Seq<u8>, off: int, x: ZclDataView, len: int, rest: Seq<ZclDataView>, end: int, depth: nat)
    requires
        depth <= 16,
        spec_parse(s, off, depth) == ZclParse::Parsed(x, len),
        spec_parse_items(s, off + len, rest.len(), depth) == ZclItemsParse::Parsed(rest, end),
    ensures
        spec_parse_items(s, off, rest.len() + 1, depth) == ZclItemsParse::Parsed(seq![x] + rest, end),
{
    assert((rest.len() + 1 - 1) as nat == rest.len());
}

/// Items that read back are read back as themselves, one after the other.
#[verifier::spinoff_prover]
#[verifier::rlimit(40)]
proof fn lemma_items_read_back(items: Seq<ZclDataView>, depth: nat, pre: Seq<u8>, post: Seq<u8>)
    requires
        forall|i: int| 0 <= i < items.len() ==> #[trigger] spec_reads_back(items[i], depth),
        depth <= 16,
    ensures
        items_bytes(items, depth) is Some,
        spec_parse_items(pre + items_bytes(items, depth)->Some_0 + post, pre.len() as int, items.len(), depth)
            == ZclItemsParse::Parsed(items, (pre.len() + items_bytes(items, depth)->Some_0.len()) as int),
    decreases items, 1int,
{
    lemma_items_bytes_some_rec(items, depth);
    if items.len() == 0 {
        assert(items =~= Seq::<ZclDataView>::empty());
        assert(items_bytes(items, depth)->Some_0 =~= Seq::<u8>::empty());
    } else {
        let x = items[0];
        let rest = items.drop_first();
        assert(spec_reads_back(items[0], depth));
        lemma_items_bytes_front(items, depth);
        let bx = x.spec_bytes(depth)->Some_0;
        let br = items_bytes(rest, depth)->Some_0;
        assert(items_bytes(items, depth)->Some_0 == bx + br);
        assert(forall|i: int| 0 <= i < rest.len() ==> rest[i] == items[i + 1]);
        assert forall|i: int| 0 <= i < rest.len() implies #[trigger] spec_reads_back(rest[i], depth) by {
            assert(spec_reads_back(items[i + 1], depth));
        }
        let off = pre.len() as int;
        let s = pre + items_bytes(items, depth)->Some_0 + post;
        lemma_reads_back(x, depth, pre, br + post);
        assert(s =~= pre + bx + (br + post));
        assert(spec_parse(s, off, depth) == ZclParse::Parsed(x, bx.len() as int));
        lemma_items_read_back(rest, depth, pre + bx, post);
        assert(s =~= pre + bx + br + post);
        lemma_items_step(s, off, x, bx.len() as int, rest, off + bx.len() + br.len(), depth);
        assert(seq![x] + rest =~= items);
    }
}

} // verus!
