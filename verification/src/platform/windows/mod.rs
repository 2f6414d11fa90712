//! Windows platform logic: virtual key tables and the raw input device
//! table.

pub mod device_map;
pub mod events;
pub mod keycode;

use vstd::prelude::*;
use crate::text::{split_by, split_chars, pieces_view, sep_pred, Separators, utf8_prefix,
    take_utf8_prefix, chars_from, parse_hex_u16, hex_to_u16, concat3, char_utf8_len, hex_digits_value,
    hex_digit_value};
use crate::platform::common::DeviceInfo as CommonDeviceInfo;
use device_map::device_id_of;

verus! {

/// The tag that introduces a vendor ID in a device path segment.
pub open spec fn vid_tag() -> Seq<char> {
    seq!['V', 'I', 'D', '_']
}

/// The tag that introduces a product ID in a device path segment.
pub open spec fn pid_tag() -> Seq<char> {
    seq!['P', 'I', 'D', '_']
}

/// The segments of a Windows device path, split at `#` and `&`.
pub open spec fn path_segments(path: Seq<char>) -> Seq<Seq<char>> {
    split_by(path, sep_pred(Separators::HashOrAmpersand))
}

/// The ID a segment carries after `tag`: the text of the first four bytes
/// after the tag read as hexadecimal; `None` when the segment lacks the
/// tag or the text is not a hexadecimal number.
pub open spec fn tagged_value(segment: Seq<char>, tag: Seq<char>) -> Option<u16> {
    if tag.is_prefix_of(segment) {
        match utf8_prefix(chars_from(segment, tag.len() as int), 4) {
            Some(cut) => parse_hex_u16(cut),
            None => None,
        }
    } else {
        None
    }
}

/// Whether the four-byte cut after `tag` lands between characters in
/// every segment that carries the tag (elsewhere the cut would panic).
pub open spec fn tag_cuts_clean(segments: Seq<Seq<char>>, tag: Seq<char>) -> bool {
    forall|i: int|
        0 <= i < segments.len() && tag.is_prefix_of(#[trigger] segments[i]) ==> utf8_prefix(
            chars_from(segments[i], tag.len() as int),
            4,
        ) is Some
}

/// The ID found for `tag` in a list of segments: the one of the last
/// segment that carries a valid ID, or 0 when none does.
pub open spec fn last_tagged_value(segments: Seq<Seq<char>>, tag: Seq<char>) -> u16
    decreases segments.len(),
{
    if segments.len() == 0 {
        0
    } else {
        match tagged_value(segments.last(), tag) {
            Some(v) => v,
            None => last_tagged_value(segments.drop_last(), tag),
        }
    }
}

/// The vendor and product IDs of a Windows device path.
pub open spec fn vid_pid_of(path: Seq<char>) -> (u16, u16) {
    (
        last_tagged_value(path_segments(path), vid_tag()),
        last_tagged_value(path_segments(path), pid_tag()),
    )
}

fn segment_value(segment: &Vec<char>, t0: char, t1: char, t2: char, t3: char) -> (r: Option<u16>)
    requires
        seq![t0, t1, t2, t3].is_prefix_of(segment@) ==> utf8_prefix(chars_from(segment@, 4), 4) is Some,
    ensures
        r == tagged_value(segment@, seq![t0, t1, t2, t3]),
{
    let ghost tag = seq![t0, t1, t2, t3];
    if segment.len() < 4 || segment[0] != t0 || segment[1] != t1 || segment[2] != t2 || segment[3]
        != t3 {
        proof {
            if tag.is_prefix_of(segment@) {
                assert(segment@[0] == tag[0] && segment@[1] == tag[1] && segment@[2] == tag[2]
                    && segment@[3] == tag[3]);
            }
        }
        return None;
    }
    assert(segment@.subrange(0, 4) =~= tag);
    match take_utf8_prefix(segment, 4, 4) {
        Some(cut) => hex_to_u16(&cut),
        None => None,
    }
}

/// Parses the vendor and product IDs from a Windows device path such as
/// `\\?\HID#VID_046D&PID_C52B&MI_00#...`: the path is split at `#` and
/// `&`, and the last `VID_` and `PID_` segments whose first four bytes
/// after the tag read as hexadecimal give the IDs (0 when there is none).
pub fn parse_vid_pid(path: &str) -> (r: (u16, u16))
    requires
        tag_cuts_clean(path_segments(path@), vid_tag()),
        tag_cuts_clean(path_segments(path@), pid_tag()),
    ensures
        r == vid_pid_of(path@),
{
    let segments = split_chars(path, Separators::HashOrAmpersand);
    let ghost segs = path_segments(path@);
    assert(pieces_view(segments@) == segs);
    let mut vendor_id: u16 = 0;
    let mut product_id: u16 = 0;
    let mut i: usize = 0;
    assert(segs.subrange(0, 0) =~= Seq::<Seq<char>>::empty());
    while i < segments.len()
        invariant
            i <= segments@.len(),
            pieces_view(segments@) == segs,
            segs == path_segments(path@),
            tag_cuts_clean(segs, vid_tag()),
            tag_cuts_clean(segs, pid_tag()),
            vendor_id == last_tagged_value(segs.subrange(0, i as int), vid_tag()),
            product_id == last_tagged_value(segs.subrange(0, i as int), pid_tag()),
        decreases segments@.len() - i,
    {
        let segment = &segments[i];
        assert(segment@ == segs[i as int]);
        assert(seq!['V', 'I', 'D', '_'] == vid_tag());
        assert(seq!['P', 'I', 'D', '_'] == pid_tag());
        let ghost next = segs.subrange(0, i + 1);
        assert(next.drop_last() =~= segs.subrange(0, i as int));
        assert(next.last() == segs[i as int]);
        if let Some(v) = segment_value(segment, 'V', 'I', 'D', '_') {
            vendor_id = v;
        }
        if let Some(p) = segment_value(segment, 'P', 'I', 'D', '_') {
            product_id = p;
        }
        i = i + 1;
    }
    assert(segs.subrange(0, segments@.len() as int) =~= segs);
    (vendor_id, product_id)
}

/// Converts a raw input device to the common device information: its
/// identifier, a display name `Keyboard (<identifier>)`, its path, and the
/// vendor and product IDs read from the path.
pub fn convert_device_info(device: &device_map::DeviceInfo) -> (r: CommonDeviceInfo)
    requires
        tag_cuts_clean(path_segments(device.path@), vid_tag()),
        tag_cuts_clean(path_segments(device.path@), pid_tag()),
    ensures
        r.id@ == device_id_of(*device),
        r.name@ == "Keyboard ("@ + device_id_of(*device) + ")"@,
        r.path == device.path,
        (r.vendor_id, r.product_id) == vid_pid_of(device.path@),
{
    let (vendor_id, product_id) = parse_vid_pid(device.path.as_str());
    let id = device.device_id();
    let name = concat3("Keyboard (", id.as_str(), ")");
    CommonDeviceInfo { id, name, path: device.path.clone(), vendor_id, product_id }
}

/// The upper-case hexadecimal digit of a value below sixteen.
pub open spec fn upper_hex_digit(d: nat) -> char {
    if d == 0 { '0' }
    else if d == 1 { '1' }
    else if d == 2 { '2' }
    else if d == 3 { '3' }
    else if d == 4 { '4' }
    else if d == 5 { '5' }
    else if d == 6 { '6' }
    else if d == 7 { '7' }
    else if d == 8 { '8' }
    else if d == 9 { '9' }
    else if d == 10 { 'A' }
    else if d == 11 { 'B' }
    else if d == 12 { 'C' }
    else if d == 13 { 'D' }
    else if d == 14 { 'E' }
    else { 'F' }
}

/// An ID written as four upper-case hexadecimal digits, as device paths
/// write vendor and product IDs.
pub open spec fn hex4(id: u16) -> Seq<char> {
    seq![
        upper_hex_digit((id / 4096) as nat),
        upper_hex_digit(((id / 256) % 16) as nat),
        upper_hex_digit(((id / 16) % 16) as nat),
        upper_hex_digit((id % 16) as nat),
    ]
}

proof fn lemma_upper_hex_digit(d: nat)
    requires
        d < 16,
    ensures
        hex_digit_value(upper_hex_digit(d)) == Some(d),
        char_utf8_len(upper_hex_digit(d)) == 1,
{
}

/// A segment that writes an ID as four hexadecimal digits after its tag
/// gives that ID back: what a device path says is what is read from it.
pub proof fn law_tagged_id_round_trip(id: u16, tag: Seq<char>)
    requires
        tag == vid_tag() || tag == pid_tag(),
    ensures
        tagged_value(tag + hex4(id), tag) == Some(id),
{
    let h = hex4(id);
    let seg = tag + h;
    let d0 = (id / 4096) as nat;
    let d1 = ((id / 256) % 16) as nat;
    let d2 = ((id / 16) % 16) as nat;
    let d3 = (id % 16) as nat;
    assert(d0 < 16) by (nonlinear_arith) requires id < 65536, d0 == id / 4096;
    lemma_upper_hex_digit(d0);
    lemma_upper_hex_digit(d1);
    lemma_upper_hex_digit(d2);
    lemma_upper_hex_digit(d3);
    assert(tag.is_prefix_of(seg)) by {
        assert(seg.subrange(0, tag.len() as int) =~= tag);
    }
    assert(chars_from(seg, tag.len() as int) =~= h);
    reveal_with_fuel(utf8_prefix, 5);
    assert(h.drop_first().drop_first().drop_first().drop_first() =~= Seq::<char>::empty());
    assert(utf8_prefix(h.drop_first().drop_first().drop_first(), 1) == Some(
        seq![h[3]] + Seq::<char>::empty(),
    ));
    assert(utf8_prefix(h, 4) =~~= Some(h)) by {
        assert(seq![h[3]] + Seq::<char>::empty() =~= h.drop_first().drop_first().drop_first());
        assert(seq![h[2]] + h.drop_first().drop_first().drop_first() =~= h.drop_first().drop_first());
        assert(seq![h[1]] + h.drop_first().drop_first() =~= h.drop_first());
        assert(seq![h[0]] + h.drop_first() =~= h);
    }
    reveal_with_fuel(hex_digits_value, 5);
    assert(h.drop_last().drop_last().drop_last().drop_last() =~= Seq::<char>::empty());
    assert(h.drop_last().drop_last().drop_last() =~= seq![h[0]]);
    assert(h.drop_last().drop_last() =~= seq![h[0], h[1]]);
    assert(h.drop_last() =~= seq![h[0], h[1], h[2]]);
    assert(((d0 * 16 + d1) * 16 + d2) * 16 + d3 == id) by (nonlinear_arith)
        requires
            d0 == id / 4096,
            d1 == (id / 256) % 16,
            d2 == (id / 16) % 16,
            d3 == id % 16,
            id < 65536,
    ;
    assert(hex_digits_value(h) == Some(id as nat));
    assert(h[0] != '+');
}

} // verus!
