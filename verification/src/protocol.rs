//! The wire-protocol encoder: every tick the eight emulated pads are packed
//! into one fixed-layout, little-endian datagram of 212 bytes — a 2-byte
//! magic, a 2-byte slot count, then eight 26-byte slot records.

use vstd::bytes::{
    spec_u16_to_le_bytes, spec_u32_to_le_bytes, spec_u64_to_le_bytes, u16_to_le_bytes,
    u32_to_le_bytes, u64_to_le_bytes,
};
use vstd::prelude::*;

use crate::switch::{EmulatedPad, SwitchPad};
use crate::NUM_SLOTS;

verus! {

/// The leading magic of every datagram.
pub const PACKET_MAGIC: u16 = 0x3276;

/// The integer wire value of an emulated pad type (or the lack of one).
pub open spec fn spec_switch_pad_value(switch_pad: SwitchPad) -> i8 {
    match switch_pad {
        SwitchPad::Disconnected => 0,
        SwitchPad::ProController => 1,
        SwitchPad::JoyConLSide => 2,
        SwitchPad::JoyConRSide => 3,
    }
}

/// Maps a switch pad (or lack thereof) to its integer counterpart.
pub fn to_switch_pad_value(switch_pad: &SwitchPad) -> (r: i8)
    ensures
        r == spec_switch_pad_value(*switch_pad),
{
    match switch_pad {
        SwitchPad::Disconnected => 0,
        SwitchPad::ProController => 1,
        SwitchPad::JoyConLSide => 2,
        SwitchPad::JoyConRSide => 3,
    }
}

/// One slot's share of the datagram: the pad type as a 16-bit value, the key
/// mask widened to 64 bits, and the four stick halves sign-extended to 32
/// bits each.
#[derive(Copy, Clone, Debug)]
pub struct PadRecord {
    pub con_type: u16,
    pub keys: u64,
    pub joy_l_x: i32,
    pub joy_l_y: i32,
    pub joy_r_x: i32,
    pub joy_r_y: i32,
}

/// The record a pad serializes to. The key mask is non-negative (its 28
/// significant bits), so widening preserves its value; stick halves are
/// sign-extended, as the receiver expects.
pub open spec fn spec_pad_record(pad: EmulatedPad) -> PadRecord {
    PadRecord {
        con_type: spec_switch_pad_value(pad.switch_pad) as u16,
        keys: pad.keyout as u64,
        joy_l_x: pad.left.0 as i32,
        joy_l_y: pad.left.1 as i32,
        joy_r_x: pad.right.0 as i32,
        joy_r_y: pad.right.1 as i32,
    }
}

/// The records of a whole pad array.
pub open spec fn spec_pad_records(pads: Seq<EmulatedPad>) -> Seq<PadRecord> {
    pads.map_values(|pad: EmulatedPad| spec_pad_record(pad))
}

/// The 26 bytes of one slot record, little-endian throughout.
pub open spec fn spec_record_bytes(record: PadRecord) -> Seq<u8> {
    spec_u16_to_le_bytes(record.con_type) + spec_u64_to_le_bytes(record.keys)
        + spec_u32_to_le_bytes(record.joy_l_x as u32) + spec_u32_to_le_bytes(record.joy_l_y as u32)
        + spec_u32_to_le_bytes(record.joy_r_x as u32) + spec_u32_to_le_bytes(record.joy_r_y as u32)
}

/// The concatenated bytes of the first `n` records.
pub open spec fn spec_records_bytes(records: Seq<PadRecord>, n: int) -> Seq<u8>
    decreases n,
{
    if n <= 0 {
        Seq::empty()
    } else {
        spec_records_bytes(records, n - 1) + spec_record_bytes(records[n - 1])
    }
}

/// The full datagram for a pad array and a connected-slot-count header.
pub open spec fn spec_datagram(pads: Seq<EmulatedPad>, connected: u16) -> Seq<u8> {
    spec_u16_to_le_bytes(PACKET_MAGIC) + spec_u16_to_le_bytes(connected) + spec_records_bytes(
        spec_pad_records(pads),
        NUM_SLOTS as int,
    )
}

/// Packed data to be sent to an input server: one fixed-layout projection of
/// the eight emulated pads plus the header fields, rebuilt every tick.
pub struct PackedData {
    pub magic: u16,
    pub connected: u16,
    pub records: Vec<PadRecord>,
}

/// Serializes one record into its 26 little-endian bytes.
fn record_to_bytes(record: &PadRecord) -> (r: Vec<u8>)
    ensures
        r@ == spec_record_bytes(*record),
{
    let mut out = u16_to_le_bytes(record.con_type);
    let mut keys = u64_to_le_bytes(record.keys);
    out.append(&mut keys);
    let mut b = u32_to_le_bytes(#[verifier::truncate] (record.joy_l_x as u32));
    out.append(&mut b);
    let mut b = u32_to_le_bytes(#[verifier::truncate] (record.joy_l_y as u32));
    out.append(&mut b);
    let mut b = u32_to_le_bytes(#[verifier::truncate] (record.joy_r_x as u32));
    out.append(&mut b);
    let mut b = u32_to_le_bytes(#[verifier::truncate] (record.joy_r_y as u32));
    out.append(&mut b);
    out
}

impl PackedData {
    /// Whether this packed data has exactly one record per slot.
    pub open spec fn wf(&self) -> bool {
        self.records@.len() == NUM_SLOTS
    }

    /// Constructs a packed data struct just from a list of pads and the
    /// connected-slot-count header value.
    pub fn new(pads: &Vec<EmulatedPad>, connected: i8) -> (r: PackedData)
        requires
            pads@.len() == NUM_SLOTS,
            0 <= connected,
            forall|i: int| 0 <= i < pads@.len() ==> (#[trigger] pads@[i]).mask_wf(),
        ensures
            r.magic == PACKET_MAGIC,
            r.connected == connected as u16,
            r.records@ == spec_pad_records(pads@),
            r.wf(),
    {
        let mut records: Vec<PadRecord> = Vec::new();
        let mut i: usize = 0;
        while i < NUM_SLOTS
            invariant
                0 <= i <= NUM_SLOTS,
                pads@.len() == NUM_SLOTS,
                forall|j: int| 0 <= j < pads@.len() ==> (#[trigger] pads@[j]).mask_wf(),
                records@.len() == i,
                forall|j: int| 0 <= j < i ==> records@[j] == spec_pad_record(pads@[j]),
            decreases NUM_SLOTS - i,
        {
            let pad = &pads[i];
            records.push(
                PadRecord {
                    con_type: to_switch_pad_value(pad.get_switch_pad()) as u16,
                    keys: *pad.get_keyout() as u64,
                    joy_l_x: pad.get_left().0 as i32,
                    joy_l_y: pad.get_left().1 as i32,
                    joy_r_x: pad.get_right().0 as i32,
                    joy_r_y: pad.get_right().1 as i32,
                },
            );
            i = i + 1;
        }
        proof {
            assert(records@ =~= spec_pad_records(pads@));
        }
        PackedData { magic: PACKET_MAGIC, connected: connected as u16, records }
    }

    /// Converts this packed data to the bytes of one outbound datagram.
    pub fn to_bytes(&self) -> (r: Vec<u8>)
        requires
            self.wf(),
        ensures
            r@ == spec_u16_to_le_bytes(self.magic) + spec_u16_to_le_bytes(self.connected)
                + spec_records_bytes(self.records@, NUM_SLOTS as int),
    {
        let mut out = u16_to_le_bytes(self.magic);
        let mut connected = u16_to_le_bytes(self.connected);
        out.append(&mut connected);
        let mut i: usize = 0;
        while i < NUM_SLOTS
            invariant
                0 <= i <= NUM_SLOTS,
                self.records@.len() == NUM_SLOTS,
                out@ == spec_u16_to_le_bytes(self.magic) + spec_u16_to_le_bytes(self.connected)
                    + spec_records_bytes(self.records@, i as int),
            decreases NUM_SLOTS - i,
        {
            let mut record = record_to_bytes(&self.records[i]);
            out.append(&mut record);
            proof {
                assert(out@ =~= spec_u16_to_le_bytes(self.magic) + spec_u16_to_le_bytes(
                    self.connected,
                ) + spec_records_bytes(self.records@, i + 1));
            }
            i = i + 1;
        }
        out
    }
}

/// Encodes a full pad array into one datagram in a single step; the result is
/// exactly the bytes the wire format prescribes for these pads.
pub fn encode_pads(pads: &Vec<EmulatedPad>, connected: i8) -> (r: Vec<u8>)
    requires
        pads@.len() == NUM_SLOTS,
        0 <= connected,
        forall|i: int| 0 <= i < pads@.len() ==> (#[trigger] pads@[i]).mask_wf(),
    ensures
        r@ == spec_datagram(pads@, connected as u16),
{
    PackedData::new(pads, connected).to_bytes()
}

/// The datagram has a fixed size: 4 header bytes plus eight 26-byte records.
pub proof fn lemma_datagram_len(pads: Seq<EmulatedPad>, connected: u16)
    ensures
        spec_datagram(pads, connected).len() == 212,
{
    vstd::bytes::lemma_auto_spec_u16_to_from_le_bytes();
    vstd::bytes::lemma_auto_spec_u32_to_from_le_bytes();
    vstd::bytes::lemma_auto_spec_u64_to_from_le_bytes();
    let records = spec_pad_records(pads);
    assert forall|n: int| 0 <= n <= NUM_SLOTS implies spec_records_bytes(records, n).len() == 26
        * n by {
        lemma_records_bytes_len(records, n);
    }
}

/// The concatenated records of any prefix have 26 bytes per record.
proof fn lemma_records_bytes_len(records: Seq<PadRecord>, n: int)
    requires
        0 <= n,
    ensures
        spec_records_bytes(records, n).len() == 26 * n,
    decreases n,
{
    vstd::bytes::lemma_auto_spec_u16_to_from_le_bytes();
    vstd::bytes::lemma_auto_spec_u32_to_from_le_bytes();
    vstd::bytes::lemma_auto_spec_u64_to_from_le_bytes();
    if n > 0 {
        lemma_records_bytes_len(records, n - 1);
    }
}

} // verus!
