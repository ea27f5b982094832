//! The HID report descriptor of the rebootor interface, and a decoder for
//! HID report descriptors built from short items.
use vstd::prelude::*;

verus! {

/// Length in bytes of the one output report that the interface declares.
pub const REPORT_LEN: usize = 6;

/// One application collection on the vendor-defined usage page 0xFF00
/// (usage 0x0100), holding usage 0x02: an output report of six 8-bit fields
/// with logical range 0..=255.
pub const REPORT_DESCRIPTOR: [u8; 22] = [
    0x06, 0x00, 0xFF, // Usage Page (0xFF00)
    0x0A, 0x00, 0x01, // Usage (0x0100)
    0xA1, 0x01, // Collection (Application)
    0x09, 0x02, //   Usage (0x02)
    0x15, 0x00, //   Logical Minimum (0)
    0x26, 0xFF, 0x00, //   Logical Maximum (255)
    0x75, 0x08, //   Report Size (8)
    0x95, 0x06, //   Report Count (6)
    0x91, 0x02, //   Output (Data, Variable, Absolute)
    0xC0, // End Collection
];

/// The output report of the rebootor interface.
pub struct Rebootor {
    pub output_buffer: [u8; REPORT_LEN],
}

impl Rebootor {
    /// The report descriptor that the HID class hands to the host.
    pub fn desc() -> (r: &'static [u8])
        ensures
            r@ == REPORT_DESCRIPTOR@,
    {
        &REPORT_DESCRIPTOR
    }
}

/// What a report descriptor declares, as far as this decoder tracks it.
#[derive(Clone, Copy, Debug, PartialEq, Eq, Structural)]
pub struct ReportLayout {
    /// Number of application collections at the top level.
    pub application_collections: u32,
    /// Usage page in effect at the last top-level application collection.
    pub usage_page: u32,
    /// Usage of the last top-level application collection.
    pub usage: u32,
    /// Bits of all Input items (report size times report count, summed).
    pub input_bits: u64,
    /// Bits of all Output items.
    pub output_bits: u64,
    /// Bits of all Feature items.
    pub feature_bits: u64,
    /// Whether a Report ID item occurs.
    pub report_ids: bool,
}

/// Parser state between two items: the global and local items that matter
/// here, the collection nesting depth, and the layout found so far.
#[derive(Clone, Copy, Debug, PartialEq, Eq, Structural)]
pub struct DecodeState {
    pub usage_page: u32,
    pub usage: u32,
    pub report_size: u32,
    pub report_count: u32,
    pub depth: u32,
    pub layout: ReportLayout,
}

pub open spec fn initial_state() -> DecodeState {
    DecodeState {
        usage_page: 0,
        usage: 0,
        report_size: 0,
        report_count: 0,
        depth: 0,
        layout: ReportLayout {
            application_collections: 0,
            usage_page: 0,
            usage: 0,
            input_bits: 0,
            output_bits: 0,
            feature_bits: 0,
            report_ids: false,
        },
    }
}

/// Number of data bytes after a short item's prefix byte.
pub open spec fn item_data_len(prefix: u8) -> nat {
    if prefix % 4 == 3 {
        4
    } else {
        (prefix % 4) as nat
    }
}

/// The little-endian unsigned value of `len` bytes of `b` from `start`.
pub open spec fn item_data(b: Seq<u8>, start: int, len: nat) -> int {
    if len == 0 {
        0
    } else if len == 1 {
        b[start] as int
    } else if len == 2 {
        b[start] + 256 * b[start + 1]
    } else {
        b[start] + 256 * b[start + 1] + 65536 * b[start + 2] + 16777216 * b[start + 3]
    }
}

/// Adds `bits` to the Input (tag 8), Output (tag 9) or Feature (tag 11)
/// total; `None` where the total leaves `u64`.
pub open spec fn add_report_bits(l: ReportLayout, tag: u8, bits: int) -> Option<ReportLayout> {
    let old_total: int = if tag == 8 {
        l.input_bits as int
    } else if tag == 9 {
        l.output_bits as int
    } else {
        l.feature_bits as int
    };
    let total = old_total + bits;
    if total > u64::MAX {
        None
    } else if tag == 8 {
        Some(ReportLayout { input_bits: total as u64, ..l })
    } else if tag == 9 {
        Some(ReportLayout { output_bits: total as u64, ..l })
    } else {
        Some(ReportLayout { feature_bits: total as u64, ..l })
    }
}

/// The effect of one main item; local items are cleared after it.
pub open spec fn main_item(st: DecodeState, tag: u8, data: u32) -> Option<DecodeState> {
    let cleared = DecodeState { usage: 0, ..st };
    if tag == 8 || tag == 9 || tag == 11 {
        match add_report_bits(st.layout, tag, st.report_size * st.report_count) {
            Some(l) => Some(DecodeState { layout: l, ..cleared }),
            None => None,
        }
    } else if tag == 10 {
        if st.depth == u32::MAX {
            None
        } else if st.depth == 0 && data == 1 {
            if st.layout.application_collections == u32::MAX {
                None
            } else {
                let layout = ReportLayout {
                    application_collections: (st.layout.application_collections + 1) as u32,
                    usage_page: st.usage_page,
                    usage: st.usage,
                    ..st.layout
                };
                Some(DecodeState { depth: (st.depth + 1) as u32, layout: layout, ..cleared })
            }
        } else {
            Some(DecodeState { depth: (st.depth + 1) as u32, ..cleared })
        }
    } else if tag == 12 {
        if st.depth == 0 {
            None
        } else {
            Some(DecodeState { depth: (st.depth - 1) as u32, ..cleared })
        }
    } else {
        None
    }
}

/// The effect of one short item with prefix byte `prefix` and data `data`.
/// Reserved item types and tags, long items and Push/Pop are refused.
pub open spec fn item_step(st: DecodeState, prefix: u8, data: u32) -> Option<DecodeState> {
    let typ = (prefix / 4) % 4;
    let tag = prefix / 16;
    if typ == 0 {
        main_item(st, tag, data)
    } else if typ == 1 {
        if tag == 0 {
            Some(DecodeState { usage_page: data, ..st })
        } else if tag == 7 {
            Some(DecodeState { report_size: data, ..st })
        } else if tag == 8 {
            Some(
                DecodeState { layout: ReportLayout { report_ids: true, ..st.layout }, ..st },
            )
        } else if tag == 9 {
            Some(DecodeState { report_count: data, ..st })
        } else if tag >= 10 {
            None
        } else {
            Some(st)
        }
    } else if typ == 2 {
        if tag == 0 {
            Some(DecodeState { usage: data, ..st })
        } else {
            Some(st)
        }
    } else {
        None
    }
}

/// Decodes the items of `b` from byte `pos` on, starting in state `st`; the
/// final state, where every item is well formed and every collection closed.
pub open spec fn decode_from(b: Seq<u8>, pos: nat, st: DecodeState) -> Option<DecodeState>
    decreases b.len() - pos,
{
    if pos >= b.len() {
        if st.depth == 0 {
            Some(st)
        } else {
            None
        }
    } else {
        let prefix = b[pos as int];
        let len = item_data_len(prefix);
        if pos + 1 + len > b.len() {
            None
        } else {
            match item_step(st, prefix, item_data(b, pos + 1 as int, len) as u32) {
                Some(next) => decode_from(b, pos + 1 + len, next),
                None => None,
            }
        }
    }
}

/// The layout that the report descriptor `b` declares, or `None` where `b`
/// is not a well-formed descriptor of short items.
pub open spec fn decode(b: Seq<u8>) -> Option<ReportLayout> {
    match decode_from(b, 0, initial_state()) {
        Some(st) => Some(st.layout),
        None => None,
    }
}

fn data_len(prefix: u8) -> (r: usize)
    ensures
        r == item_data_len(prefix),
{
    if prefix % 4 == 3 {
        4
    } else {
        (prefix % 4) as usize
    }
}

fn read_data(b: &[u8], start: usize, len: usize) -> (r: u32)
    requires
        start + len <= b@.len(),
        len == 0 || len == 1 || len == 2 || len == 4,
    ensures
        r == item_data(b@, start as int, len as nat),
{
    if len == 0 {
        0
    } else if len == 1 {
        b[start] as u32
    } else if len == 2 {
        b[start] as u32 + 256 * b[start + 1] as u32
    } else {
        b[start] as u32 + 256 * b[start + 1] as u32 + 65536 * b[start + 2] as u32 + 16777216
            * b[start + 3] as u32
    }
}

fn apply_report_bits(l: ReportLayout, tag: u8, size: u32, count: u32) -> (r: Option<ReportLayout>)
    requires
        tag == 8 || tag == 9 || tag == 11,
    ensures
        r == add_report_bits(l, tag, size * count),
{
    assert(size as u64 * count as u64 <= u64::MAX) by (nonlinear_arith)
        requires
            size <= u32::MAX,
            count <= u32::MAX,
    ;
    let bits: u64 = size as u64 * count as u64;
    if tag == 8 {
        match l.input_bits.checked_add(bits) {
            Some(t) => Some(ReportLayout { input_bits: t, ..l }),
            None => None,
        }
    } else if tag == 9 {
        match l.output_bits.checked_add(bits) {
            Some(t) => Some(ReportLayout { output_bits: t, ..l }),
            None => None,
        }
    } else {
        match l.feature_bits.checked_add(bits) {
            Some(t) => Some(ReportLayout { feature_bits: t, ..l }),
            None => None,
        }
    }
}

fn apply_main_item(st: DecodeState, tag: u8, data: u32) -> (r: Option<DecodeState>)
    ensures
        r == main_item(st, tag, data),
{
    let cleared = DecodeState { usage: 0, ..st };
    if tag == 8 || tag == 9 || tag == 11 {
        match apply_report_bits(st.layout, tag, st.report_size, st.report_count) {
            Some(l) => Some(DecodeState { layout: l, ..cleared }),
            None => None,
        }
    } else if tag == 10 {
        if st.depth == u32::MAX {
            None
        } else if st.depth == 0 && data == 1 {
            if st.layout.application_collections == u32::MAX {
                None
            } else {
                let layout = ReportLayout {
                    application_collections: st.layout.application_collections + 1,
                    usage_page: st.usage_page,
                    usage: st.usage,
                    ..st.layout
                };
                Some(DecodeState { depth: st.depth + 1, layout: layout, ..cleared })
            }
        } else {
            Some(DecodeState { depth: st.depth + 1, ..cleared })
        }
    } else if tag == 12 {
        if st.depth == 0 {
            None
        } else {
            Some(DecodeState { depth: st.depth - 1, ..cleared })
        }
    } else {
        None
    }
}

fn apply_item(st: DecodeState, prefix: u8, data: u32) -> (r: Option<DecodeState>)
    ensures
        r == item_step(st, prefix, data),
{
    let typ = (prefix / 4) % 4;
    let tag = prefix / 16;
    if typ == 0 {
        apply_main_item(st, tag, data)
    } else if typ == 1 {
        if tag == 0 {
            Some(DecodeState { usage_page: data, ..st })
        } else if tag == 7 {
            Some(DecodeState { report_size: data, ..st })
        } else if tag == 8 {
            Some(DecodeState { layout: ReportLayout { report_ids: true, ..st.layout }, ..st })
        } else if tag == 9 {
            Some(DecodeState { report_count: data, ..st })
        } else if tag >= 10 {
            None
        } else {
            Some(st)
        }
    } else if typ == 2 {
        if tag == 0 {
            Some(DecodeState { usage: data, ..st })
        } else {
            Some(st)
        }
    } else {
        None
    }
}

/// Decodes a report descriptor of short items into the layout it declares.
///
/// Returns `None` for a truncated item, a long item, a reserved item type or
/// tag, Push or Pop, an End Collection without an open collection, a
/// collection left open, or a count that leaves its integer type.
pub fn decode_report_descriptor(desc: &[u8]) -> (r: Option<ReportLayout>)
    ensures
        r == decode(desc@),
{
    let mut st = DecodeState {
        usage_page: 0,
        usage: 0,
        report_size: 0,
        report_count: 0,
        depth: 0,
        layout: ReportLayout {
            application_collections: 0,
            usage_page: 0,
            usage: 0,
            input_bits: 0,
            output_bits: 0,
            feature_bits: 0,
            report_ids: false,
        },
    };
    let mut pos: usize = 0;
    while pos < desc.len()
        invariant
            pos <= desc@.len(),
            decode_from(desc@, pos as nat, st) == decode_from(desc@, 0, initial_state()),
        decreases desc@.len() - pos,
    {
        let prefix = desc[pos];
        let len = data_len(prefix);
        if len > desc.len() - pos - 1 {
            return None;
        }
        let data = read_data(desc, pos + 1, len);
        match apply_item(st, prefix, data) {
            Some(next) => {
                st = next;
            },
            None => {
                return None;
            },
        }
        pos = pos + 1 + len;
    }
    if st.depth == 0 {
        Some(st.layout)
    } else {
        None
    }
}

/// Decoding the report descriptor gives exactly one top-level application
/// collection on the vendor-defined page 0xFF00, no report IDs, no Input or
/// Feature data, and Output data of exactly `REPORT_LEN` bytes: the size of
/// the buffer that output reports are read into.
pub proof fn lemma_report_descriptor_layout()
    ensures
        decode(REPORT_DESCRIPTOR@) == Some(
            ReportLayout {
                application_collections: 1,
                usage_page: 0xFF00,
                usage: 0x0100,
                input_bits: 0,
                output_bits: (8 * REPORT_LEN) as u64,
                feature_bits: 0,
                report_ids: false,
            },
        ),
{
    reveal_with_fuel(decode_from, 12);
}

} // verus!
