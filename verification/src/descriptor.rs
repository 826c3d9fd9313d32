//! The vendor-defined HID report descriptor and a parser for its grammar.
//!
//! The descriptor is a static byte sequence declaring, to a generic HID host
//! stack, one application collection with two 4-byte data reports: an input
//! report (device -> host) and an output report (host -> device), both on a
//! vendor-defined usage page. Its correctness requirement is strict
//! conformance to the HID short-item grammar, so [`parse_descriptor`] walks
//! that grammar — item prefix, data size, global state, collection nesting —
//! and yields the shape a conformant host parser would see.

use vstd::prelude::*;

verus! {

/// The report descriptor announced to the host.
///
/// Usage page 0xFF00 (vendor defined), usage 1, one application collection
/// holding a 4-byte input report and a 4-byte output report (8-bit fields,
/// count 4, logical range 0-255, data/variable/absolute).
pub const CUSTOM_HID_REPORT_DESCRIPTOR: [u8; 34] = [
    0x06,
    0x00,
    0xff,  // USAGE_PAGE (Vendor Defined Page 1)
    0x09,
    0x01,  // USAGE (Vendor Usage 1)
    0xa1,
    0x01,  // COLLECTION (Application)
    0x15,
    0x00,  //   LOGICAL_MINIMUM (0)
    0x26,
    0xff,
    0x00,  //   LOGICAL_MAXIMUM (255)
    0x75,
    0x08,  //   REPORT_SIZE (8)
    0x95,
    0x04,  //   REPORT_COUNT (4)
    0x09,
    0x01,  //   USAGE (Vendor Usage 1)
    0x81,
    0x02,  //   INPUT (Data,Var,Abs)
    0x15,
    0x00,  //   LOGICAL_MINIMUM (0)
    0x26,
    0xff,
    0x00,  //   LOGICAL_MAXIMUM (255)
    0x75,
    0x08,  //   REPORT_SIZE (8)
    0x95,
    0x04,  //   REPORT_COUNT (4)
    0x09,
    0x01,  //   USAGE (Vendor Usage 1)
    0x91,
    0x02,  //   OUTPUT (Data,Var,Abs)
    0xc0,  // END_COLLECTION
];

/// One input or output report as a main item declares it: the usage page in
/// force and the field size (bits) and count of the report.
#[derive(Clone, Copy, Debug, PartialEq, Eq, Structural)]
pub struct ReportDecl {
    pub usage_page: u32,
    pub report_size: u32,
    pub report_count: u32,
}

/// The global item state a descriptor walk carries between items.
#[derive(Clone, Copy, Debug, PartialEq, Eq, Structural)]
pub struct ItemGlobals {
    pub usage_page: u32,
    pub report_size: u32,
    pub report_count: u32,
}

/// Data length of a short item, from the low two bits of its prefix byte:
/// codes 0, 1 and 2 mean that many bytes, code 3 means 4 bytes.
pub open spec fn spec_item_size(prefix: u8) -> int {
    if (prefix & 0x03) == 3 {
        4
    } else {
        (prefix & 0x03) as int
    }
}

/// The data value of a short item: up to 4 bytes at `pos`, little-endian,
/// zero when the item carries no data.
pub open spec fn spec_item_data(b: Seq<u8>, pos: int, size: int) -> u32 {
    if size == 0 {
        0
    } else if size == 1 {
        b[pos] as u32
    } else if size == 2 {
        (b[pos] as u32) | ((b[pos + 1] as u32) << 8)
    } else {
        (b[pos] as u32) | ((b[pos + 1] as u32) << 8) | ((b[pos + 2] as u32) << 16) | ((b[pos
            + 3] as u32) << 24)
    }
}

/// Walks the short items of `b` from offset `i` with global state `g`,
/// `depth` open collections, and the application collections, input reports
/// and output reports met so far. Yields the completed counts, or `None`
/// where the bytes leave the grammar: a long-item prefix, an item whose data
/// runs past the end, an end-collection with none open, or a collection left
/// open at the end.
pub open spec fn spec_scan(
    b: Seq<u8>,
    i: int,
    g: ItemGlobals,
    depth: int,
    app_cols: int,
    inputs: Seq<ReportDecl>,
    outputs: Seq<ReportDecl>,
) -> Option<(int, Seq<ReportDecl>, Seq<ReportDecl>)>
    decreases b.len() - i,
{
    if i >= b.len() {
        if depth == 0 {
            Some((app_cols, inputs, outputs))
        } else {
            None
        }
    } else {
        let prefix = b[i];
        if prefix == 0xfe {
            None
        } else {
            let size = spec_item_size(prefix);
            if i + 1 + size > b.len() {
                None
            } else {
                let data = spec_item_data(b, i + 1, size);
                let next = i + 1 + size;
                let tag = prefix >> 4;
                let typ = (prefix >> 2) & 0x03;
                if typ == 0 && tag == 8 {
                    spec_scan(
                        b,
                        next,
                        g,
                        depth,
                        app_cols,
                        inputs.push(
                            ReportDecl {
                                usage_page: g.usage_page,
                                report_size: g.report_size,
                                report_count: g.report_count,
                            },
                        ),
                        outputs,
                    )
                } else if typ == 0 && tag == 9 {
                    spec_scan(
                        b,
                        next,
                        g,
                        depth,
                        app_cols,
                        inputs,
                        outputs.push(
                            ReportDecl {
                                usage_page: g.usage_page,
                                report_size: g.report_size,
                                report_count: g.report_count,
                            },
                        ),
                    )
                } else if typ == 0 && tag == 10 {
                    spec_scan(
                        b,
                        next,
                        g,
                        depth + 1,
                        if data == 1 {
                            app_cols + 1
                        } else {
                            app_cols
                        },
                        inputs,
                        outputs,
                    )
                } else if typ == 0 && tag == 12 {
                    if depth == 0 {
                        None
                    } else {
                        spec_scan(b, next, g, depth - 1, app_cols, inputs, outputs)
                    }
                } else if typ == 1 && tag == 0 {
                    spec_scan(
                        b,
                        next,
                        ItemGlobals {
                            usage_page: data,
                            report_size: g.report_size,
                            report_count: g.report_count,
                        },
                        depth,
                        app_cols,
                        inputs,
                        outputs,
                    )
                } else if typ == 1 && tag == 7 {
                    spec_scan(
                        b,
                        next,
                        ItemGlobals {
                            usage_page: g.usage_page,
                            report_size: data,
                            report_count: g.report_count,
                        },
                        depth,
                        app_cols,
                        inputs,
                        outputs,
                    )
                } else if typ == 1 && tag == 9 {
                    spec_scan(
                        b,
                        next,
                        ItemGlobals {
                            usage_page: g.usage_page,
                            report_size: g.report_size,
                            report_count: data,
                        },
                        depth,
                        app_cols,
                        inputs,
                        outputs,
                    )
                } else {
                    spec_scan(b, next, g, depth, app_cols, inputs, outputs)
                }
            }
        }
    }
}

/// The shape of a whole report descriptor: its application collection count
/// and its declared input and output reports, or `None` where the bytes do
/// not follow the short-item grammar.
pub open spec fn spec_parse_descriptor(b: Seq<u8>) -> Option<
    (int, Seq<ReportDecl>, Seq<ReportDecl>),
> {
    spec_scan(
        b,
        0,
        ItemGlobals { usage_page: 0, report_size: 0, report_count: 0 },
        0,
        0,
        Seq::empty(),
        Seq::empty(),
    )
}

/// What a conformant host parser sees in a report descriptor.
pub struct DescriptorShape {
    pub app_collections: usize,
    pub inputs: Vec<ReportDecl>,
    pub outputs: Vec<ReportDecl>,
}

/// Parses a report descriptor along the HID short-item grammar and returns
/// its shape, or `None` for bytes outside the grammar.
pub fn parse_descriptor(bytes: &[u8]) -> (r: Option<DescriptorShape>)
    ensures
        match r {
            Some(shape) => spec_parse_descriptor(bytes@) == Some(
                (shape.app_collections as int, shape.inputs@, shape.outputs@),
            ),
            None => spec_parse_descriptor(bytes@) is None,
        },
{
    let mut i: usize = 0;
    let mut g = ItemGlobals { usage_page: 0, report_size: 0, report_count: 0 };
    let mut depth: usize = 0;
    let mut app_cols: usize = 0;
    let mut inputs: Vec<ReportDecl> = Vec::new();
    let mut outputs: Vec<ReportDecl> = Vec::new();
    while i < bytes.len()
        invariant
            i <= bytes@.len(),
            depth <= i,
            app_cols <= i,
            spec_parse_descriptor(bytes@) == spec_scan(
                bytes@,
                i as int,
                g,
                depth as int,
                app_cols as int,
                inputs@,
                outputs@,
            ),
        decreases bytes@.len() - i,
    {
        let prefix: u8 = bytes[i];
        if prefix == 0xfe {
            return None;
        }
        let size_code: u8 = prefix & 0x03;
        let size: usize = if size_code == 3 {
            4
        } else {
            size_code as usize
        };
        assert(size as int == spec_item_size(prefix));
        if bytes.len() - i < 1 + size {
            assert(i + 1 + size > bytes@.len());
            return None;
        }
        let data: u32 = if size == 0 {
            0
        } else if size == 1 {
            bytes[i + 1] as u32
        } else if size == 2 {
            (bytes[i + 1] as u32) | ((bytes[i + 2] as u32) << 8)
        } else {
            (bytes[i + 1] as u32) | ((bytes[i + 2] as u32) << 8) | ((bytes[i + 3] as u32) << 16) | (
            (bytes[i + 4] as u32) << 24)
        };
        assert(data == spec_item_data(bytes@, i + 1, size as int));
        let tag: u8 = prefix >> 4;
        let typ: u8 = (prefix >> 2) & 0x03;
        if typ == 0 && tag == 8 {
            inputs.push(
                ReportDecl {
                    usage_page: g.usage_page,
                    report_size: g.report_size,
                    report_count: g.report_count,
                },
            );
        } else if typ == 0 && tag == 9 {
            outputs.push(
                ReportDecl {
                    usage_page: g.usage_page,
                    report_size: g.report_size,
                    report_count: g.report_count,
                },
            );
        } else if typ == 0 && tag == 10 {
            depth = depth + 1;
            if data == 1 {
                app_cols = app_cols + 1;
            }
        } else if typ == 0 && tag == 12 {
            if depth == 0 {
                return None;
            }
            depth = depth - 1;
        } else if typ == 1 && tag == 0 {
            g =
            ItemGlobals {
                usage_page: data,
                report_size: g.report_size,
                report_count: g.report_count,
            };
        } else if typ == 1 && tag == 7 {
            g =
            ItemGlobals {
                usage_page: g.usage_page,
                report_size: data,
                report_count: g.report_count,
            };
        } else if typ == 1 && tag == 9 {
            g =
            ItemGlobals {
                usage_page: g.usage_page,
                report_size: g.report_size,
                report_count: data,
            };
        }
        i = i + 1 + size;
    }
    if depth == 0 {
        Some(DescriptorShape { app_collections: app_cols, inputs, outputs })
    } else {
        None
    }
}

/// The shipped descriptor conforms to the short-item grammar, and its shape
/// is exactly one application collection declaring one input report and one
/// output report of four 8-bit fields each, both on the vendor-defined usage
/// page 0xFF00.
#[verifier::rlimit(100)]
pub proof fn lemma_descriptor_shape()
    ensures
        spec_parse_descriptor(CUSTOM_HID_REPORT_DESCRIPTOR@) matches Some(shape) && shape.0 == 1
            && shape.1 =~= seq![
            ReportDecl { usage_page: 0xff00, report_size: 8, report_count: 4 },
        ] && shape.2 =~= seq![ReportDecl { usage_page: 0xff00, report_size: 8, report_count: 4 }],
{
    assert(0x06u8 & 0x03 == 2 && 0x06u8 >> 4 == 0 && (0x06u8 >> 2) & 0x03 == 1 && 0x09u8 & 0x03
        == 1 && 0x09u8 >> 4 == 0 && (0x09u8 >> 2) & 0x03 == 2 && 0xa1u8 & 0x03 == 1 && 0xa1u8 >> 4
        == 10 && (0xa1u8 >> 2) & 0x03 == 0 && 0x15u8 & 0x03 == 1 && 0x15u8 >> 4 == 1 && (0x15u8
        >> 2) & 0x03 == 1 && 0x26u8 & 0x03 == 2 && 0x26u8 >> 4 == 2 && (0x26u8 >> 2) & 0x03 == 1
        && 0x75u8 & 0x03 == 1 && 0x75u8 >> 4 == 7 && (0x75u8 >> 2) & 0x03 == 1 && 0x95u8 & 0x03
        == 1 && 0x95u8 >> 4 == 9 && (0x95u8 >> 2) & 0x03 == 1 && 0x81u8 & 0x03 == 1 && 0x81u8 >> 4
        == 8 && (0x81u8 >> 2) & 0x03 == 0 && 0x91u8 & 0x03 == 1 && 0x91u8 >> 4 == 9 && (0x91u8
        >> 2) & 0x03 == 0 && 0xc0u8 & 0x03 == 0 && 0xc0u8 >> 4 == 12 && (0xc0u8 >> 2) & 0x03 == 0)
        by (bit_vector);
    assert((0x00u32 | (0xffu32 << 8)) == 0xff00 && (0xffu32 | (0x00u32 << 8)) == 0xff)
        by (bit_vector);
    reveal_with_fuel(spec_scan, 18);
}

} // verus!

