//! Tests for the report descriptor and its grammar parser.

use custom_hid::descriptor::{parse_descriptor, ReportDecl, CUSTOM_HID_REPORT_DESCRIPTOR};

const VENDOR_PAGE: u32 = 0xff00;

#[test]
fn shipped_descriptor_has_declared_shape() {
    let shape = parse_descriptor(&CUSTOM_HID_REPORT_DESCRIPTOR).unwrap();
    assert_eq!(shape.app_collections, 1);
    assert_eq!(
        shape.inputs,
        vec![ReportDecl { usage_page: VENDOR_PAGE, report_size: 8, report_count: 4 }]
    );
    assert_eq!(
        shape.outputs,
        vec![ReportDecl { usage_page: VENDOR_PAGE, report_size: 8, report_count: 4 }]
    );
}

#[test]
fn shipped_descriptor_reports_are_4_bytes() {
    let shape = parse_descriptor(&CUSTOM_HID_REPORT_DESCRIPTOR).unwrap();
    for decl in shape.inputs.iter().chain(shape.outputs.iter()) {
        assert_eq!(decl.report_size * decl.report_count, 32);
    }
}

#[test]
fn empty_descriptor_is_an_empty_shape() {
    let shape = parse_descriptor(&[]).unwrap();
    assert_eq!(shape.app_collections, 0);
    assert!(shape.inputs.is_empty());
    assert!(shape.outputs.is_empty());
}

#[test]
fn long_item_prefix_is_rejected() {
    assert!(parse_descriptor(&[0xfe, 0x03, 0x00, 0x01, 0x02, 0x03]).is_none());
}

#[test]
fn truncated_item_data_is_rejected() {
    // USAGE_PAGE announces two data bytes but only one follows.
    assert!(parse_descriptor(&[0x06, 0x00]).is_none());
}

#[test]
fn unbalanced_collection_is_rejected() {
    // COLLECTION (Application) without END_COLLECTION.
    assert!(parse_descriptor(&[0xa1, 0x01]).is_none());
    // END_COLLECTION with no collection open.
    assert!(parse_descriptor(&[0xc0]).is_none());
}

#[test]
fn non_application_collections_are_not_counted() {
    // COLLECTION (Physical), END_COLLECTION.
    let shape = parse_descriptor(&[0xa1, 0x00, 0xc0]).unwrap();
    assert_eq!(shape.app_collections, 0);
}

#[test]
fn globals_apply_to_following_main_items() {
    // Usage page 0x12, size 16, count 2, then an input inside a collection.
    let bytes = [
        0x06, 0x12, 0x00, // USAGE_PAGE (0x0012)
        0xa1, 0x01, // COLLECTION (Application)
        0x75, 0x10, // REPORT_SIZE (16)
        0x95, 0x02, // REPORT_COUNT (2)
        0x81, 0x02, // INPUT
        0xc0, // END_COLLECTION
    ];
    let shape = parse_descriptor(&bytes).unwrap();
    assert_eq!(shape.app_collections, 1);
    assert_eq!(
        shape.inputs,
        vec![ReportDecl { usage_page: 0x12, report_size: 16, report_count: 2 }]
    );
    assert!(shape.outputs.is_empty());
}
