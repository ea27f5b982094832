use teensy4_selfrebootor::hid_descriptor::{
    decode_report_descriptor, Rebootor, ReportLayout, REPORT_DESCRIPTOR, REPORT_LEN,
};

fn empty_layout() -> ReportLayout {
    ReportLayout {
        application_collections: 0,
        usage_page: 0,
        usage: 0,
        input_bits: 0,
        output_bits: 0,
        feature_bits: 0,
        report_ids: false,
    }
}

#[test]
fn descriptor_bytes_are_stable() {
    assert_eq!(
        Rebootor::desc(),
        &[
            0x06, 0x00, 0xFF, 0x0A, 0x00, 0x01, 0xA1, 0x01, 0x09, 0x02, 0x15, 0x00, 0x26, 0xFF,
            0x00, 0x75, 0x08, 0x95, 0x06, 0x91, 0x02, 0xC0
        ][..]
    );
    assert_eq!(Rebootor::desc(), &REPORT_DESCRIPTOR[..]);
}

#[test]
fn descriptor_declares_one_six_byte_output_report() {
    let layout = decode_report_descriptor(Rebootor::desc()).unwrap();
    assert_eq!(
        layout,
        ReportLayout {
            application_collections: 1,
            usage_page: 0xFF00,
            usage: 0x0100,
            input_bits: 0,
            output_bits: 48,
            feature_bits: 0,
            report_ids: false,
        }
    );
    assert_eq!(layout.output_bits, 8 * REPORT_LEN as u64);
    let report = Rebootor { output_buffer: [0; REPORT_LEN] };
    assert_eq!(report.output_buffer.len() as u64 * 8, layout.output_bits);
}

#[test]
fn empty_descriptor_declares_nothing() {
    assert_eq!(decode_report_descriptor(&[]), Some(empty_layout()));
}

#[test]
fn truncated_item_is_refused() {
    assert_eq!(decode_report_descriptor(&[0x06, 0x00]), None);
    assert_eq!(decode_report_descriptor(&[0x07, 0x00, 0x00, 0x00]), None);
}

#[test]
fn unbalanced_collections_are_refused() {
    assert_eq!(decode_report_descriptor(&[0xC0]), None);
    assert_eq!(decode_report_descriptor(&[0xA1, 0x01]), None);
}

#[test]
fn long_item_and_reserved_items_are_refused() {
    assert_eq!(decode_report_descriptor(&[0xFE, 0x00, 0x00]), None);
    assert_eq!(decode_report_descriptor(&[0x0C]), None);
    // Push
    assert_eq!(decode_report_descriptor(&[0xA4]), None);
    // reserved main tag
    assert_eq!(decode_report_descriptor(&[0x01, 0x00]), None);
}

#[test]
fn input_feature_and_report_id_are_counted() {
    let desc = [
        0x05, 0x01, // Usage Page (Generic Desktop)
        0x09, 0x06, // Usage (Keyboard)
        0xA1, 0x01, // Collection (Application)
        0x85, 0x02, //   Report ID (2)
        0x75, 0x01, //   Report Size (1)
        0x95, 0x08, //   Report Count (8)
        0x81, 0x02, //   Input
        0xA1, 0x00, //   Collection (Physical)
        0x77, 0x10, 0x00, 0x00, 0x00, //   Report Size (16), four data bytes
        0x95, 0x03, //   Report Count (3)
        0xB1, 0x02, //   Feature
        0xC0, //   End Collection
        0xC0, // End Collection
        0x06, 0x00, 0xFF, // Usage Page (0xFF00)
        0x09, 0x01, // Usage (1)
        0xA1, 0x01, // Collection (Application)
        0x91, 0x02, //   Output
        0xC0, // End Collection
    ];
    assert_eq!(
        decode_report_descriptor(&desc),
        Some(ReportLayout {
            application_collections: 2,
            usage_page: 0xFF00,
            usage: 1,
            input_bits: 8,
            output_bits: 48,
            feature_bits: 48,
            report_ids: true,
        })
    );
}

#[test]
fn usage_is_local_to_one_main_item() {
    // Usage (5), Input, Collection (Application), End Collection
    let desc = [0x09, 0x05, 0x81, 0x02, 0xA1, 0x01, 0xC0];
    let layout = decode_report_descriptor(&desc).unwrap();
    assert_eq!(layout.application_collections, 1);
    assert_eq!(layout.usage, 0);
}

#[test]
fn large_report_totals_are_refused() {
    // Report Size and Report Count of 0xFFFFFFFF, then Output twice.
    let desc = [
        0x77, 0xFF, 0xFF, 0xFF, 0xFF, 0x97, 0xFF, 0xFF, 0xFF, 0xFF, 0x91, 0x02, 0x91, 0x02,
    ];
    assert_eq!(decode_report_descriptor(&desc[..12]).unwrap().output_bits, 0xFFFF_FFFE_0000_0001);
    assert_eq!(decode_report_descriptor(&desc), None);
}
