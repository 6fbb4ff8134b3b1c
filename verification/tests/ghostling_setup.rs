use libghostty_vt::ghostling::setup::{
    device_attributes, size_report, terminal_options, IMAGE_STORAGE_LIMIT, SCROLLBACK_LINES,
};
use libghostty_vt::terminal::{DeviceType, Options, SizeReportSize, TertiaryDeviceAttributes};

#[test]
fn the_emulator_is_a_vt220() {
    let attributes = device_attributes();
    assert_eq!(attributes.primary.conformance_level, 62);
    assert_eq!(attributes.primary.num_features, 3);
    assert_eq!(&attributes.primary.features[..4], &[1, 6, 22, 0]);
    assert_eq!(attributes.secondary.device_type, DeviceType(1));
    assert_eq!(attributes.secondary.firmware_version, 1);
    assert_eq!(attributes.secondary.rom_cartridge, 0);
    assert_eq!(attributes.tertiary, TertiaryDeviceAttributes { unit_id: 0 });
}

#[test]
fn sizes_are_reported() {
    assert_eq!(
        size_report(80, 24, 8, 16),
        SizeReportSize { rows: 24, columns: 80, cell_width: 8, cell_height: 16 }
    );
}

#[test]
fn the_terminal_has_scrollback_and_images() {
    assert_eq!(
        terminal_options(80, 24),
        Options { cols: 80, rows: 24, max_scrollback: 1000 }
    );
    assert_eq!(SCROLLBACK_LINES, 1000);
    assert_eq!(IMAGE_STORAGE_LIMIT, 64 * 1024 * 1024);
}
