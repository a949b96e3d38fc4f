//! Data-model builders and renderings.

use instance_directory::models::{
    Instance, InstancePage, Page, ScanNew, StatusPage, TablePage, TITLE,
};

#[test]
fn boolean_attributes_render_as_marks() {
    assert_eq!(Instance::format(true), "\u{2714}");
    assert_eq!(Instance::format(false), "\u{2718}");
}

#[test]
fn scan_rows_derive_their_percent() {
    let scan = ScanNew::new("mozilla_observatory", "B+", 7);
    assert_eq!(scan.scanner, "mozilla_observatory");
    assert_eq!(scan.rating, "B+");
    assert_eq!(scan.percent, 87);
    assert_eq!(scan.instance_id, 7);
}

#[test]
fn the_default_scan_is_the_sentinel() {
    let scan = ScanNew::default();
    assert_eq!(scan.scanner, "mozilla_observatory");
    assert_eq!(scan.rating, "-");
    assert_eq!(scan.percent, 0);
    assert_eq!(scan.instance_id, 0);
}

#[test]
fn pages_carry_the_directory_title() {
    let page = Page::new("Welcome!".to_string());
    assert_eq!(page.title, TITLE);
    assert_eq!(page.topic, "Welcome!");

    let status = StatusPage::new("Add instance".to_string(), Some("oops".to_string()), None);
    assert_eq!(status.title, TITLE);
    assert_eq!(status.error, "oops");
    assert_eq!(status.success, "");

    let table = TablePage::new("Welcome!".to_string(), Vec::new());
    assert_eq!(table.title, TITLE);
    assert_eq!(table.tables.len(), 0);

    let instance_page = InstancePage::new("Check".to_string(), None, None);
    assert_eq!(instance_page.title, TITLE);
    assert_eq!(instance_page.error, "");
    assert!(instance_page.instance.is_none());
    assert!(!instance_page.csp_recommendation.is_empty());
}
