use spdx_guide::model::{SpdxDocument, SpdxSection};

#[test]
fn find_returns_both_values_in_call_order() {
    let mut s = SpdxSection::new();
    s.add_entry("Creator", "Person: A");
    s.add_comment("between");
    s.add_entry("PackageName", "demo");
    s.add_entry("Creator", "Person: B");
    assert_eq!(s.find("Creator"), vec!["Person: A", "Person: B"]);
    assert_eq!(s.find("PackageName"), vec!["demo"]);
    assert!(s.find("Missing").is_empty());
}

#[test]
fn section_renders_lines_in_order() {
    let mut s = SpdxSection::new();
    s.add_entry("SPDXVersion", "SPDX-2.3");
    s.add_comment("a note");
    s.add_empty();
    s.add_entry("DataLicense", "CC0-1.0");
    assert_eq!(s.to_string(), "SPDXVersion: SPDX-2.3\n# a note\n\nDataLicense: CC0-1.0\n");
}

#[test]
fn document_renders_both_sections_with_headers() {
    let mut d = SpdxDocument::new();
    d.document_section.add_entry("DocumentName", "demo");
    d.package_section.add_comment("Edit me");
    d.package_section.add_entry("PackageName", "demo");
    let expected = "##### Document Information\nDocumentName: demo\n\n\n##### Package Information\n# Edit me\nPackageName: demo\n";
    assert_eq!(d.to_string(), expected);
    assert_eq!(d.to_string(), expected);
}

#[test]
fn empty_document_renders_headers_only() {
    let d = SpdxDocument::default();
    assert_eq!(d.to_string(), "##### Document Information\n\n\n##### Package Information\n");
}
