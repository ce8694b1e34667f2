use pdfpress::paths::{default_destination, file_name_part, stem_of_name};

#[test]
fn derived_destination_keeps_directory_and_stem() {
    assert_eq!(default_destination("/docs/report.pdf"), "/docs/report_pressed.pdf");
}

#[test]
fn derived_destination_bare_file_name() {
    assert_eq!(default_destination("report.pdf"), "report_pressed.pdf");
}

#[test]
fn derived_destination_without_extension() {
    assert_eq!(default_destination("/tmp/scan"), "/tmp/scan_pressed.pdf");
}

#[test]
fn derived_destination_strips_last_extension_only() {
    assert_eq!(default_destination("bundle.tar.gz"), "bundle.tar_pressed.pdf");
}

#[test]
fn derived_destination_keeps_hidden_file_name_whole() {
    assert_eq!(default_destination("/home/u/.notes"), "/home/u/.notes_pressed.pdf");
}

#[test]
fn derived_destination_falls_back_on_trailing_separator() {
    assert_eq!(default_destination("/docs/"), "/docs/pdfpress_pressed.pdf");
}

#[test]
fn derived_destination_falls_back_on_empty_path() {
    assert_eq!(default_destination(""), "pdfpress_pressed.pdf");
}

#[test]
fn derived_destination_falls_back_on_dot_names() {
    assert_eq!(default_destination("."), "pdfpress_pressed.pdf");
    assert_eq!(default_destination("/a/.."), "/a/pdfpress_pressed.pdf");
}

#[test]
fn file_name_part_takes_final_component() {
    assert_eq!(file_name_part("/a/b/c.pdf"), "c.pdf");
    assert_eq!(file_name_part("c.pdf"), "c.pdf");
    assert_eq!(file_name_part("/a/b/"), "");
}

#[test]
fn stem_of_name_cases() {
    assert_eq!(stem_of_name("report.pdf"), Some("report".to_string()));
    assert_eq!(stem_of_name("report"), Some("report".to_string()));
    assert_eq!(stem_of_name(".bashrc"), Some(".bashrc".to_string()));
    assert_eq!(stem_of_name("a.b.c"), Some("a.b".to_string()));
    assert_eq!(stem_of_name(""), None);
    assert_eq!(stem_of_name("."), None);
    assert_eq!(stem_of_name(".."), None);
}
