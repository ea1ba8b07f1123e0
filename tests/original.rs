use std::path::Path;

/// File that may never exist
const NONEXISTENT_FILE: &str = "test_data/notafile";

#[test]
fn non_existant_file() {
    assert!(!Path::new(NONEXISTENT_FILE).exists());
}
