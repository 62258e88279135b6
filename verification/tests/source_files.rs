use csci_courses::compile;
use csci_courses::compiler;

#[test]
fn full_extension_matches_kind() {
    assert_eq!(compile::SourceFile::Cpp(String::new()).full_extension(), ".cpp");
    assert_eq!(compile::SourceFile::CppHeader(String::new()).full_extension(), ".hpp");
    assert_eq!(compile::SourceFile::CHeader(String::new()).full_extension(), ".h");
    assert_eq!(compile::SourceFile::Php(String::new()).full_extension(), ".php");
}

#[test]
fn unwrap_ref_returns_the_text() {
    let unit = compile::SourceFile::Cpp("int main() {}".to_string());
    assert_eq!(unit.unwrap_ref(), "int main() {}");
    let unit = compile::SourceFile::Php("<?php echo 1;".to_string());
    assert_eq!(unit.unwrap_ref(), "<?php echo 1;");
}

#[test]
fn extension_matches_kind() {
    let data = || compiler::FileData::new("a".to_string(), "b".to_string());
    assert_eq!(compiler::SourceFile::C(data()).extension(), ".c");
    assert_eq!(compiler::SourceFile::Cpp(data()).extension(), ".cpp");
    assert_eq!(compiler::SourceFile::CHeader(data()).extension(), ".h");
    assert_eq!(compiler::SourceFile::CppHeader(data()).extension(), ".hpp");
}

#[test]
fn unwrap_returns_the_file_data() {
    let data = compiler::FileData::new("main".to_string(), "int main() {}".to_string());
    let unit = compiler::SourceFile::Cpp(data);
    let out = unit.unwrap();
    assert_eq!(out.name(), "main");
    assert_eq!(out.contents(), "int main() {}");
}

#[test]
fn file_data_new_and_add_extension() {
    let data = compiler::FileData::new("main".to_string(), "x".to_string());
    assert_eq!(data.name(), "main");
    assert_eq!(data.contents(), "x");
    let data = data.add_extension(".cpp");
    assert_eq!(data.name(), "main.cpp");
    assert_eq!(data.contents(), "x");
}
