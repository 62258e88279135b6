use csci_courses::compiler::{Compiler, CompilerError, FileData, SourceFile};

#[test]
fn compiler_plans_named_files_with_extensions() {
    let units = vec![
        SourceFile::Cpp(FileData::new("main".to_string(), "int main() {}".to_string())),
        SourceFile::CHeader(FileData::new("util".to_string(), "int f(void);".to_string())),
    ];
    let c = Compiler::new(units, "build-gcc").unwrap();
    let files = c.files();
    assert_eq!(files.len(), 2);
    assert_eq!(files[0].name(), "main.cpp");
    assert_eq!(files[0].contents(), "int main() {}");
    assert_eq!(files[1].name(), "util.h");
    assert_eq!(files[1].contents(), "int f(void);");
}

#[test]
fn compiler_rejects_an_empty_submission() {
    let r = Compiler::new(Vec::new(), "build-gcc");
    assert!(matches!(r, Err(CompilerError::EmptySourceFiles)));
}

#[test]
fn compiler_subpath_is_namespace_then_id() {
    let units = vec![SourceFile::C(FileData::new("main".to_string(), "x".to_string()))];
    let c = Compiler::new(units, "build-gcc").unwrap();
    assert_eq!(c.id().len(), 36);
    let expected = format!("output/{}", c.id());
    assert_eq!(c.workspace_subpath(), expected);
}

#[test]
fn cleanup_controls_the_rm_flag() {
    let units = vec![SourceFile::C(FileData::new("main".to_string(), "x".to_string()))];
    let c = Compiler::new(units, "build-gcc").unwrap();
    assert!(c.will_clean_up());
    let args = c.run_args("/tmp/output/abc");
    let expected = vec![
        "run".to_string(),
        "--name".to_string(),
        c.id().clone(),
        "-v".to_string(),
        "/tmp/output/abc:/output/code/:z".to_string(),
        "--pull".to_string(),
        "never".to_string(),
        "--quiet".to_string(),
        "--rm".to_string(),
        "build-gcc".to_string(),
    ];
    assert_eq!(args, expected);

    let c = c.cleanup(false);
    assert!(!c.will_clean_up());
    let args = c.run_args("/tmp/output/abc");
    assert!(!args.contains(&"--rm".to_string()));
    assert_eq!(args.len(), 9);
    assert_eq!(args[8], "build-gcc");
}

#[test]
fn error_status_codes_split_client_from_server() {
    assert_eq!(CompilerError::EmptySourceFiles.status_code(), 400);
    assert_eq!(CompilerError::DirectoryCreation.status_code(), 500);
    assert_eq!(CompilerError::Write.status_code(), 500);
    assert_eq!(CompilerError::SpawnError.status_code(), 500);
}

#[test]
fn error_messages_are_the_documented_texts() {
    assert_eq!(
        CompilerError::DirectoryCreation.message(),
        "Failed to create directory for compiler output"
    );
    assert_eq!(CompilerError::EmptySourceFiles.message(), "Source files are empty");
    assert_eq!(CompilerError::Write.message(), "Failed to write files to output_dir");
    assert_eq!(CompilerError::SpawnError.message(), "Failed to execute docker container");
    assert_eq!(
        csci_courses::container::Error::NoSourceFiles.message(),
        "Failed to find any source files"
    );
}
