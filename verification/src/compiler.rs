//! The file-data interface of the pipeline: named source files, the error
//! taxonomy, and the [`Compiler`] workspace plan built from them.

use crate::ident::fresh_id;
use vstd::prelude::*;
use vstd::string::StringExecFns;

verus! {

/// Errors of the build-and-execute pipeline. The first three arise while the
/// workspace is allocated and populated; the last one when the container
/// process itself cannot be started (as opposed to the container exiting
/// non-zero, which is a successfully captured result).
#[derive(Clone, Copy, Debug, PartialEq, Eq, Structural)]
pub enum CompilerError {
    DirectoryCreation,
    EmptySourceFiles,
    Write,
    SpawnError,
}

impl CompilerError {
    /// The HTTP status code under which this error is reported: an empty
    /// submission is the client's fault, everything else is the server's.
    pub open spec fn status_code_spec(&self) -> u16 {
        match self {
            CompilerError::EmptySourceFiles => 400,
            _ => 500,
        }
    }

    pub fn status_code(&self) -> (r: u16)
        ensures
            r == self.status_code_spec(),
    {
        match self {
            CompilerError::EmptySourceFiles => 400,
            _ => 500,
        }
    }

    /// The generic descriptive text for this error; raw internals are never
    /// exposed.
    pub open spec fn message_spec(&self) -> Seq<char> {
        match self {
            CompilerError::DirectoryCreation => "Failed to create directory for compiler output"@,
            CompilerError::EmptySourceFiles => "Source files are empty"@,
            CompilerError::Write => "Failed to write files to output_dir"@,
            CompilerError::SpawnError => "Failed to execute docker container"@,
        }
    }

    pub fn message(&self) -> (r: &'static str)
        ensures
            r@ == self.message_spec(),
    {
        match self {
            CompilerError::DirectoryCreation => "Failed to create directory for compiler output",
            CompilerError::EmptySourceFiles => "Source files are empty",
            CompilerError::Write => "Failed to write files to output_dir",
            CompilerError::SpawnError => "Failed to execute docker container",
        }
    }
}

/// The mathematical value of a planned workspace file: its name and contents.
#[verifier::ext_equal]
pub ghost struct FileDataView {
    pub name: Seq<char>,
    pub contents: Seq<char>,
}

/// One file to be materialized into a workspace: a name and its contents.
pub struct FileData {
    name: String,
    contents: String,
}

impl View for FileData {
    type V = FileDataView;

    closed spec fn view(&self) -> FileDataView {
        FileDataView { name: self.name@, contents: self.contents@ }
    }
}

impl FileData {
    pub fn new(name: String, contents: String) -> (r: Self)
        ensures
            r@ == (FileDataView { name: name@, contents: contents@ }),
    {
        Self { name, contents }
    }

    /// Appends an extension to the file's name, leaving the contents as they
    /// were.
    pub fn add_extension(self, ext: &str) -> (r: Self)
        ensures
            r@ == (FileDataView { name: self@.name + ext@, contents: self@.contents }),
    {
        let mut this = self;
        this.name.append(ext);
        this
    }

    pub fn name(&self) -> (r: &String)
        ensures
            r@ == self@.name,
    {
        &self.name
    }

    pub fn contents(&self) -> (r: &String)
        ensures
            r@ == self@.contents,
    {
        &self.contents
    }
}

/// One user-submitted source unit on the file-data interface: a logical kind
/// carrying a named file. The kind determines the filename extension; the
/// mapping is total and exhaustive.
pub enum SourceFile {
    C(FileData),
    Cpp(FileData),
    CHeader(FileData),
    CppHeader(FileData),
}

impl SourceFile {
    /// The extension, with leading dot, that this unit's kind maps to.
    pub open spec fn ext_spec(&self) -> Seq<char> {
        match self {
            SourceFile::C(_) => ".c"@,
            SourceFile::Cpp(_) => ".cpp"@,
            SourceFile::CHeader(_) => ".h"@,
            SourceFile::CppHeader(_) => ".hpp"@,
        }
    }

    /// The file data carried by this unit.
    pub open spec fn data_spec(&self) -> FileDataView {
        match self {
            SourceFile::C(x) => x@,
            SourceFile::Cpp(x) => x@,
            SourceFile::CHeader(x) => x@,
            SourceFile::CppHeader(x) => x@,
        }
    }

    pub fn extension(&self) -> (r: &'static str)
        ensures
            r@ == self.ext_spec(),
    {
        match self {
            SourceFile::C(_) => ".c",
            SourceFile::Cpp(_) => ".cpp",
            SourceFile::CHeader(_) => ".h",
            SourceFile::CppHeader(_) => ".hpp",
        }
    }

    pub fn unwrap(self) -> (r: FileData)
        ensures
            r@ == self.data_spec(),
    {
        match self {
            SourceFile::C(x) => x,
            SourceFile::Cpp(x) => x,
            SourceFile::CHeader(x) => x,
            SourceFile::CppHeader(x) => x,
        }
    }
}

/// The file planned for one source unit on this interface: the submitted
/// name with the extension of the unit's kind appended, holding the unit's
/// contents.
pub open spec fn compiled_unit_file(unit: SourceFile) -> FileDataView {
    FileDataView {
        name: unit.data_spec().name + unit.ext_spec(),
        contents: unit.data_spec().contents,
    }
}

/// Every file that allocation materializes into the workspace, in write
/// order: exactly one file per source unit. Two units planning the same
/// filename are written in order, so the later one overwrites the earlier
/// (the chosen overwrite policy).
pub open spec fn compiler_planned_files(units: Seq<SourceFile>) -> Seq<FileDataView> {
    units.map_values(|u: SourceFile| compiled_unit_file(u))
}

/// The container invocation arguments on this interface: name the instance
/// after the workspace id, bind-mount the workspace at the fixed in-image
/// path, never pull the image implicitly, stay quiet, and remove the
/// instance on exit exactly when cleanup is requested.
pub open spec fn compiler_run_args_spec(
    id: Seq<char>,
    workspace_dir: Seq<char>,
    image_name: Seq<char>,
    cleanup: bool,
) -> Seq<Seq<char>> {
    let base = seq![
        "run"@,
        "--name"@,
        id,
        "-v"@,
        workspace_dir + ":/output/code/:z"@,
        "--pull"@,
        "never"@,
        "--quiet"@,
    ];
    if cleanup {
        base.push("--rm"@).push(image_name)
    } else {
        base.push(image_name)
    }
}

/// The mathematical value of a compiler workspace plan.
#[verifier::ext_equal]
pub ghost struct CompilerView {
    pub image_name: Seq<char>,
    pub id: Seq<char>,
    pub cleanup: bool,
    pub files: Seq<FileDataView>,
}

/// One request's planned workspace and container invocation on the
/// file-data interface. Owning a `Compiler` stands for owning the workspace
/// directory: whoever holds it schedules the directory's removal when it is
/// released, unless cleanup was switched off.
pub struct Compiler {
    image_name: String,
    id: String,
    cleanup: bool,
    files: Vec<FileData>,
}

impl View for Compiler {
    type V = CompilerView;

    closed spec fn view(&self) -> CompilerView {
        CompilerView {
            image_name: self.image_name@,
            id: self.id@,
            cleanup: self.cleanup,
            files: self.files@.map_values(|f: FileData| f@),
        }
    }
}

impl Compiler {
    /// A well-formed plan carries a full-length identifier.
    pub open spec fn wf(&self) -> bool {
        self@.id.len() == 36
    }

    /// Plans the workspace for one request: generates the unique identifier
    /// and lays out exactly the files of [`compiler_planned_files`], with
    /// cleanup on release switched on. Fails, and plans nothing, if and only
    /// if no source unit was submitted; directory creation is only ever
    /// attempted for a returned plan, so a rejected request creates no
    /// directory.
    pub fn new(source_code: Vec<SourceFile>, image_name: &str) -> (r: Result<
        Compiler,
        CompilerError,
    >)
        ensures
            r is Err <==> source_code@.len() == 0,
            r matches Err(e) ==> e == CompilerError::EmptySourceFiles,
            r matches Ok(c) ==> {
                &&& c.wf()
                &&& c@.image_name == image_name@
                &&& c@.cleanup == true
                &&& c@.files =~= compiler_planned_files(source_code@)
            },
    {
        if source_code.len() == 0 {
            return Err(CompilerError::EmptySourceFiles);
        }
        let id = fresh_id();

        let ghost units = source_code@;
        let mut remaining = source_code;
        let mut files: Vec<FileData> = Vec::new();
        while remaining.len() > 0
            invariant
                files@.len() + remaining@.len() == units.len(),
                remaining@ =~= units.subrange(files@.len() as int, units.len() as int),
                forall|j: int| 0 <= j < files@.len() ==> #[trigger] files@[j]@
                    == compiled_unit_file(units[j]),
            decreases remaining@.len(),
        {
            let unit = remaining.remove(0);
            let ext = unit.extension();
            files.push(unit.unwrap().add_extension(ext));
        }

        let c = Compiler { image_name: String::from_str(image_name), id, cleanup: true, files };
        proof {
            assert(c@.files =~= compiler_planned_files(units));
        }
        Ok(c)
    }

    /// Chooses whether the workspace is removed when this plan is released.
    pub fn cleanup(self, option: bool) -> (r: Self)
        ensures
            r@ == (CompilerView { cleanup: option, ..self@ }),
    {
        let mut this = self;
        this.cleanup = option;
        this
    }

    /// The workspace's path below the temporary root: the fixed namespace
    /// directory, then the unique identifier. Distinct identifiers give
    /// disjoint workspaces by construction.
    pub fn workspace_subpath(&self) -> (r: String)
        ensures
            r@ == "output/"@ + self@.id,
    {
        let mut p = String::from_str("output/");
        p.append(self.id.as_str());
        p
    }

    /// The argument list of the container invocation, given the absolute
    /// workspace directory on the host. `--rm` is passed exactly when
    /// cleanup is switched on.
    pub fn run_args(&self, workspace_dir: &str) -> (r: Vec<String>)
        ensures
            r@.map_values(|s: String| s@) =~= compiler_run_args_spec(
                self@.id,
                workspace_dir@,
                self@.image_name,
                self@.cleanup,
            ),
    {
        let mut args: Vec<String> = Vec::new();
        args.push(String::from_str("run"));
        args.push(String::from_str("--name"));
        args.push(self.id.clone());
        args.push(String::from_str("-v"));
        let mut mount = String::from_str(workspace_dir);
        mount.append(":/output/code/:z");
        args.push(mount);
        args.push(String::from_str("--pull"));
        args.push(String::from_str("never"));
        args.push(String::from_str("--quiet"));
        if self.cleanup {
            args.push(String::from_str("--rm"));
        }
        args.push(self.image_name.clone());
        args
    }

    pub fn id(&self) -> (r: &String)
        ensures
            r@ == self@.id,
    {
        &self.id
    }

    pub fn image_name(&self) -> (r: &String)
        ensures
            r@ == self@.image_name,
    {
        &self.image_name
    }

    pub fn will_clean_up(&self) -> (r: bool)
        ensures
            r == self@.cleanup,
    {
        self.cleanup
    }

    pub fn files(&self) -> (r: &Vec<FileData>)
        ensures
            r@.map_values(|f: FileData| f@) == self@.files,
    {
        &self.files
    }
}

/// For every non-empty sequence of source units on the file-data interface,
/// allocation plans exactly one file per unit, and the file of unit `i`
/// keeps the unit's submitted name with the extension matching the unit's
/// kind appended, holding exactly the unit's contents.
pub proof fn lemma_compiler_one_file_per_unit(units: Seq<SourceFile>)
    requires
        units.len() > 0,
    ensures
        compiler_planned_files(units).len() == units.len(),
        forall|i: int| 0 <= i < units.len() ==> #[trigger] compiler_planned_files(units)[i]
            == compiled_unit_file(units[i]),
{
}

} // verus!
