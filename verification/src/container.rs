//! Workspace planning for the container-backed execution pipeline.
//!
//! A [`Container`] value plans one request's ephemeral workspace: the unique
//! identifier naming both the directory and the container instance, and the
//! exact files to materialize. Performing the filesystem writes and spawning
//! the container process happen outside this crate, driven entirely by the
//! values computed and specified here.

use crate::compile::{AssignmentType, SourceFile};
use crate::compiler::{FileData, FileDataView};
use crate::ident::fresh_id;
use vstd::prelude::*;
use vstd::string::StringExecFns;

verus! {

/// Errors of workspace allocation on this interface.
#[derive(Clone, Copy, Debug, PartialEq, Eq, Structural)]
pub enum Error {
    NoSourceFiles,
}

impl Error {
    /// The generic descriptive text for this error.
    pub open spec fn message_spec(&self) -> Seq<char> {
        "Failed to find any source files"@
    }

    pub fn message(&self) -> (r: &'static str)
        ensures
            r@ == self.message_spec(),
    {
        "Failed to find any source files"
    }
}

/// The fixture file copied into the workspace for [`AssignmentType::Example`]:
/// a small input the submitted program is expected to read.
pub open spec fn example_fixture_spec() -> FileDataView {
    FileDataView { name: "read.txt"@, contents: "1\n2\n3\n4\nWorks\n"@ }
}

/// The file planned for one source unit: always named `main`, with the
/// extension drawn from the unit's kind, holding the unit's raw text.
pub open spec fn planned_unit_file(unit: SourceFile) -> FileDataView {
    FileDataView { name: "main"@ + unit.ext_spec(), contents: unit.text_spec() }
}

/// Every file that allocation materializes into the workspace, in write
/// order: one file per source unit, then the fixture of the assignment kind,
/// if one was given. Two units of the same kind plan the same filename; since
/// writes happen in order, the later unit overwrites the earlier one (the
/// chosen overwrite policy). Unit files are always named `main.*`, and the
/// fixture is written after them, so no user file can override a fixture.
pub open spec fn planned_files(
    units: Seq<SourceFile>,
    assignment: Option<AssignmentType>,
) -> Seq<FileDataView> {
    let user = units.map_values(|u: SourceFile| planned_unit_file(u));
    match assignment {
        Some(AssignmentType::Example) => user.push(example_fixture_spec()),
        None => user,
    }
}

/// The mathematical value of a planned workspace: the image to run, the
/// unique identifier, and the files to materialize.
#[verifier::ext_equal]
pub ghost struct ContainerView {
    pub image_name: Seq<char>,
    pub id: Seq<char>,
    pub files: Seq<FileDataView>,
}

/// One request's planned workspace and container invocation. Owning a
/// `Container` stands for owning the workspace directory: whoever holds it is
/// responsible for scheduling the directory's removal when it is released,
/// on every path.
pub struct Container {
    image_name: String,
    id: String,
    files: Vec<FileData>,
}

impl View for Container {
    type V = ContainerView;

    closed spec fn view(&self) -> ContainerView {
        ContainerView {
            image_name: self.image_name@,
            id: self.id@,
            files: self.files@.map_values(|f: FileData| f@),
        }
    }
}

/// The container invocation arguments: name the instance after the workspace
/// id, bind-mount the workspace read-write at the fixed in-image path, never
/// pull the image implicitly, stay quiet and non-interactive, and remove the
/// instance on exit.
pub open spec fn run_args_spec(
    id: Seq<char>,
    workspace_dir: Seq<char>,
    image_name: Seq<char>,
) -> Seq<Seq<char>> {
    seq![
        "run"@,
        "--name"@,
        id,
        "-v"@,
        workspace_dir + ":/csci-courses/code/:z"@,
        "--pull"@,
        "never"@,
        "--quiet"@,
        "--rm"@,
        image_name,
    ]
}

impl Container {
    /// A well-formed plan carries a full-length identifier.
    pub open spec fn wf(&self) -> bool {
        self@.id.len() == 36
    }

    /// Plans the workspace for one request: generates the unique identifier
    /// and lays out exactly the files of [`planned_files`]. Fails, and plans
    /// nothing, if and only if no source unit was submitted; directory
    /// creation is only ever attempted for a returned plan, so a rejected
    /// request creates no directory.
    pub fn new(
        image_name: &str,
        source_code: &Vec<SourceFile>,
        assignment_type: Option<AssignmentType>,
    ) -> (r: Result<Container, Error>)
        ensures
            r is Err <==> source_code@.len() == 0,
            r matches Err(e) ==> e == Error::NoSourceFiles,
            r matches Ok(c) ==> {
                &&& c.wf()
                &&& c@.image_name == image_name@
                &&& c@.files =~= planned_files(source_code@, assignment_type)
            },
    {
        if source_code.len() == 0 {
            return Err(Error::NoSourceFiles);
        }
        let id = fresh_id();

        let mut files: Vec<FileData> = Vec::new();
        let mut i: usize = 0;
        while i < source_code.len()
            invariant
                i <= source_code@.len(),
                files@.len() == i,
                forall|j: int| 0 <= j < i ==> #[trigger] files@[j]@ == planned_unit_file(
                    source_code@[j],
                ),
            decreases source_code@.len() - i,
        {
            let unit = &source_code[i];
            let mut name = String::from_str("main");
            name.append(unit.full_extension());
            files.push(FileData::new(name, unit.unwrap_ref().clone()));
            i += 1;
        }
        match assignment_type {
            Some(AssignmentType::Example) => {
                files.push(
                    FileData::new(
                        String::from_str("read.txt"),
                        String::from_str("1\n2\n3\n4\nWorks\n"),
                    ),
                );
            },
            None => {},
        }

        let c = Container { image_name: String::from_str(image_name), id, files };
        proof {
            assert(c@.files =~= planned_files(source_code@, assignment_type));
        }
        Ok(c)
    }

    /// The workspace's path below the temporary root: the fixed namespace
    /// directory, then the unique identifier. Distinct identifiers give
    /// disjoint workspaces by construction.
    pub fn workspace_subpath(&self) -> (r: String)
        ensures
            r@ == "csci-courses/"@ + self@.id,
    {
        let mut p = String::from_str("csci-courses/");
        p.append(self.id.as_str());
        p
    }

    /// The argument list of the container invocation, given the absolute
    /// workspace directory on the host.
    pub fn run_args(&self, workspace_dir: &str) -> (r: Vec<String>)
        ensures
            r@.map_values(|s: String| s@) =~= run_args_spec(
                self@.id,
                workspace_dir@,
                self@.image_name,
            ),
    {
        let mut args: Vec<String> = Vec::new();
        args.push(String::from_str("run"));
        args.push(String::from_str("--name"));
        args.push(self.id.clone());
        args.push(String::from_str("-v"));
        let mut mount = String::from_str(workspace_dir);
        mount.append(":/csci-courses/code/:z");
        args.push(mount);
        args.push(String::from_str("--pull"));
        args.push(String::from_str("never"));
        args.push(String::from_str("--quiet"));
        args.push(String::from_str("--rm"));
        args.push(self.image_name.clone());
        args
    }

    pub fn id(&self) -> (r: &String)
        ensures
            r@ == self@.id,
    {
        &self.id
    }

    pub fn image_name(&self) -> (r: &String)
        ensures
            r@ == self@.image_name,
    {
        &self.image_name
    }

    pub fn files(&self) -> (r: &Vec<FileData>)
        ensures
            r@.map_values(|f: FileData| f@) == self@.files,
    {
        &self.files
    }
}

/// For every non-empty sequence of source units, allocation plans exactly one
/// file per unit — plus the fixture, when an assignment kind is given — and
/// the file of unit `i` is named `main` with the extension matching the
/// unit's kind and holds exactly the unit's text.
pub proof fn lemma_one_file_per_unit(units: Seq<SourceFile>, assignment: Option<AssignmentType>)
    requires
        units.len() > 0,
    ensures
        planned_files(units, assignment).len() == units.len() + (if assignment is Some {
            1int
        } else {
            0int
        }),
        forall|i: int| 0 <= i < units.len() ==> #[trigger] planned_files(units, assignment)[i]
            == planned_unit_file(units[i]),
        assignment is Some ==> planned_files(units, assignment).last() == example_fixture_spec(),
{
}

} // verus!
