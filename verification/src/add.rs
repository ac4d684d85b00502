//! The decisions of the `add` command.
//!
//! Adding a component writes its extension file, then its generated files,
//! and then declares the new units in the three manifests. This module says
//! what is to be written and declared; the caller reads and writes the
//! files.

use vstd::prelude::*;
use vstd::string::*;
use crate::components::{
    bulk_operand, extension_file_content, generate_extension_file, generate_generated_file,
    generated_file_content, is_component, is_valid_component, ComponentFiles, ComponentFilesView,
};
use crate::order::names_of;
use crate::text::{chars_of, contains, contains_chars, same_text};

verus! {

/// A directory of the scaffold that files are written into.
#[derive(Debug, Clone, Copy, PartialEq, Eq, Structural)]
pub enum TargetDir {
    /// The root of the scaffold.
    Stripe,
    /// The directory of the client.
    Client,
    /// The directory of the resources.
    Resources,
    /// The directory of the generated definitions, below the resources.
    Generated,
}

/// One file to write.
pub struct FileWrite {
    /// The directory that the file goes into.
    pub dir: TargetDir,
    /// The name of the file in that directory.
    pub file_name: String,
    /// The content to write.
    pub content: String,
    /// The path shown to the operator.
    pub relative_path: String,
}

/// A file to write, as plain values.
pub struct FileWriteView {
    pub dir: TargetDir,
    pub file_name: Seq<char>,
    pub content: Seq<char>,
    pub relative_path: Seq<char>,
}

impl View for FileWrite {
    type V = FileWriteView;

    open spec fn view(&self) -> FileWriteView {
        FileWriteView {
            dir: self.dir,
            file_name: self.file_name@,
            content: self.content@,
            relative_path: self.relative_path@,
        }
    }
}

/// The views of a sequence of file writes.
pub open spec fn writes_of(v: Seq<FileWrite>) -> Seq<FileWriteView> {
    Seq::new(v.len(), |i: int| v[i]@)
}

/// The write of the extension file `file` of `component`.
pub open spec fn extension_write(component: Seq<char>, file: Seq<char>) -> FileWriteView {
    FileWriteView {
        dir: TargetDir::Resources,
        file_name: file,
        content: extension_file_content(component),
        relative_path: "stripe/resources/"@ + file + ".rs"@,
    }
}

/// The write of the generated file `file`.
pub open spec fn generated_write(file: Seq<char>) -> FileWriteView {
    FileWriteView {
        dir: TargetDir::Generated,
        file_name: file,
        content: generated_file_content(file),
        relative_path: "stripe/resources/generated/"@ + file + ".rs"@,
    }
}

/// The writes that a component needs: its extension file first, where it
/// has one, then its generated files in their order.
pub open spec fn component_writes(component: Seq<char>, files: ComponentFilesView) -> Seq<
    FileWriteView,
> {
    let generated = Seq::new(
        files.generated_files.len(),
        |i: int| generated_write(files.generated_files[i]),
    );
    match files.extension_file {
        Some(f) => seq![extension_write(component, f)] + generated,
        None => generated,
    }
}

/// What adding one component takes: the files to write, in order, and then
/// the units to declare in the three manifests. A `ComponentRun` carries the
/// plan out step by step.
pub struct ComponentPlan {
    /// The files to write, in order. The first failure ends the component.
    pub writes: Vec<FileWrite>,
    /// The unit that the top manifest has to declare.
    pub top_module: String,
    /// The component that the resources manifest has to declare.
    pub component: String,
    /// The unit that the resources manifest has to declare beside it.
    pub submodule: String,
    /// The files whose modules the generated manifest has to declare.
    pub generated_files: Vec<String>,
}

/// The plan for adding `component` with the file set `mapping`.
pub fn add_single_component(component: &str, mapping: &ComponentFiles) -> (plan: ComponentPlan)
    ensures
        writes_of(plan.writes@) == component_writes(component@, mapping@),
        plan.top_module@ == "resources"@,
        plan.component@ == component@,
        plan.submodule@ == "generated"@,
        names_of(plan.generated_files@) == mapping@.generated_files,
{
    let mut writes: Vec<FileWrite> = Vec::new();
    match &mapping.extension_file {
        Some(file) => {
            let mut path = String::from_str("stripe/resources/");
            path.append(file.as_str());
            path.append(".rs");
            writes.push(
                FileWrite {
                    dir: TargetDir::Resources,
                    file_name: file.clone(),
                    content: generate_extension_file(component, file.as_str()).unwrap(),
                    relative_path: path,
                },
            );
        },
        None => {},
    }
    let ghost head = writes_of(writes@);
    proof {
        if mapping.extension_file is Some {
            assert(head =~= seq![extension_write(component@, mapping.extension_file->0@)]);
        } else {
            assert(head =~= Seq::<FileWriteView>::empty());
        }
    }
    let mut generated_files: Vec<String> = Vec::new();
    let mut i: usize = 0;
    while i < mapping.generated_files.len()
        invariant
            i <= mapping.generated_files.len(),
            writes@.len() == head.len() + i,
            generated_files@.len() == i,
            forall|j: int| 0 <= j < head.len() ==> writes@[j]@ == head[j],
            forall|j: int|
                0 <= j < i ==> (#[trigger] writes@[head.len() + j])@ == generated_write(
                    mapping.generated_files@[j]@,
                ),
            forall|j: int| 0 <= j < i ==> generated_files@[j]@ == mapping.generated_files@[j]@,
        decreases mapping.generated_files.len() - i,
    {
        let file = &mapping.generated_files[i];
        let mut path = String::from_str("stripe/resources/generated/");
        path.append(file.as_str());
        path.append(".rs");
        writes.push(
            FileWrite {
                dir: TargetDir::Generated,
                file_name: file.clone(),
                content: generate_generated_file(file.as_str()).unwrap(),
                relative_path: path,
            },
        );
        generated_files.push(file.clone());
        i += 1;
    }
    proof {
        let want = component_writes(component@, mapping@);
        let got = writes_of(writes@);
        assert(got.len() == want.len());
        assert forall|k: int| 0 <= k < got.len() implies got[k] == want[k] by {
            if k >= head.len() {
                let j = k - head.len();
                assert(writes@[head.len() + j]@ == generated_write(mapping.generated_files@[j]@));
                assert(mapping@.generated_files[j] == mapping.generated_files@[j]@);
            } else {
                assert(writes@[k]@ == head[k]);
            }
        }
        assert(got =~= want);
        assert(names_of(generated_files@) =~= mapping@.generated_files);
    }
    ComponentPlan {
        writes,
        top_module: String::from_str("resources"),
        component: String::from_str(component),
        submodule: String::from_str("generated"),
        generated_files,
    }
}

/// One step of adding a component.
#[derive(Debug, Clone, Copy, PartialEq, Eq, Structural)]
pub enum AddStep {
    /// Write the file at this index of the plan's writes.
    Write(usize),
    /// Declare the plan's top module in the top manifest.
    DeclareTop,
    /// Declare the component and the submodule in the resources manifest.
    DeclareResources,
    /// Declare the generated files in the generated manifest.
    DeclareGenerated,
    /// Every step succeeded: the component is added.
    Done,
    /// A step failed: nothing more is done for this component.
    Failed,
}

/// The progress of adding one component. The caller performs each step and
/// reports how it ended. The first failure ends the component: no later file
/// is written and no manifest is touched after it. A manifest is reached
/// only after every file was written.
pub struct ComponentRun<E> {
    plan: ComponentPlan,
    written: usize,
    declared: u8,
    failure: Option<E>,
}

impl<E> ComponentRun<E> {
    /// The plan that is carried out.
    pub closed spec fn plan_spec(&self) -> ComponentPlan {
        self.plan
    }

    /// The number of files written so far.
    pub closed spec fn written(&self) -> nat {
        self.written as nat
    }

    /// The number of manifests updated so far.
    pub closed spec fn declared(&self) -> nat {
        self.declared as nat
    }

    /// The failure that ended the component, if one did.
    pub closed spec fn failure(&self) -> Option<E> {
        self.failure
    }

    /// The number of files that the plan writes.
    pub open spec fn total(&self) -> nat {
        self.plan_spec().writes@.len()
    }

    /// The invariant of a run: no more files written than the plan has, no
    /// more than the three manifests updated, and none of them before every
    /// file was written.
    pub open spec fn wf(&self) -> bool {
        &&& self.written() <= self.total()
        &&& self.declared() <= 3
        &&& self.declared() > 0 ==> self.written() == self.total()
    }

    /// The step that is due.
    pub open spec fn next_spec(&self) -> AddStep {
        if self.failure() is Some {
            AddStep::Failed
        } else if self.written() < self.total() {
            AddStep::Write(self.written() as usize)
        } else if self.declared() == 0 {
            AddStep::DeclareTop
        } else if self.declared() == 1 {
            AddStep::DeclareResources
        } else if self.declared() == 2 {
            AddStep::DeclareGenerated
        } else {
            AddStep::Done
        }
    }

    /// The first failure ends the component: once a failure is kept, no
    /// step is due, whatever was written before it.
    pub proof fn lemma_failure_ends_the_component(&self)
        requires
            self.wf(),
            self.failure() is Some,
        ensures
            self.next_spec() is Failed,
    {
    }

    /// A manifest is due only after every file of the plan was written and
    /// no step has failed; and the component is done only after the three
    /// manifests.
    pub proof fn lemma_manifests_follow_the_files(&self)
        requires
            self.wf(),
        ensures
            self.next_spec() is DeclareTop || self.next_spec() is DeclareResources
                || self.next_spec() is DeclareGenerated ==> self.written() == self.total()
                && self.failure() is None,
            self.next_spec() is Done ==> self.written() == self.total() && self.declared() == 3
                && self.failure() is None,
    {
    }

    /// A run of `plan` in which nothing was done yet.
    pub fn new(plan: ComponentPlan) -> (run: ComponentRun<E>)
        ensures
            run.wf(),
            run.plan_spec() == plan,
            run.written() == 0,
            run.declared() == 0,
            run.failure() is None,
    {
        ComponentRun { plan, written: 0, declared: 0, failure: None }
    }

    /// The plan that is carried out.
    pub fn plan(&self) -> (plan: &ComponentPlan)
        ensures
            *plan == self.plan_spec(),
    {
        &self.plan
    }

    /// The step that is due. A file is due only while no step has failed; a
    /// manifest is due only when, besides, every file was written.
    pub fn next(&self) -> (step: AddStep)
        requires
            self.wf(),
        ensures
            step == self.next_spec(),
            step matches AddStep::Write(i) ==> i < self.total() && self.failure() is None,
            step is DeclareTop || step is DeclareResources || step is DeclareGenerated
                ==> self.written() == self.total() && self.failure() is None,
            step is Failed <==> self.failure() is Some,
    {
        if self.failure.is_some() {
            AddStep::Failed
        } else if self.written < self.plan.writes.len() {
            AddStep::Write(self.written)
        } else if self.declared == 0 {
            AddStep::DeclareTop
        } else if self.declared == 1 {
            AddStep::DeclareResources
        } else if self.declared == 2 {
            AddStep::DeclareGenerated
        } else {
            AddStep::Done
        }
    }

    /// Notes how the step that was due ended. After a success the step
    /// behind it is due. A failure is kept, and from then on no step is due:
    /// what was written and declared stays as it was.
    pub fn record(&mut self, outcome: Result<(), E>)
        requires
            old(self).wf(),
            !(old(self).next_spec() is Done),
            !(old(self).next_spec() is Failed),
        ensures
            final(self).wf(),
            final(self).plan_spec() == old(self).plan_spec(),
            match outcome {
                Ok(_) => {
                    &&& final(self).failure() is None
                    &&& final(self).written() + final(self).declared() == old(self).written()
                        + old(self).declared() + 1
                    &&& old(self).next_spec() is Write ==> final(self).written() == old(
                        self,
                    ).written() + 1
                },
                Err(e) => {
                    &&& final(self).failure() == Some(e)
                    &&& final(self).written() == old(self).written()
                    &&& final(self).declared() == old(self).declared()
                    &&& final(self).next_spec() is Failed
                },
            },
    {
        match outcome {
            Ok(_) => {
                if self.written < self.plan.writes.len() {
                    self.written = self.written + 1;
                } else {
                    self.declared = self.declared + 1;
                }
            },
            Err(e) => {
                self.failure = Some(e);
            },
        }
    }

    /// How the component ended, once no step is due any more: the failure
    /// that ended it, or success after the last manifest.
    pub fn finish(self) -> (r: Result<(), E>)
        requires
            self.wf(),
            self.next_spec() is Done || self.next_spec() is Failed,
        ensures
            match self.failure() {
                Some(e) => r == Err::<(), E>(e),
                None => r == Ok::<(), E>(()) && self.written() == self.total()
                    && self.declared() == 3,
            },
    {
        match self.failure {
            Some(e) => Err(e),
            None => Ok(()),
        }
    }
}

/// The content that goes into a file: what the template store holds under
/// the file's name, and the placeholder where the store holds nothing.
pub fn choose_content(stored: Option<String>, placeholder: String) -> (content: String)
    ensures
        content == (match stored {
            Some(text) => text,
            None => placeholder,
        }),
{
    match stored {
        Some(text) => text,
        None => placeholder,
    }
}

/// What the conflict-checked writer does with one file.
#[derive(Debug, Clone, Copy, PartialEq, Eq, Structural)]
pub enum WriteAction {
    /// Write the file.
    Write,
    /// Ask the operator whether the existing file may be overwritten.
    Ask,
    /// Leave the existing file as it is. This is no error.
    Skip,
}

/// What to do with a file: `present` says whether the target is there,
/// `force` whether overwriting was allowed up front, and `answer` what the
/// operator said when asked, if they were asked yet.
pub fn write_action(present: bool, force: bool, answer: Option<bool>) -> (action: WriteAction)
    ensures
        action == (if !present || force {
            WriteAction::Write
        } else {
            match answer {
                None => WriteAction::Ask,
                Some(true) => WriteAction::Write,
                Some(false) => WriteAction::Skip,
            }
        }),
{
    if !present || force {
        WriteAction::Write
    } else {
        match answer {
            None => WriteAction::Ask,
            Some(true) => WriteAction::Write,
            Some(false) => WriteAction::Skip,
        }
    }
}

/// What a request to add `component` asks for.
#[derive(Debug, Clone, Copy, PartialEq, Eq, Structural)]
pub enum AddRequest {
    /// The name of the generated unit itself, which is no component.
    ReservedName,
    /// Every component of the table.
    Bulk,
    /// One component of the table.
    Single,
    /// A name that is no component.
    Invalid,
}

/// What a request to add `name` asks for.
pub open spec fn classify_spec(name: Seq<char>) -> AddRequest {
    if name == "generated"@ {
        AddRequest::ReservedName
    } else if name == bulk_operand() {
        AddRequest::Bulk
    } else if is_component(name) {
        AddRequest::Single
    } else {
        AddRequest::Invalid
    }
}

/// Sorts out a request to add `component`.
pub fn classify_request(component: &str) -> (request: AddRequest)
    ensures
        request == classify_spec(component@),
{
    if same_text(component, "generated") {
        AddRequest::ReservedName
    } else if same_text(component, "all") {
        AddRequest::Bulk
    } else if is_valid_component(component) {
        AddRequest::Single
    } else {
        AddRequest::Invalid
    }
}

/// The message for a name that is no component.
pub fn invalid_component_message(component: &str) -> (message: String)
    ensures
        message@ == "Invalid component: '"@ + component@
            + "'. Run 'cargo stripe list' to see available components."@,
{
    let mut message = String::from_str("Invalid component: '");
    message.append(component);
    message.append("'. Run 'cargo stripe list' to see available components.");
    message
}

/// The message after one component was added.
pub fn added_component_message(component: &str) -> (message: String)
    ensures
        message@ == "Successfully added "@ + component@ + " component"@,
{
    let mut message = String::from_str("Successfully added ");
    message.append(component);
    message.append(" component");
    message
}

/// A hint that goes with an error message.
#[derive(Debug, Clone, Copy, PartialEq, Eq, Structural)]
pub enum Hint {
    /// The scaffold has to be laid down first.
    InitializeFirst,
    /// The listing names the components.
    ListComponents,
    /// The target has to be a project with a source directory.
    EnterProject,
}

/// The hint for an error message: by the first of three phrases that the
/// message holds, none where it holds none of them.
pub open spec fn error_hint_spec(message: Seq<char>) -> Option<Hint> {
    if contains(message, "Stripe SDK not initialized"@) {
        Some(Hint::InitializeFirst)
    } else if contains(message, "Invalid component"@) {
        Some(Hint::ListComponents)
    } else if contains(message, "Could not find the src directory"@) {
        Some(Hint::EnterProject)
    } else {
        None
    }
}

/// The hint to print after the error message `message`.
pub fn error_hint(message: &str) -> (hint: Option<Hint>)
    ensures
        hint == error_hint_spec(message@),
{
    let text = chars_of(message);
    if contains_chars(&text, &chars_of("Stripe SDK not initialized")) {
        Some(Hint::InitializeFirst)
    } else if contains_chars(&text, &chars_of("Invalid component")) {
        Some(Hint::ListComponents)
    } else if contains_chars(&text, &chars_of("Could not find the src directory")) {
        Some(Hint::EnterProject)
    } else {
        None
    }
}

} // verus!
