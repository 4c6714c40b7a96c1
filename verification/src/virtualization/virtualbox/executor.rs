//! Running `VBoxManage`.
use crate::duplicate::Duplicate;
use crate::journal::Relation;
use crate::text::model;
use crate::text::model::Text;
use vstd::prelude::*;

verus! {

/// What one run of `VBoxManage` gave.
#[derive(Debug, Eq, PartialEq)]
pub struct VBoxOutput {
    pub success: bool,
    pub exit_code: Option<i32>,
    pub stdout: String,
    pub stderr: String,
}

/// The model of [`VBoxOutput`].
#[verifier::ext_equal]
pub struct VBoxOutputView {
    pub success: bool,
    pub exit_code: Option<i32>,
    pub stdout: Text,
    pub stderr: Text,
}

impl View for VBoxOutput {
    type V = VBoxOutputView;

    open spec fn view(&self) -> VBoxOutputView {
        VBoxOutputView {
            success: self.success,
            exit_code: self.exit_code,
            stdout: self.stdout@,
            stderr: self.stderr@,
        }
    }
}

impl Duplicate for VBoxOutput {
    fn duplicate(&self) -> (r: Self) {
        VBoxOutput {
            success: self.success,
            exit_code: self.exit_code,
            stdout: self.stdout.clone(),
            stderr: self.stderr.clone(),
        }
    }
}

impl Clone for VBoxOutput {
    fn clone(&self) -> (r: Self)
        ensures
            r@ == self@,
    {
        self.duplicate()
    }
}

/// What runs `VBoxManage`. Nothing is promised of what it answers but what an implementation
/// chooses to promise.
pub trait VBoxManageExecutor: Send + Sync {
    /// Which answers it may give to which arguments.
    open spec fn answers(&self) -> Relation<Seq<Text>, Answer> {
        |arguments: Seq<Text>, answer: Answer| true
    }

    /// For which times it may wait.
    open spec fn waits(&self) -> spec_fn(u64) -> bool {
        |milliseconds: u64| true
    }

    fn execute(&self, arguments: &[String]) -> (r: Result<VBoxOutput, String>)
        ensures
            self.answers()(model::texts(arguments@), answer_view(r)),
    ;

    fn wait(&self, milliseconds: u64)
        ensures
            self.waits()(milliseconds),
    ;
}

/// The answer of `VBoxManage`, or of the attempt to run it.
pub type Answer = Result<VBoxOutputView, Text>;

/// The view of an answer.
pub open spec fn answer_view(answer: Result<VBoxOutput, String>) -> Answer {
    match answer {
        Ok(output) => Ok(output@),
        Err(message) => Err(message@),
    }
}

/// An executor for a host without `VBoxManage`.
pub struct UnavailableExecutor(pub String);

impl VBoxManageExecutor for UnavailableExecutor {
    open spec fn answers(&self) -> Relation<Seq<Text>, Answer> {
        |arguments: Seq<Text>, answer: Answer| answer == Err::<VBoxOutputView, Text>(self.0@)
    }

    fn execute(&self, arguments: &[String]) -> (r: Result<VBoxOutput, String>) {
        Err(self.0.clone())
    }

    fn wait(&self, milliseconds: u64) {
    }
}

} // verus!
