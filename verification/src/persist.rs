use vstd::prelude::*;

verus! {

/// What comes next when a template is written out and, if asked for, compiled.
/// The first five are things to do; the last two say that nothing is left.
#[derive(Clone, Copy, Debug, PartialEq, Eq, Structural)]
pub enum Step {
    /// Create the main file.
    CreateMain,
    /// Create the file of the included fragment.
    CreateIncludes,
    /// Write the main document into its file.
    WriteMain,
    /// Write the fragment into its file.
    WriteIncludes,
    /// Compile the main file.
    Compile,
    /// Everything asked for was done.
    Finished,
    /// A step failed. Files made before it stay as they are.
    Failed,
}

/// The step that follows `step`, given whether `step` succeeded and whether
/// compiling was asked for. A failure ends the run at once.
pub open spec fn following(step: Step, succeeded: bool, compile: bool) -> Step {
    match step {
        Step::Finished => Step::Finished,
        Step::Failed => Step::Failed,
        _ => if !succeeded {
            Step::Failed
        } else {
            match step {
                Step::CreateMain => Step::CreateIncludes,
                Step::CreateIncludes => Step::WriteMain,
                Step::WriteMain => Step::WriteIncludes,
                Step::WriteIncludes => if compile {
                    Step::Compile
                } else {
                    Step::Finished
                },
                _ => Step::Finished,
            }
        },
    }
}

/// Where a run stands after the outcomes of its first steps, starting from
/// `Step::CreateMain`.
pub open spec fn standing(outcomes: Seq<bool>, compile: bool) -> Step
    decreases outcomes.len(),
{
    if outcomes.len() == 0 {
        Step::CreateMain
    } else {
        following(standing(outcomes.drop_last(), compile), outcomes.last(), compile)
    }
}

/// The first thing to do.
pub fn first_step() -> (step: Step)
    ensures
        step == Step::CreateMain,
{
    Step::CreateMain
}

/// The step that follows `step`.
pub fn next_step(step: Step, succeeded: bool, compile: bool) -> (next: Step)
    ensures
        next == following(step, succeeded, compile),
{
    match step {
        Step::Finished => Step::Finished,
        Step::Failed => Step::Failed,
        _ => if !succeeded {
            Step::Failed
        } else {
            match step {
                Step::CreateMain => Step::CreateIncludes,
                Step::CreateIncludes => Step::WriteMain,
                Step::WriteMain => Step::WriteIncludes,
                Step::WriteIncludes => if compile {
                    Step::Compile
                } else {
                    Step::Finished
                },
                _ => Step::Finished,
            }
        },
    }
}

/// Once one of the four steps that make and fill the files has failed, the
/// run stands at `Step::Failed` for good: compiling is never the next step.
pub proof fn failed_write_ends_run(outcomes: Seq<bool>, compile: bool, failure: int)
    requires
        0 <= failure < outcomes.len(),
        failure < 4,
        !outcomes[failure],
    ensures
        standing(outcomes, compile) == Step::Failed,
    decreases outcomes.len(),
{
    let before = outcomes.drop_last();
    if failure == outcomes.len() - 1 {
        lemma_writing(before, compile);
    } else {
        failed_write_ends_run(before, compile, failure);
    }
}

/// During the first four steps a run either has failed or stands at the step
/// whose turn it is.
proof fn lemma_writing(outcomes: Seq<bool>, compile: bool)
    requires
        outcomes.len() < 4,
    ensures
        standing(outcomes, compile) == Step::Failed || standing(outcomes, compile) == (
        if outcomes.len() == 0 {
            Step::CreateMain
        } else if outcomes.len() == 1 {
            Step::CreateIncludes
        } else if outcomes.len() == 2 {
            Step::WriteMain
        } else {
            Step::WriteIncludes
        }),
    decreases outcomes.len(),
{
    if outcomes.len() > 0 {
        lemma_writing(outcomes.drop_last(), compile);
    }
}

} // verus!
