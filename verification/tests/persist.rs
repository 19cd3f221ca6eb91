use tex_template::persist::{first_step, next_step, Step};

fn run(outcomes: &[bool], compile: bool) -> Vec<Step> {
    let mut step = first_step();
    let mut visited = vec![step];
    for outcome in outcomes {
        step = next_step(step, *outcome, compile);
        visited.push(step);
    }
    visited
}

#[test]
fn write_only_run_goes_through_four_steps() {
    assert_eq!(
        run(&[true, true, true, true], false),
        vec![
            Step::CreateMain,
            Step::CreateIncludes,
            Step::WriteMain,
            Step::WriteIncludes,
            Step::Finished
        ]
    );
}

#[test]
fn compile_follows_the_writes() {
    assert_eq!(
        run(&[true, true, true, true, true], true),
        vec![
            Step::CreateMain,
            Step::CreateIncludes,
            Step::WriteMain,
            Step::WriteIncludes,
            Step::Compile,
            Step::Finished
        ]
    );
}

#[test]
fn failed_write_never_reaches_compile() {
    for failure in 0..4 {
        let mut outcomes = vec![true; 6];
        outcomes[failure] = false;
        let visited = run(&outcomes, true);
        assert!(!visited.contains(&Step::Compile));
        assert!(!visited.contains(&Step::Finished));
        assert_eq!(visited[failure + 1], Step::Failed);
        assert_eq!(*visited.last().unwrap(), Step::Failed);
    }
}

#[test]
fn failed_compile_fails_the_run() {
    assert_eq!(*run(&[true, true, true, true, false], true).last().unwrap(), Step::Failed);
}

#[test]
fn unwritable_directory_stops_before_compile() {
    let mut step = first_step();
    let mut compiled = false;
    let mut error = None;
    while step != Step::Finished && step != Step::Failed {
        let outcome: std::io::Result<()> = match step {
            Step::CreateMain => Err(std::io::Error::from(std::io::ErrorKind::PermissionDenied)),
            Step::Compile => {
                compiled = true;
                Ok(())
            }
            _ => Ok(()),
        };
        if let Err(e) = &outcome {
            error = Some(e.kind());
        }
        step = next_step(step, outcome.is_ok(), true);
    }
    assert_eq!(step, Step::Failed);
    assert!(!compiled);
    assert_eq!(error, Some(std::io::ErrorKind::PermissionDenied));
}

#[test]
fn finished_and_failed_stay() {
    assert_eq!(next_step(Step::Finished, false, true), Step::Finished);
    assert_eq!(next_step(Step::Finished, true, false), Step::Finished);
    assert_eq!(next_step(Step::Failed, true, true), Step::Failed);
}
