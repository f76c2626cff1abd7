//! Tests of the emitter's all-or-nothing decisions, with injected write
//! outcomes and a simulated directory.

use csproj::emit::{emit_failure, EmitAction, Emitter};
use csproj::errors::Error;
use csproj::project::CSProject;

#[test]
fn all_writes_succeeding_finishes_in_order() {
    let mut emitter = Emitter::new(3);
    let mut written: Vec<usize> = Vec::new();
    loop {
        match emitter.next_action() {
            EmitAction::Write { index } => {
                written.push(index);
                emitter.write_succeeded();
            }
            EmitAction::Finish => break,
            other => panic!("unexpected action {:?}", other),
        }
    }
    assert_eq!(written, vec![0, 1, 2]);
}

#[test]
fn failure_on_second_write_rolls_back_the_first() {
    let mut builder = CSProject::new("out".to_string(), "my-component", "my-world");
    builder.aot();
    let artifacts = builder.artifacts().unwrap();
    assert_eq!(artifacts.len(), 3);

    // A simulated directory: the write of the second artifact fails.
    let mut on_disk: Vec<String> = Vec::new();
    let mut emitter = Emitter::new(artifacts.len());
    let mut actions: Vec<EmitAction> = Vec::new();
    let error = loop {
        let action = emitter.next_action();
        actions.push(action);
        match action {
            EmitAction::Write { index } => {
                if index == 1 {
                    emitter.write_failed();
                } else {
                    on_disk.push(artifacts[index].relative_path.clone());
                    emitter.write_succeeded();
                }
            }
            EmitAction::Remove { index } => {
                on_disk.retain(|p| *p != artifacts[index].relative_path);
                emitter.removal_done();
            }
            EmitAction::Finish => panic!("the batch must not finish"),
            EmitAction::Abort { failed } => {
                break emit_failure(&artifacts, failed, "disk full".to_string());
            }
        }
    };

    assert_eq!(
        actions,
        vec![
            EmitAction::Write { index: 0 },
            EmitAction::Write { index: 1 },
            EmitAction::Remove { index: 0 },
            EmitAction::Abort { failed: 1 },
        ]
    );
    // The directory is back in its pre-call state.
    assert!(on_disk.is_empty());
    match error {
        Error::PartialWriteFailure { path, cause } => {
            assert_eq!(path, "nuget.config");
            assert_eq!(cause, "disk full");
        }
        other => panic!("expected PartialWriteFailure, got {:?}", other),
    }
}

#[test]
fn failure_on_first_write_is_an_io_failure() {
    let builder = CSProject::new("out".to_string(), "my-component", "my-world");
    let artifacts = builder.artifacts().unwrap();

    let mut emitter = Emitter::new(artifacts.len());
    let error = loop {
        match emitter.next_action() {
            EmitAction::Write { index: _ } => emitter.write_failed(),
            EmitAction::Remove { index: _ } => panic!("nothing was written"),
            EmitAction::Finish => panic!("the batch must not finish"),
            EmitAction::Abort { failed } => {
                break emit_failure(&artifacts, failed, "permission denied".to_string());
            }
        }
    };
    match error {
        Error::IOFailure { path, cause } => {
            assert_eq!(path, "rd.xml");
            assert_eq!(cause, "permission denied");
        }
        other => panic!("expected IOFailure, got {:?}", other),
    }
}

#[test]
fn failure_on_last_write_removes_every_earlier_artifact() {
    let mut builder = CSProject::new("out".to_string(), "my-component", "my-world");
    builder.aot();
    let artifacts = builder.artifacts().unwrap();
    assert_eq!(artifacts.len(), 3);

    let mut emitter = Emitter::new(artifacts.len());
    let mut removed: Vec<usize> = Vec::new();
    let error = loop {
        match emitter.next_action() {
            EmitAction::Write { index } => {
                if index == 2 {
                    emitter.write_failed();
                } else {
                    emitter.write_succeeded();
                }
            }
            EmitAction::Remove { index } => {
                removed.push(index);
                emitter.removal_done();
            }
            EmitAction::Finish => panic!("the batch must not finish"),
            EmitAction::Abort { failed } => {
                break emit_failure(&artifacts, failed, "disk full".to_string());
            }
        }
    };
    // Rollback runs newest first over everything already written.
    assert_eq!(removed, vec![1, 0]);
    match error {
        Error::PartialWriteFailure { path, .. } => assert_eq!(path, "MyWorld.csproj"),
        other => panic!("expected PartialWriteFailure, got {:?}", other),
    }
}
