use flutter_rust_bridge::build_script::{
    copy_failure_message, copy_files, skip_rebuild_if_recursive_rustc_expand, BuildStage,
    CopyAction, CopyEvent,
};

fn some(text: &str) -> Option<String> {
    Some(text.to_string())
}

#[test]
fn the_plain_files_are_copied() {
    let events = vec![
        CopyEvent::Opened,
        CopyEvent::Entry { file: "a", is_file: true },
        CopyEvent::Copied,
        CopyEvent::Entry { file: "dir", is_file: false },
        CopyEvent::Entry { file: "b", is_file: true },
        CopyEvent::Copied,
        CopyEvent::End,
    ];
    let mut copied: Vec<&str> = Vec::new();
    let mut finished = false;
    for event in events {
        let action: CopyAction<&str, String> = copy_files(event);
        match action {
            CopyAction::Copy(file) => copied.push(file),
            CopyAction::NextEntry => (),
            CopyAction::Finished(result) => {
                assert_eq!(result, Ok(()));
                finished = true;
            }
        }
    }
    assert_eq!(copied, vec!["a", "b"]);
    assert!(finished);
}

#[test]
fn a_failure_ends_the_copying() {
    let action: CopyAction<&str, &str> = copy_files(CopyEvent::Failed("denied"));
    assert!(matches!(action, CopyAction::Finished(Err("denied"))));
}

#[test]
fn files_are_copied_only_within_an_expansion() {
    let stage = skip_rebuild_if_recursive_rustc_expand(None, some("pre"));
    assert!(matches!(stage, BuildStage::Outside));
    assert_eq!(stage.cargo_line(), None);

    let stage = skip_rebuild_if_recursive_rustc_expand(some("out"), None);
    assert!(matches!(stage, BuildStage::BuildScript));
    assert_eq!(
        stage.cargo_line(),
        Some("cargo:rerun-if-env-changed=FRB_PRE_EXPAND_BUILD_OUT_DIR")
    );

    let stage = skip_rebuild_if_recursive_rustc_expand(some("out"), some("pre"));
    assert!(stage.cargo_line().is_some());
    match stage {
        BuildStage::Expansion { from, to } => assert_eq!((from.as_str(), to.as_str()), ("pre", "out")),
        _ => panic!("not within an expansion"),
    }
}

#[test]
fn a_failed_copy_names_both_directories() {
    assert_eq!(
        copy_failure_message("/pre", "/out", "no space"),
        "Failed to copy files from FRB_PRE_EXPAND_BUILD_OUT_DIR (/pre) to OUT_DIR (/out): no space"
    );
}
