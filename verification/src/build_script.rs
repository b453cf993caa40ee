//! What a build script does in the middle of a macro expansion: it takes over the files that the
//! outer run has generated.

use vstd::prelude::*;
use vstd::string::*;

verus! {

/// What has happened while files are copied.
pub enum CopyEvent<F, E> {
    /// The source directory was opened.
    Opened,
    /// There is an entry in it.
    Entry { file: F, is_file: bool },
    /// There are no more entries.
    End,
    /// A file was copied.
    Copied,
    /// Something failed.
    Failed(E),
}

/// What to do next to copy files.
pub enum CopyAction<F, E> {
    /// Look at the next entry.
    NextEntry,
    /// Copy the file into the target directory, under its own name.
    Copy(F),
    /// It is over.
    Finished(Result<(), E>),
}

/// What follows `event`: a plain file is copied, the end and the first failure end it all, and
/// everything else leads on to the next entry.
pub open spec fn copy_action<F, E>(event: CopyEvent<F, E>) -> CopyAction<F, E> {
    match event {
        CopyEvent::Entry { file, is_file } if is_file => CopyAction::Copy(file),
        CopyEvent::End => CopyAction::Finished(Ok(())),
        CopyEvent::Failed(error) => CopyAction::Finished(Err(error)),
        _ => CopyAction::NextEntry,
    }
}

/// Copies the plain files of a directory, and nothing below it, until one cannot be copied.
pub fn copy_files<F, E>(event: CopyEvent<F, E>) -> (action: CopyAction<F, E>)
    ensures
        action == copy_action(event),
{
    match event {
        CopyEvent::Opened => CopyAction::NextEntry,
        CopyEvent::Entry { file, is_file } => if is_file {
            CopyAction::Copy(file)
        } else {
            CopyAction::NextEntry
        },
        CopyEvent::End => CopyAction::Finished(Ok(())),
        CopyEvent::Copied => CopyAction::NextEntry,
        CopyEvent::Failed(error) => CopyAction::Finished(Err(error)),
    }
}

/// Where a run stands between the cargo build and a macro expansion within it.
pub enum BuildStage {
    /// In no build script.
    Outside,
    /// In a build script.
    BuildScript,
    /// In a build script within the macro expansion of another, whose files are to be copied.
    Expansion { from: String, to: String },
}

impl BuildStage {
    /// What to tell cargo.
    pub fn cargo_line(&self) -> (line: Option<&'static str>)
        ensures
            match line {
                Some(text) => !(self is Outside) && text@
                    == "cargo:rerun-if-env-changed=FRB_PRE_EXPAND_BUILD_OUT_DIR"@,
                None => self is Outside,
            },
    {
        match self {
            BuildStage::Outside => None,
            _ => Some("cargo:rerun-if-env-changed=FRB_PRE_EXPAND_BUILD_OUT_DIR"),
        }
    }
}

/// Tells from the variables `OUT_DIR` and `FRB_PRE_EXPAND_BUILD_OUT_DIR` whether to copy what is
/// there in place of generating it again.
pub fn skip_rebuild_if_recursive_rustc_expand(
    out_dir: Option<String>,
    pre_expand_out_dir: Option<String>,
) -> (stage: BuildStage)
    ensures
        match (out_dir, pre_expand_out_dir) {
            (None, _) => stage is Outside,
            (Some(_), None) => stage is BuildScript,
            (Some(to), Some(from)) => stage == (BuildStage::Expansion { from, to }),
        },
{
    match (out_dir, pre_expand_out_dir) {
        (None, _) => BuildStage::Outside,
        (Some(_), None) => BuildStage::BuildScript,
        (Some(to), Some(from)) => BuildStage::Expansion { from, to },
    }
}

/// What is said when the files could not be copied.
pub fn copy_failure_message(from: &str, to: &str, error: &str) -> (message: String)
    ensures
        message@ == "Failed to copy files from FRB_PRE_EXPAND_BUILD_OUT_DIR ("@ + from@
            + ") to OUT_DIR ("@ + to@ + "): "@ + error@,
{
    "Failed to copy files from FRB_PRE_EXPAND_BUILD_OUT_DIR (".to_string().concat(from).concat(
        ") to OUT_DIR (",
    ).concat(to).concat("): ").concat(error)
}

/// The plain files among the entries in `events`.
pub open spec fn plain_files<F, E>(events: Seq<CopyEvent<F, E>>) -> Seq<F>
    decreases events.len(),
{
    if events.len() == 0 {
        seq![]
    } else {
        match events.last() {
            CopyEvent::Entry { file, is_file } if is_file => plain_files(events.drop_last()).push(
                file,
            ),
            _ => plain_files(events.drop_last()),
        }
    }
}

/// The files that `actions` copy.
pub open spec fn copied_files<F, E>(actions: Seq<CopyAction<F, E>>) -> Seq<F>
    decreases actions.len(),
{
    if actions.len() == 0 {
        seq![]
    } else {
        match actions.last() {
            CopyAction::Copy(file) => copied_files(actions.drop_last()).push(file),
            _ => copied_files(actions.drop_last()),
        }
    }
}

/// The files that are copied are the plain files among the entries, each once and in the order in
/// which they are listed.
pub proof fn plain_files_are_copied<F, E>(
    events: Seq<CopyEvent<F, E>>,
    actions: Seq<CopyAction<F, E>>,
)
    requires
        events.len() == actions.len(),
        forall|i: int| 0 <= i < events.len() ==> #[trigger] actions[i] == copy_action(events[i]),
    ensures
        copied_files(actions) == plain_files(events),
    decreases events.len(),
{
    if events.len() > 0 {
        assert forall|i: int| 0 <= i < events.len() - 1 implies #[trigger] actions.drop_last()[i]
            == copy_action(events.drop_last()[i]) by {
            assert(actions[i] == copy_action(events[i]));
        }
        plain_files_are_copied(events.drop_last(), actions.drop_last());
        assert(actions[events.len() - 1] == copy_action(events.last()));
    }
}

} // verus!
