//! Replacing an array's directory by its single-chunk successor.
//!
//! The replacement is built in full beside the original before the original
//! is touched. Nothing here reaches the file system: the steps are computed,
//! in the order in which they have to be carried out, and whoever carries
//! them out stops at the first one that fails.

use crate::path::{child_path, join_path, within};
use vstd::prelude::*;

verus! {

/// The directory, relative to the working directory, in which the
/// replacement is built.
pub open spec fn staging_dir() -> Seq<char> {
    "./new_array_dir.zarr"@
}

/// The name, relative to the working directory, under which the original is
/// kept while the replacement takes its place.
pub open spec fn temporary_dir() -> Seq<char> {
    "./tmp_array.zarr"@
}

/// The name of the descriptor file inside an array's directory.
pub open spec fn descriptor_name() -> Seq<char> {
    ".zarray"@
}

/// The name of the only chunk file of a single-chunk array.
pub open spec fn single_chunk_name() -> Seq<char> {
    "0"@
}

/// One operation on the file system.
#[derive(Debug, PartialEq, Eq)]
pub enum FsStep {
    /// Create the directory `path`, which must not exist yet.
    CreateDir { path: String },
    /// Create the file `path` and fill it with `contents`.
    WriteFile { path: String, contents: Vec<u8> },
    /// Give the directory `from` the name `to`.
    Rename { from: String, to: String },
    /// Delete the directory `path` and all that is in it.
    RemoveDirAll { path: String },
}

/// An operation on the file system, with paths as sequences of characters
/// and contents as a sequence of bytes.
pub enum FsStepView {
    CreateDir { path: Seq<char> },
    WriteFile { path: Seq<char>, contents: Seq<u8> },
    Rename { from: Seq<char>, to: Seq<char> },
    RemoveDirAll { path: Seq<char> },
}

impl View for FsStep {
    type V = FsStepView;

    open spec fn view(&self) -> FsStepView {
        match *self {
            FsStep::CreateDir { path } => FsStepView::CreateDir { path: path@ },
            FsStep::WriteFile { path, contents } => FsStepView::WriteFile {
                path: path@,
                contents: contents@,
            },
            FsStep::Rename { from, to } => FsStepView::Rename { from: from@, to: to@ },
            FsStep::RemoveDirAll { path } => FsStepView::RemoveDirAll { path: path@ },
        }
    }
}

/// The views of a list of steps, in the same order.
pub open spec fn steps_view(steps: Seq<FsStep>) -> Seq<FsStepView> {
    steps.map_values(|step: FsStep| step@)
}

/// The steps that put a single-chunk array in the place of the array at
/// `array_path`: build the replacement in the staging directory (the
/// directory, its one chunk file, its descriptor), move the original aside,
/// move the replacement in, delete the original.
pub open spec fn swap_plan(
    array_path: Seq<char>,
    single_chunk: Seq<u8>,
    descriptor: Seq<u8>,
) -> Seq<FsStepView> {
    seq![
        FsStepView::CreateDir { path: staging_dir() },
        FsStepView::WriteFile {
            path: child_path(staging_dir(), single_chunk_name()),
            contents: single_chunk,
        },
        FsStepView::WriteFile {
            path: child_path(staging_dir(), descriptor_name()),
            contents: descriptor,
        },
        FsStepView::Rename { from: array_path, to: temporary_dir() },
        FsStepView::Rename { from: staging_dir(), to: array_path },
        FsStepView::RemoveDirAll { path: temporary_dir() },
    ]
}

/// Where a failed step leaves the array.
#[derive(Debug, Clone, Copy, PartialEq, Eq, Structural)]
pub enum Aftermath {
    /// The original array is where it was, whole.
    OriginalUntouched,
    /// The original may be gone from its path without the replacement being
    /// there: somebody has to look.
    ManualRecovery,
    /// The replacement is in place; the original lingers under its
    /// temporary name.
    StrayTemporary,
}

/// Where the array stands when step number `step` of a plan, counted from
/// zero, has failed and the steps before it have been carried out. While the
/// replacement is being built the original is not touched; a failed rename
/// calls for a person; when only the deletion fails, the replacement is
/// already in place. A plan has six steps, and there is no answer for a
/// seventh.
pub open spec fn aftermath(step: int) -> Option<Aftermath> {
    if 0 <= step < 3 {
        Some(Aftermath::OriginalUntouched)
    } else if 3 <= step < 5 {
        Some(Aftermath::ManualRecovery)
    } else if step == 5 {
        Some(Aftermath::StrayTemporary)
    } else {
        None
    }
}

impl FsStepView {
    /// The step creates, fills, moves or deletes something in or below the
    /// directory `dir`, or the directory itself.
    pub open spec fn touches(self, dir: Seq<char>) -> bool {
        match self {
            FsStepView::CreateDir { path } => within(path, dir),
            FsStepView::WriteFile { path, .. } => within(path, dir),
            FsStepView::Rename { from, to } => within(from, dir) || within(to, dir),
            FsStepView::RemoveDirAll { path } => within(path, dir),
        }
    }
}

/// No step of `plan` up to and including step number `last` touches the
/// directory `dir`.
pub open spec fn spared_through(plan: Seq<FsStepView>, dir: Seq<char>, last: int) -> bool {
    forall|j: int| 0 <= j <= last && j < plan.len() ==> !(#[trigger] plan[j]).touches(dir)
}

/// While the replacement is built the original is left alone. Where neither
/// the array nor the staging directory lies inside the other, a failed step
/// is said to leave the original untouched exactly when neither that step
/// nor any step before it touches anything of the array: that is so for the
/// three steps that build the replacement, and the fourth is the first that
/// touches the array.
pub proof fn lemma_staging_spares_original(
    array_path: Seq<char>,
    single_chunk: Seq<u8>,
    descriptor: Seq<u8>,
)
    requires
        !within(staging_dir(), array_path),
        !within(array_path, staging_dir()),
    ensures
        swap_plan(array_path, single_chunk, descriptor).len() == 6,
        forall|i: int|
            0 <= i < 6 ==> (aftermath(i) == Some(Aftermath::OriginalUntouched)
                <==> #[trigger] spared_through(
                swap_plan(array_path, single_chunk, descriptor),
                array_path,
                i,
            )),
        spared_through(swap_plan(array_path, single_chunk, descriptor), array_path, 2),
        swap_plan(array_path, single_chunk, descriptor)[3].touches(array_path),
{
    reveal_strlit("/");
    reveal_strlit("0");
    reveal_strlit(".zarray");
    let plan = swap_plan(array_path, single_chunk, descriptor);
    let staging = staging_dir();
    let below = array_path + "/"@;
    assert forall|name: Seq<char>|
        name == single_chunk_name() || name == descriptor_name() implies !within(
        #[trigger] child_path(staging, name),
        array_path,
    ) by {
        let file = child_path(staging, name);
        if file == array_path {
            // The array would lie below the staging directory.
            assert((staging + "/"@).is_prefix_of(array_path));
        }
        if below.is_prefix_of(file) {
            if below.len() <= staging.len() {
                // The staging directory would lie below the array.
                assert(staging.subrange(0, below.len() as int) =~= below);
            } else if below.len() == staging.len() + 1 {
                // The two would be the same directory.
                assert(array_path =~= staging) by {
                    assert forall|k: int| 0 <= k < staging.len() implies array_path[k]
                        == staging[k] by {
                        assert(below[k] == array_path[k]);
                    }
                }
            } else {
                // The array would lie below the staging directory.
                assert((staging + "/"@).is_prefix_of(array_path)) by {
                    assert forall|k: int| 0 <= k < staging.len() + 1 implies array_path[k] == (
                    staging + "/"@)[k] by {
                        assert(below[k] == array_path[k]);
                    }
                }
            }
        }
    }
    assert(plan[1] == (FsStepView::WriteFile {
        path: child_path(staging, single_chunk_name()),
        contents: single_chunk,
    }));
    assert(plan[2] == (FsStepView::WriteFile {
        path: child_path(staging, descriptor_name()),
        contents: descriptor,
    }));
    assert(spared_through(plan, array_path, 2));
    assert(plan[3].touches(array_path));
}

/// Says where the array stands when step number `step` of a plan, counted
/// from zero, has failed.
pub fn failure_aftermath(step: usize) -> (r: Option<Aftermath>)
    ensures
        r == aftermath(step as int),
{
    if step < 3 {
        Some(Aftermath::OriginalUntouched)
    } else if step < 5 {
        Some(Aftermath::ManualRecovery)
    } else if step == 5 {
        Some(Aftermath::StrayTemporary)
    } else {
        None
    }
}

/// Lays out the steps that replace the array at `array_path` by one whose
/// only chunk file holds `single_chunk` and whose descriptor file holds
/// `descriptor`.
pub fn plan_swap(array_path: &String, single_chunk: Vec<u8>, descriptor: Vec<u8>) -> (plan: Vec<
    FsStep,
>)
    ensures
        steps_view(plan@) == swap_plan(array_path@, single_chunk@, descriptor@),
{
    let mut plan: Vec<FsStep> = Vec::new();
    plan.push(FsStep::CreateDir { path: String::from_str("./new_array_dir.zarr") });
    plan.push(
        FsStep::WriteFile { path: join_path("./new_array_dir.zarr", "0"), contents: single_chunk },
    );
    plan.push(
        FsStep::WriteFile {
            path: join_path("./new_array_dir.zarr", ".zarray"),
            contents: descriptor,
        },
    );
    plan.push(
        FsStep::Rename { from: array_path.clone(), to: String::from_str("./tmp_array.zarr") },
    );
    plan.push(
        FsStep::Rename { from: String::from_str("./new_array_dir.zarr"), to: array_path.clone() },
    );
    plan.push(FsStep::RemoveDirAll { path: String::from_str("./tmp_array.zarr") });
    plan
}

} // verus!
