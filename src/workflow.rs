use vstd::prelude::*;
use crate::config::Config;
use crate::error::AddError;
use crate::json::JsonValue;
use crate::layout::{choose_source_dir, get_src_directory};
use crate::partition::{add_submodule_to_rojo, added, can_patch};
use crate::resolve::DependencySpec;

verus! {

/// The steps of adding one dependency, in the order they run. The steps up to
/// `Finalize` act on the version-control repository.
#[derive(Clone, Copy, Debug, PartialEq, Eq, Structural)]
pub enum Stage {
    /// Register a submodule record at the destination.
    Register,
    /// Open the registered submodule as a repository.
    Open,
    /// Fetch the default branch from the submodule's origin.
    Fetch,
    /// Resolve the fetched branch tip to a commit.
    ResolveRef,
    /// Create or reset the local default branch at that commit.
    Branch,
    /// Force the commit's tree into the submodule's working directory.
    Checkout,
    /// Point the submodule's head at the local default branch.
    SetHead,
    /// Record the submodule as a tracked dependency.
    Finalize,
    /// Find the dependency's source directory.
    DetectLayout,
    /// Register the dependency's partition in the downstream configuration.
    Patch,
    /// Nothing is left to do, whether the dependency was added or not.
    Done,
}

/// Position of a stage in the order the steps run.
pub open spec fn stage_rank(s: Stage) -> nat {
    match s {
        Stage::Register => 0,
        Stage::Open => 1,
        Stage::Fetch => 2,
        Stage::ResolveRef => 3,
        Stage::Branch => 4,
        Stage::Checkout => 5,
        Stage::SetHead => 6,
        Stage::Finalize => 7,
        Stage::DetectLayout => 8,
        Stage::Patch => 9,
        Stage::Done => 10,
    }
}

/// Whether `s` is a step on the version-control repository.
pub open spec fn is_vcs_stage(s: Stage) -> bool {
    stage_rank(s) <= 7
}

/// The stage after `s`.
pub fn next_stage(s: Stage) -> (r: Stage)
    ensures
        stage_rank(r) == if stage_rank(s) == 10 { 10 } else { stage_rank(s) + 1 },
{
    match s {
        Stage::Register => Stage::Open,
        Stage::Open => Stage::Fetch,
        Stage::Fetch => Stage::ResolveRef,
        Stage::ResolveRef => Stage::Branch,
        Stage::Branch => Stage::Checkout,
        Stage::Checkout => Stage::SetHead,
        Stage::SetHead => Stage::Finalize,
        Stage::Finalize => Stage::DetectLayout,
        Stage::DetectLayout => Stage::Patch,
        Stage::Patch => Stage::Done,
        Stage::Done => Stage::Done,
    }
}

/// The error that reports a failure of the version-control step `s`.
pub open spec fn vcs_error(s: Stage) -> AddError {
    match s {
        Stage::Register => AddError::SubmoduleCreateFailed,
        Stage::Open => AddError::OpenFailed,
        Stage::Fetch => AddError::FetchFailed,
        Stage::ResolveRef => AddError::RefResolutionFailed,
        Stage::Branch => AddError::BranchFailed,
        Stage::Checkout => AddError::CheckoutFailed,
        Stage::SetHead => AddError::SetHeadFailed,
        _ => AddError::FinalizeFailed,
    }
}

/// The error that reports a failure of the version-control step `s`.
pub fn stage_error(s: Stage) -> (r: AddError)
    ensures
        r == vcs_error(s),
{
    match s {
        Stage::Register => AddError::SubmoduleCreateFailed,
        Stage::Open => AddError::OpenFailed,
        Stage::Fetch => AddError::FetchFailed,
        Stage::ResolveRef => AddError::RefResolutionFailed,
        Stage::Branch => AddError::BranchFailed,
        Stage::Checkout => AddError::CheckoutFailed,
        Stage::SetHead => AddError::SetHeadFailed,
        _ => AddError::FinalizeFailed,
    }
}

/// The adding of one dependency, step by step. The caller performs the step
/// that `stage` names and reports how it went; the job decides what comes
/// next. A failed step ends the job, so the downstream configuration is only
/// touched after every version-control step has succeeded.
pub struct AddJob {
    pub dep: DependencySpec,
    /// The name to synchronize under, when it is not the dependency's name.
    pub target_name: Option<String>,
    /// The source directory to fall back on when none is detected.
    pub override_dir: Option<String>,
    /// The next step to perform.
    pub stage: Stage,
    /// The source directory, once it is known.
    pub src_dir: Option<String>,
    /// Why the job failed, if it did.
    pub failure: Option<AddError>,
}

impl AddJob {
    /// Whether the job's fields agree with its stage: a source directory is
    /// known exactly from the patch step on (unless the job failed), and only
    /// a finished job can have failed.
    pub open spec fn wf(&self) -> bool {
        &&& (self.failure is Some ==> self.stage == Stage::Done)
        &&& (stage_rank(self.stage) < 9 ==> self.src_dir is None)
        &&& (self.stage == Stage::Patch ==> self.src_dir is Some)
    }

    /// A job that starts by registering the submodule.
    pub fn new(dep: DependencySpec, target_name: Option<String>, override_dir: Option<String>) -> (r: AddJob)
        ensures
            r.wf(),
            r.stage == Stage::Register,
            r.failure is None,
            r.dep == dep,
            r.target_name == target_name,
            r.override_dir == override_dir,
    {
        AddJob { dep, target_name, override_dir, stage: Stage::Register, src_dir: None, failure: None }
    }

    /// Whether the job has nothing left to do.
    pub fn is_finished(&self) -> (r: bool)
        ensures
            r == (self.stage == Stage::Done),
    {
        matches!(self.stage, Stage::Done)
    }

    /// Records how the current version-control step went: on success the next
    /// step follows, on failure the job ends with that step's error.
    pub fn vcs_step_done(&mut self, ok: bool)
        requires
            old(self).wf(),
            is_vcs_stage(old(self).stage),
        ensures
            final(self).wf(),
            final(self).dep == old(self).dep,
            final(self).target_name == old(self).target_name,
            final(self).override_dir == old(self).override_dir,
            final(self).src_dir is None,
            ok ==> stage_rank(final(self).stage) == stage_rank(old(self).stage) + 1,
            ok ==> final(self).failure is None,
            !ok ==> final(self).stage == Stage::Done,
            !ok ==> final(self).failure == Some(vcs_error(old(self).stage)),
    {
        if ok {
            self.stage = next_stage(self.stage);
        } else {
            self.failure = Some(stage_error(self.stage));
            self.stage = Stage::Done;
        }
    }

    /// The name the dependency is synchronized under.
    pub open spec fn sync_name(&self) -> Seq<char> {
        match self.target_name {
            Some(t) => t@,
            None => self.dep.name@,
        }
    }

    /// The downstream configuration `doc` with this dependency's partition
    /// registered in it.
    pub fn patch_config(&self, cfg: &Config, doc: JsonValue) -> (r: Result<JsonValue, AddError>)
        requires
            self.wf(),
            self.stage == Stage::Patch,
        ensures
            r is Ok <==> can_patch(doc),
            r is Err ==> r == Err::<JsonValue, AddError>(AddError::MalformedConfig),
            r matches Ok(n) ==> added(
                doc,
                n,
                cfg.lib_target@,
                cfg.lib_dir@,
                self.dep.name@,
                self.src_dir->Some_0@,
                self.sync_name(),
            ),
    {
        let src_dir = match &self.src_dir {
            Some(d) => d.as_str(),
            None => "",
        };
        let sync_name = match &self.target_name {
            Some(t) => t.as_str(),
            None => self.dep.name.as_str(),
        };
        add_submodule_to_rojo(cfg, doc, self.dep.name.as_str(), src_dir, sync_name)
    }

    /// Records whether the downstream configuration was patched and written;
    /// the job is then finished.
    pub fn patch_done(&mut self, outcome: Result<(), AddError>)
        requires
            old(self).wf(),
            old(self).stage == Stage::Patch,
        ensures
            final(self).wf(),
            final(self).stage == Stage::Done,
            final(self).dep == old(self).dep,
            final(self).src_dir == old(self).src_dir,
            final(self).failure == match outcome {
                Ok(()) => None,
                Err(e) => Some(e),
            },
    {
        self.stage = Stage::Done;
        if let Err(e) = outcome {
            self.failure = Some(e);
        }
    }

    /// How the finished job went.
    pub fn result(&self) -> (r: Result<(), AddError>)
        ensures
            r == match self.failure {
                None => Ok::<(), AddError>(()),
                Some(e) => Err(e),
            },
    {
        match self.failure {
            None => Ok(()),
            Some(e) => Err(e),
        }
    }

    /// The checkout a failed job leaves behind for the caller to remove: the
    /// destination, when the submodule was registered before a later step
    /// failed. Nothing is rolled back by the job itself.
    pub fn leftover_submodule(&self) -> (r: Option<String>)
        ensures
            r matches Some(p) ==> p@ == self.dep.destination_path@,
            r is Some <==> (self.failure is Some && self.failure != Some(
                AddError::SubmoduleCreateFailed,
            )),
    {
        match self.failure {
            None => None,
            Some(AddError::SubmoduleCreateFailed) => None,
            Some(_) => Some(self.dep.destination_path.clone()),
        }
    }

    /// Records which of the two conventional source directories exist in the
    /// checkout, and settles the source directory.
    pub fn layout_probed(&mut self, src_is_dir: bool, lib_is_dir: bool)
        requires
            old(self).wf(),
            old(self).stage == Stage::DetectLayout,
        ensures
            final(self).wf(),
            final(self).dep == old(self).dep,
            final(self).target_name == old(self).target_name,
            final(self).override_dir == old(self).override_dir,
            src_is_dir ==> (final(self).src_dir matches Some(d) && d@ == "src"@),
            !src_is_dir && lib_is_dir ==> (final(self).src_dir matches Some(d) && d@ == "lib"@),
            !src_is_dir && !lib_is_dir ==> match old(self).override_dir {
                Some(o) => final(self).src_dir == Some(o),
                None => final(self).failure == Some(AddError::CannotInferSourceDir),
            },
            final(self).src_dir is Some <==> final(self).stage == Stage::Patch,
            final(self).src_dir is None <==> final(self).failure is Some,
    {
        let detected = get_src_directory(src_is_dir, lib_is_dir);
        let fallback = self.override_dir.clone();
        match choose_source_dir(detected, fallback) {
            Ok(d) => {
                self.src_dir = Some(d);
                self.stage = Stage::Patch;
            },
            Err(e) => {
                self.failure = Some(e);
                self.stage = Stage::Done;
            },
        }
    }
}

} // verus!
