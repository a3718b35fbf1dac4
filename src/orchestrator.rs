//! Fanning a request out into one job per target and folding the jobs'
//! outcomes back into one result.
use crate::asset::{
    classify_and_validate, classify_bytes, decoded_dimensions, dimensions_in_range, is_decodable_format,
    sniffed_format, icon_format, jpeg_signature, png_signature, AssetKind,
    Icon, IconFormat,
};
use crate::paths::{is_contained, is_plain_name, join, stays_inside, with_extension};
use crate::platform::{parse_platform, Platform};
use crate::tools::{
    call_view, is_compile_plan, is_conversion_plan, plan_compile, plan_conversion, texts, CompilePlan,
    ConversionPlan, JobError, Metadata,
};
use vstd::prelude::*;

verus! {

/// Why a whole request is refused.
#[derive(Clone, Copy, Debug, PartialEq, Eq, Structural)]
pub enum BuildError {
    /// The request lists no target.
    NoTargets,
    /// The upload holds no file or no destination.
    EmptyUpload,
    /// The upload's files and destinations differ in number.
    MismatchedUpload,
    /// No job produced an output.
    NothingProduced,
    /// The outputs could not be packed into an archive.
    ArchiveFailed,
}

/// The distinct platforms that `ts` names, in order of first mention.
pub open spec fn planned_platforms(ts: Seq<Seq<char>>) -> Seq<Platform>
    decreases ts.len(),
{
    if ts.len() == 0 {
        Seq::empty()
    } else {
        let prev = planned_platforms(ts.drop_last());
        match parse_platform(ts.last()) {
            Some(p) => if prev.contains(p) {
                prev
            } else {
                prev.push(p)
            },
            None => prev,
        }
    }
}

/// The distinct entries of `ts` that name no platform, in order of first mention.
pub open spec fn dropped_targets(ts: Seq<Seq<char>>) -> Seq<Seq<char>>
    decreases ts.len(),
{
    if ts.len() == 0 {
        Seq::empty()
    } else {
        let prev = dropped_targets(ts.drop_last());
        match parse_platform(ts.last()) {
            Some(_) => prev,
            None => if prev.contains(ts.last()) {
                prev
            } else {
                prev.push(ts.last())
            },
        }
    }
}

/// The jobs a request's target list turns into.
pub struct TargetPlan {
    /// One entry per distinct platform, each of which gets a job.
    pub platforms: Vec<Platform>,
    /// Distinct entries that name no platform: they get no job and count
    /// as failed targets.
    pub dropped: Vec<String>,
}

impl TargetPlan {
    /// How many targets the request asked for after de-duplication.
    pub open spec fn requested(&self) -> nat {
        self.platforms@.len() + self.dropped@.len()
    }
}

fn contains_platform(v: &Vec<Platform>, p: Platform) -> (r: bool)
    ensures
        r == v@.contains(p),
{
    let mut i: usize = 0;
    while i < v.len()
        invariant
            forall|j: int| 0 <= j < i ==> v@[j] != p,
        decreases v.len() - i,
    {
        if v[i] == p {
            return true;
        }
        i = i + 1;
    }
    false
}

fn contains_text(v: &Vec<String>, s: &String) -> (r: bool)
    ensures
        r == texts(v@).contains(s@),
{
    let mut i: usize = 0;
    while i < v.len()
        invariant
            forall|j: int| 0 <= j < i ==> v@[j]@ != s@,
        decreases v.len() - i,
    {
        if v[i] == *s {
            assert(texts(v@)[i as int] == s@);
            return true;
        }
        i = i + 1;
    }
    proof {
        if texts(v@).contains(s@) {
            let j = choose|j: int| 0 <= j < texts(v@).len() && texts(v@)[j] == s@;
            assert(v@[j]@ == s@);
        }
    }
    false
}

/// De-duplicates a target list and splits it into platforms to build and
/// entries that name none. Only an empty list is refused.
pub fn plan_targets(targets: &Vec<String>) -> (r: Result<TargetPlan, BuildError>)
    ensures
        targets@.len() == 0 <==> r is Err,
        r is Err ==> r == Err::<TargetPlan, BuildError>(BuildError::NoTargets),
        r matches Ok(plan) ==> plan.platforms@ == planned_platforms(texts(targets@))
            && texts(plan.dropped@) == dropped_targets(texts(targets@)),
{
    if targets.len() == 0 {
        return Err(BuildError::NoTargets);
    }
    let ghost ts = texts(targets@);
    let mut platforms: Vec<Platform> = Vec::new();
    let mut dropped: Vec<String> = Vec::new();
    let mut i: usize = 0;
    while i < targets.len()
        invariant
            ts == texts(targets@),
            i <= targets@.len(),
            platforms@ == planned_platforms(ts.take(i as int)),
            texts(dropped@) == dropped_targets(ts.take(i as int)),
        decreases targets.len() - i,
    {
        let t = &targets[i];
        proof {
            let next = ts.take(i + 1);
            assert(next.drop_last() =~= ts.take(i as int));
            assert(next.last() == t@);
        }
        match Platform::from_str(t.as_str()) {
            Ok(p) => {
                if !contains_platform(&platforms, p) {
                    platforms.push(p);
                }
            },
            Err(_) => {
                if !contains_text(&dropped, t) {
                    let ghost before = dropped@;
                    dropped.push(t.clone());
                    assert(texts(dropped@) =~= texts(before).push(t@));
                }
            },
        }
        i = i + 1;
    }
    assert(ts.take(targets@.len() as int) =~= ts);
    Ok(TargetPlan { platforms, dropped })
}

/// Without the entry at `i`, which names no platform, a target list plans
/// the same platforms: such an entry is dropped and fails nothing else.
pub proof fn lemma_unknown_target_dropped(ts: Seq<Seq<char>>, i: int)
    requires
        0 <= i < ts.len(),
        parse_platform(ts[i]) is None,
    ensures
        planned_platforms(ts) == planned_platforms(ts.remove(i)),
    decreases ts.len(),
{
    if i == ts.len() - 1 {
        assert(ts.remove(i) =~= ts.drop_last());
    } else {
        lemma_unknown_target_dropped(ts.drop_last(), i);
        assert(ts.remove(i).drop_last() =~= ts.drop_last().remove(i));
        assert(ts.remove(i).last() == ts.last());
    }
}

/// Exactly one job per distinct platform: the planned platforms are those
/// that some entry of the target list names (in any letter case), each of
/// them once.
pub proof fn lemma_one_job_per_platform(ts: Seq<Seq<char>>)
    ensures
        forall|p: Platform|
            planned_platforms(ts).contains(p) <==> exists|i: int| 0 <= i < ts.len() && parse_platform(ts[i]) == Some(p),
        planned_platforms(ts).no_duplicates(),
    decreases ts.len(),
{
    if ts.len() > 0 {
        let init = ts.drop_last();
        lemma_one_job_per_platform(init);
        let prev = planned_platforms(init);
        assert forall|p: Platform|
            planned_platforms(ts).contains(p) <==> exists|i: int| 0 <= i < ts.len() && parse_platform(ts[i]) == Some(p) by {
            if planned_platforms(ts).contains(p) {
                if prev.contains(p) {
                    let i = choose|i: int| 0 <= i < init.len() && parse_platform(init[i]) == Some(p);
                    assert(ts[i] == init[i]);
                } else {
                    let j = choose|j: int| 0 <= j < planned_platforms(ts).len() && planned_platforms(ts)[j] == p;
                    assert(parse_platform(ts[ts.len() - 1]) == Some(p));
                }
            }
            if exists|i: int| 0 <= i < ts.len() && parse_platform(ts[i]) == Some(p) {
                let i = choose|i: int| 0 <= i < ts.len() && parse_platform(ts[i]) == Some(p);
                if i < ts.len() - 1 {
                    assert(init[i] == ts[i]);
                    assert(prev.contains(p));
                    match parse_platform(ts.last()) {
                        Some(q) => if !prev.contains(q) {
                            let k = choose|k: int| 0 <= k < prev.len() && prev[k] == p;
                            assert(prev.push(q)[k] == p);
                        },
                        None => {},
                    }
                } else {
                    match parse_platform(ts.last()) {
                        Some(q) => if !prev.contains(q) {
                            assert(prev.push(q)[prev.len() as int] == q);
                        },
                        None => {},
                    }
                }
            }
        }
        match parse_platform(ts.last()) {
            Some(q) => if !prev.contains(q) {
                assert(prev.push(q).no_duplicates()) by {
                    assert forall|a: int, b: int| 0 <= a < b < prev.len() + 1 implies prev.push(q)[a] != prev.push(q)[b] by {
                        if b == prev.len() {
                            assert(prev[a] == prev.push(q)[a]);
                        }
                    }
                }
            },
            None => {},
        }
    }
}

/// Checks the shape of an asset upload: as many destinations as files,
/// and at least one of each.
pub fn check_upload(files: usize, paths: usize) -> (r: Result<(), BuildError>)
    ensures
        (files == 0 || paths == 0) ==> r == Err::<(), BuildError>(BuildError::EmptyUpload),
        (files > 0 && paths > 0 && files != paths) ==> r == Err::<(), BuildError>(
            BuildError::MismatchedUpload,
        ),
        (files > 0 && files == paths) ==> r is Ok,
{
    if files == 0 || paths == 0 {
        Err(BuildError::EmptyUpload)
    } else if files != paths {
        Err(BuildError::MismatchedUpload)
    } else {
        Ok(())
    }
}

/// A file a job produced.
pub struct Output {
    /// Its path below the request's artifact directory.
    pub path: String,
    pub bytes: Vec<u8>,
}

/// How one job ended.
pub enum JobOutcome {
    Produced(Output),
    Failed(JobError),
}

/// The overall verdict on a request.
#[derive(Clone, Copy, Debug, PartialEq, Eq, Structural)]
pub enum BuildStatus {
    /// Every requested target produced its output.
    Complete,
    /// Some, but not all, requested targets did.
    Partial,
    /// None did.
    Failed,
}

/// The verdict for `succeeded` outputs out of `requested` targets.
pub open spec fn status_of(requested: nat, succeeded: nat) -> BuildStatus {
    if succeeded == 0 {
        BuildStatus::Failed
    } else if succeeded >= requested {
        BuildStatus::Complete
    } else {
        BuildStatus::Partial
    }
}

/// An output as a path and its bytes.
pub open spec fn output_view(o: Output) -> (Seq<char>, Seq<u8>) {
    (o.path@, o.bytes@)
}

/// The views of a list of outputs.
pub open spec fn outputs_view(v: Seq<Output>) -> Seq<(Seq<char>, Seq<u8>)> {
    v.map_values(|o: Output| output_view(o))
}

/// A produced file that may be stored: non-empty, and inside the request's directory.
pub open spec fn is_storable(o: Output) -> bool {
    o.bytes@.len() > 0 && stays_inside(o.path@)
}

/// The storable outputs among `os`, in the order the jobs finished.
pub open spec fn produced_outputs(os: Seq<JobOutcome>) -> Seq<(Seq<char>, Seq<u8>)>
    decreases os.len(),
{
    if os.len() == 0 {
        Seq::empty()
    } else {
        let prev = produced_outputs(os.drop_last());
        match os.last() {
            JobOutcome::Produced(o) => if is_storable(o) {
                prev.push(output_view(o))
            } else {
                prev
            },
            JobOutcome::Failed(_) => prev,
        }
    }
}

/// Why each failed job failed, in the order the jobs finished.
pub open spec fn failure_reasons(os: Seq<JobOutcome>) -> Seq<JobError>
    decreases os.len(),
{
    if os.len() == 0 {
        Seq::empty()
    } else {
        let prev = failure_reasons(os.drop_last());
        match os.last() {
            JobOutcome::Failed(e) => prev.push(e),
            JobOutcome::Produced(_) => prev,
        }
    }
}

/// All jobs of one request, folded together.
pub struct BuildResult {
    /// The outputs in the order their jobs finished.
    pub outputs: Vec<Output>,
    /// Why each failed job failed, kept for the operators' log.
    pub failures: Vec<JobError>,
    /// How many targets were requested.
    pub requested: usize,
    pub status: BuildStatus,
}

/// The outcome of a job whose last step should have written `path`:
/// a job that left no readable, non-empty file failed with `failure`.
pub fn job_outcome(path: String, produced: Option<Vec<u8>>, failure: JobError) -> (r: JobOutcome)
    ensures
        match produced {
            Some(b) if b@.len() > 0 => r == JobOutcome::Produced(Output { path, bytes: b }),
            _ => r == JobOutcome::Failed(failure),
        },
{
    match produced {
        Some(bytes) => if bytes.len() > 0 {
            JobOutcome::Produced(Output { path, bytes })
        } else {
            JobOutcome::Failed(failure)
        },
        None => JobOutcome::Failed(failure),
    }
}

/// Folds the outcomes of a request's jobs, in the order they finished,
/// into one result. A failed job only lowers the success count.
pub fn aggregate(requested: usize, outcomes: Vec<JobOutcome>) -> (r: BuildResult)
    ensures
        outputs_view(r.outputs@) == produced_outputs(outcomes@),
        r.failures@ == failure_reasons(outcomes@),
        r.requested == requested,
        r.status == status_of(requested as nat, r.outputs@.len()),
{
    let ghost os = outcomes@;
    let mut outputs: Vec<Output> = Vec::new();
    let mut failures: Vec<JobError> = Vec::new();
    let mut rest = outcomes;
    let n = rest.len();
    let mut i: usize = 0;
    while i < n
        invariant
            n == os.len(),
            i <= n,
            rest@ == os.skip(i as int),
            outputs_view(outputs@) == produced_outputs(os.take(i as int)),
            failures@ == failure_reasons(os.take(i as int)),
        decreases n - i,
    {
        let o = rest.remove(0);
        proof {
            assert(o == os[i as int]);
            assert(rest@ =~= os.skip(i + 1));
            assert(os.take(i + 1).drop_last() =~= os.take(i as int));
        }
        match o {
            JobOutcome::Produced(out) => {
                if out.bytes.len() > 0 && is_contained(out.path.as_str()) {
                    let ghost before = outputs@;
                    outputs.push(out);
                    assert(outputs_view(outputs@) =~= outputs_view(before).push(output_view(outputs@.last())));
                }
            },
            JobOutcome::Failed(e) => {
                failures.push(e);
            },
        }
        i = i + 1;
    }
    assert(os.take(n as int) =~= os);
    let succeeded = outputs.len();
    let status = if succeeded == 0 {
        BuildStatus::Failed
    } else if succeeded >= requested {
        BuildStatus::Complete
    } else {
        BuildStatus::Partial
    };
    BuildResult { outputs, failures, requested, status }
}

/// The icon a compile request uses: the uploaded one if it is non-empty,
/// else `None`, meaning the shared default icon.
pub fn resolve_icon(uploaded: Option<Vec<u8>>) -> (r: Option<Vec<u8>>)
    ensures
        match uploaded {
            Some(b) if b@.len() > 0 => r == Some(b),
            _ => r is None,
        },
{
    match uploaded {
        Some(b) => if b.len() > 0 {
            Some(b)
        } else {
            None
        },
        None => None,
    }
}

/// A compile job ready to run: its plan and the icon file it writes first.
pub struct CompileJob {
    pub platform: Platform,
    pub plan: CompilePlan,
    /// The request's icon, scaled and encoded for the platform.
    pub icon: Vec<u8>,
}

/// Prepares the job that packages `metadata` for `platform` below the
/// request directory `root`, with the request's icon `icon_bytes`.
pub fn prepare_compile(platform: Platform, root: &str, metadata: &Metadata, icon_bytes: &[u8]) -> (r: Result<CompileJob, JobError>)
    ensures
        !is_plain_name(metadata.title@) ==> r == Err::<CompileJob, JobError>(JobError::UnsafePath),
        is_plain_name(metadata.title@) && decoded_dimensions(icon_bytes@) is None ==> r == Err::<
            CompileJob,
            JobError,
        >(JobError::InvalidAsset),
        r is Ok <==> is_plain_name(metadata.title@) && decoded_dimensions(icon_bytes@) is Some,
        r matches Ok(job) ==> job.platform == platform && is_compile_plan(job.plan, platform, root@, *metadata),
        r matches Ok(job) ==> (icon_format(platform) == IconFormat::Png ==> job.icon@.len() >= 8
            && job.icon@.take(8) == png_signature()),
        r matches Ok(job) ==> (icon_format(platform) == IconFormat::Jpeg ==> job.icon@.len() >= 2
            && job.icon@.take(2) == jpeg_signature()),
{
    let plan = match plan_compile(platform, root, metadata) {
        Ok(p) => p,
        Err(e) => return Err(e),
    };
    let icon = match Icon::from_bytes(&platform, icon_bytes) {
        Some(i) => i,
        None => return Err(JobError::InvalidAsset),
    };
    Ok(CompileJob { platform, plan, icon: icon.create() })
}

/// How a compile job ended, given what its last step left at the plan's
/// output path: the output is listed under the plan's relative path.
pub fn compile_outcome(job: &CompileJob, produced: Option<Vec<u8>>) -> (r: JobOutcome)
    ensures
        match produced {
            Some(b) if b@.len() > 0 => r matches JobOutcome::Produced(o) && o.path@ == job.plan.relative_output@
                && o.bytes@ == b@,
            _ => r == JobOutcome::Failed(JobError::PackagingFailed),
        },
{
    job_outcome(job.plan.relative_output.clone(), produced, JobError::PackagingFailed)
}

/// A conversion job ready to run.
pub struct ConversionJob {
    pub kind: AssetKind,
    pub plan: ConversionPlan,
}

/// Prepares the conversion of the upload `bytes`, named `file_name`, for
/// `subpath` below the request directory `root`. Empty and unrecognised
/// uploads are refused, as are names that would leave the directory.
pub fn prepare_conversion(bytes: &[u8], root: &str, subpath: &str, file_name: &str) -> (r: Result<ConversionJob, JobError>)
    ensures
        bytes@.len() == 0 || classify_bytes(bytes@) is Err ==> r == Err::<ConversionJob, JobError>(
            JobError::InvalidAsset,
        ),
        bytes@.len() > 0 && classify_bytes(bytes@) is Ok && !(stays_inside(subpath@) && is_plain_name(file_name@))
            ==> r == Err::<ConversionJob, JobError>(JobError::UnsafePath),
        r is Ok <==> bytes@.len() > 0 && classify_bytes(bytes@) is Ok && stays_inside(subpath@) && is_plain_name(
            file_name@,
        ),
        r matches Ok(job) ==> classify_bytes(bytes@) == Ok::<AssetKind, crate::asset::AssetError>(job.kind)
            && is_conversion_plan(job.plan, job.kind, root@, subpath@, file_name@),
{
    if bytes.len() == 0 {
        return Err(JobError::InvalidAsset);
    }
    let kind = match classify_and_validate(bytes) {
        Ok(k) => k,
        Err(_) => return Err(JobError::InvalidAsset),
    };
    match plan_conversion(kind, root, subpath, file_name) {
        Ok(plan) => Ok(ConversionJob { kind, plan }),
        Err(e) => Err(e),
    }
}

/// A job prepared for an upload that decodes as a PNG or JPEG of 3 to 1024
/// pixels a side is an image job: the texture tool converts it, never the
/// font tool, into `<subpath>/<stem>.t3x`.
pub proof fn lemma_image_upload_converted_to_texture(
    job: ConversionJob,
    b: Seq<u8>,
    root: Seq<char>,
    subpath: Seq<char>,
    file_name: Seq<char>,
)
    requires
        is_decodable_format(sniffed_format(b)),
        decoded_dimensions(b) matches Some(d) && dimensions_in_range(d.0, d.1),
        classify_bytes(b) == Ok::<AssetKind, crate::asset::AssetError>(job.kind),
        is_conversion_plan(job.plan, job.kind, root, subpath, file_name),
    ensures
        job.kind == AssetKind::Image,
        call_view(job.plan.call).0 == "tex3ds"@,
        job.plan.relative_output@ == join(subpath, with_extension(file_name, "t3x"@)),
{
}

/// How a conversion job ended, given what the converter left at the plan's
/// output path: the output is listed under the plan's relative path.
pub fn conversion_outcome(job: &ConversionJob, produced: Option<Vec<u8>>) -> (r: JobOutcome)
    ensures
        match produced {
            Some(b) if b@.len() > 0 => r matches JobOutcome::Produced(o) && o.path@ == job.plan.relative_output@
                && o.bytes@ == b@,
            _ => r == JobOutcome::Failed(JobError::ConversionFailed),
        },
{
    job_outcome(job.plan.relative_output.clone(), produced, JobError::ConversionFailed)
}

/// Some but not all targets succeeding is a partial result, none succeeding
/// is a failure, and all succeeding is complete.
pub proof fn lemma_status_classification(requested: nat, succeeded: nat)
    requires
        succeeded <= requested,
    ensures
        succeeded == 0 <==> status_of(requested, succeeded) == BuildStatus::Failed,
        0 < succeeded < requested <==> status_of(requested, succeeded) == BuildStatus::Partial,
        0 < succeeded == requested <==> status_of(requested, succeeded) == BuildStatus::Complete,
{
}

} // verus!
