//! The batch driver's decisions: which entries of a directory become jobs,
//! and what is done for each job.

use crate::compositor::{can_compose, compose_with_blur, composed, fits_in_memory};
use crate::geometry::Dimensions;
use crate::paths::{is_image_name, is_picture_name, output_path, output_path_for};
use crate::raster::{ImageBuffer, Raster};
use vstd::prelude::*;

verus! {

/// One unit of work, as the model of a `WallpaperJob`.
pub struct Job {
    /// The picture to read.
    pub source_path: Seq<char>,
    /// The directory that receives the result.
    pub target_dir: Seq<char>,
    /// The size of the canvas.
    pub dims: Dimensions,
    /// Whether a result that exists already is made again.
    pub force: bool,
}

impl Job {
    /// The canvas has a size.
    pub open spec fn wf(self) -> bool {
        self.dims.wf()
    }

    /// The file that receives the result.
    pub open spec fn output(self) -> Seq<char> {
        output_path(self.target_dir, self.source_path)
    }
}

/// What to do for a job once it is known whether its result exists.
#[derive(Clone, Copy, Debug, PartialEq, Eq, Structural)]
pub enum Decision {
    /// Leave the source unread and the result as it is.
    Skip,
    /// Read the source and make the result.
    Decode,
}

/// A job is skipped exactly when its result exists and is not to be made
/// again.
pub open spec fn decision(force: bool, output_exists: bool) -> Decision {
    if output_exists && !force {
        Decision::Skip
    } else {
        Decision::Decode
    }
}

/// How a job ended once its source was read, or could not be.
#[derive(Debug)]
pub enum Rendering {
    /// The source could not be decoded.
    Undecodable,
    /// The source and the canvas together are too large to work on.
    Oversized,
    /// The wallpaper, and the file to store it in.
    Store { path: String, image: ImageBuffer },
}

/// The paths among `paths` that name pictures, in their order.
pub open spec fn eligible(paths: Seq<Seq<char>>) -> Seq<Seq<char>> {
    paths.filter(|path: Seq<char>| is_picture_name(path))
}

/// The jobs of a run over the entries `paths`: one for each path that names
/// a picture, in the order of the entries.
pub open spec fn planned(
    paths: Seq<Seq<char>>,
    target_dir: Seq<char>,
    dims: Dimensions,
    force: bool,
) -> Seq<Job> {
    eligible(paths).map_values(
        |path: Seq<char>| Job { source_path: path, target_dir, dims, force },
    )
}

/// Whether a job ends with a wallpaper to store, given the pictures that the
/// sources decode to: its source is among them and can be rendered.
pub open spec fn produces(job: Job, sources: Map<Seq<char>, Raster>) -> bool {
    sources.contains_key(job.source_path) && can_compose(sources[job.source_path], job.dims)
}

/// The wallpaper that a job stores, given the pictures that the sources
/// decode to and the blur.
pub open spec fn wallpaper(job: Job, sources: Map<Seq<char>, Raster>, sigma: u8) -> Raster {
    composed(sources[job.source_path], job.dims, sigma)
}

/// The stored results, each with its picture, after the jobs `jobs` have run
/// one after another over the results `files`. `sources` holds what each
/// source that can be decoded decodes to; every wallpaper made is stored.
pub open spec fn files_after(
    jobs: Seq<Job>,
    files: Map<Seq<char>, Raster>,
    sources: Map<Seq<char>, Raster>,
    sigma: u8,
) -> Map<Seq<char>, Raster>
    decreases jobs.len(),
{
    if jobs.len() == 0 {
        files
    } else {
        let before = files_after(jobs.drop_last(), files, sources, sigma);
        let job = jobs.last();
        if decision(job.force, before.contains_key(job.output())) == Decision::Decode && produces(
            job,
            sources,
        ) {
            before.insert(job.output(), wallpaper(job, sources, sigma))
        } else {
            before
        }
    }
}

/// How many sources are read when the jobs `jobs` run one after another over
/// the results `files`.
pub open spec fn decode_attempts(
    jobs: Seq<Job>,
    files: Map<Seq<char>, Raster>,
    sources: Map<Seq<char>, Raster>,
    sigma: u8,
) -> nat
    decreases jobs.len(),
{
    if jobs.len() == 0 {
        0
    } else {
        let before = files_after(jobs.drop_last(), files, sources, sigma);
        let job = jobs.last();
        let earlier = decode_attempts(jobs.drop_last(), files, sources, sigma);
        if decision(job.force, before.contains_key(job.output())) == Decision::Decode {
            earlier + 1
        } else {
            earlier
        }
    }
}

/// What forced jobs write, whatever was stored before them: for each result,
/// the wallpaper of the last job that stores it.
pub open spec fn forced_writes(jobs: Seq<Job>, sources: Map<Seq<char>, Raster>, sigma: u8) -> Map<
    Seq<char>,
    Raster,
>
    decreases jobs.len(),
{
    if jobs.len() == 0 {
        Map::empty()
    } else {
        let earlier = forced_writes(jobs.drop_last(), sources, sigma);
        let job = jobs.last();
        if produces(job, sources) {
            earlier.insert(job.output(), wallpaper(job, sources, sigma))
        } else {
            earlier
        }
    }
}

/// A run removes no result, and leaves behind a result for every job that
/// produces one.
pub proof fn run_stores_every_result(
    jobs: Seq<Job>,
    files: Map<Seq<char>, Raster>,
    sources: Map<Seq<char>, Raster>,
    sigma: u8,
)
    ensures
        files.dom().subset_of(files_after(jobs, files, sources, sigma).dom()),
        forall|i: int|
            0 <= i < jobs.len() && produces(jobs[i], sources) ==> files_after(
                jobs,
                files,
                sources,
                sigma,
            ).contains_key(#[trigger] jobs[i].output()),
    decreases jobs.len(),
{
    if jobs.len() > 0 {
        let front = jobs.drop_last();
        run_stores_every_result(front, files, sources, sigma);
        let after = files_after(jobs, files, sources, sigma);
        assert forall|i: int| 0 <= i < jobs.len() && produces(jobs[i], sources) implies 
            after.contains_key(#[trigger] jobs[i].output()) by {
            if i < front.len() {
                assert(front[i] == jobs[i]);
            }
        }
    }
}

/// A run over results that hold the result of every job already reads no
/// source and changes nothing, as long as no job asks for its result to be
/// made again.
pub proof fn run_over_complete_results_is_idle(
    jobs: Seq<Job>,
    files: Map<Seq<char>, Raster>,
    sources: Map<Seq<char>, Raster>,
    sigma: u8,
)
    requires
        forall|i: int| 0 <= i < jobs.len() ==> !jobs[i].force,
        forall|i: int| 0 <= i < jobs.len() ==> files.contains_key(#[trigger] jobs[i].output()),
    ensures
        files_after(jobs, files, sources, sigma) == files,
        decode_attempts(jobs, files, sources, sigma) == 0,
    decreases jobs.len(),
{
    if jobs.len() > 0 {
        let front = jobs.drop_last();
        assert forall|i: int| 0 <= i < front.len() implies !front[i].force && files.contains_key(
            #[trigger] front[i].output(),
        ) by {
            assert(front[i] == jobs[i]);
        }
        run_over_complete_results_is_idle(front, files, sources, sigma);
        assert(files.contains_key(jobs[jobs.len() - 1].output()));
    }
}

/// Running a batch a second time without force does nothing: where every
/// job produced its wallpaper the first time, the second run reads no source
/// and leaves every result as the first run left it.
pub proof fn second_run_is_idle(
    jobs: Seq<Job>,
    files: Map<Seq<char>, Raster>,
    sources: Map<Seq<char>, Raster>,
    sigma: u8,
)
    requires
        forall|i: int| 0 <= i < jobs.len() ==> !jobs[i].force,
        forall|i: int| 0 <= i < jobs.len() ==> produces(jobs[i], sources),
    ensures
        decode_attempts(jobs, files_after(jobs, files, sources, sigma), sources, sigma) == 0,
        files_after(jobs, files_after(jobs, files, sources, sigma), sources, sigma)
            == files_after(jobs, files, sources, sigma),
{
    run_stores_every_result(jobs, files, sources, sigma);
    run_over_complete_results_is_idle(
        jobs,
        files_after(jobs, files, sources, sigma),
        sources,
        sigma,
    );
}

/// Forced jobs read every source, and what they leave behind is what was
/// there before with their own writes laid over it.
pub proof fn forced_run_overwrites(
    jobs: Seq<Job>,
    files: Map<Seq<char>, Raster>,
    sources: Map<Seq<char>, Raster>,
    sigma: u8,
)
    requires
        forall|i: int| 0 <= i < jobs.len() ==> jobs[i].force,
    ensures
        decode_attempts(jobs, files, sources, sigma) == jobs.len(),
        files_after(jobs, files, sources, sigma) == files.union_prefer_right(
            forced_writes(jobs, sources, sigma),
        ),
    decreases jobs.len(),
{
    if jobs.len() > 0 {
        let front = jobs.drop_last();
        assert forall|i: int| 0 <= i < front.len() implies front[i].force by {
            assert(front[i] == jobs[i]);
        }
        forced_run_overwrites(front, files, sources, sigma);
    }
    assert(files_after(jobs, files, sources, sigma) =~= files.union_prefer_right(
        forced_writes(jobs, sources, sigma),
    ));
}

/// Running a batch a second time with force does the work of the first run
/// again and ends with the same results: every source is read once more,
/// and every result holds the picture that the first run stored in it.
pub proof fn second_forced_run_repeats_the_first(
    jobs: Seq<Job>,
    files: Map<Seq<char>, Raster>,
    sources: Map<Seq<char>, Raster>,
    sigma: u8,
)
    requires
        forall|i: int| 0 <= i < jobs.len() ==> jobs[i].force,
    ensures
        decode_attempts(jobs, files_after(jobs, files, sources, sigma), sources, sigma)
            == jobs.len(),
        files_after(jobs, files_after(jobs, files, sources, sigma), sources, sigma)
            == files_after(jobs, files, sources, sigma),
{
    let once = files_after(jobs, files, sources, sigma);
    let writes = forced_writes(jobs, sources, sigma);
    forced_run_overwrites(jobs, files, sources, sigma);
    forced_run_overwrites(jobs, once, sources, sigma);
    assert(once.union_prefer_right(writes) =~= once);
}

/// One unit of work: a picture to read, the directory for its wallpaper, the
/// size of the canvas, and whether an existing wallpaper is made again.
#[derive(Debug)]
pub struct WallpaperJob {
    source_path: String,
    target_dir: String,
    dims: Dimensions,
    force: bool,
}

impl View for WallpaperJob {
    type V = Job;

    closed spec fn view(&self) -> Job {
        Job {
            source_path: self.source_path@,
            target_dir: self.target_dir@,
            dims: self.dims,
            force: self.force,
        }
    }
}

impl Clone for WallpaperJob {
    /// A job for the same picture, directory, size and force.
    fn clone(&self) -> (copy: WallpaperJob)
        ensures
            copy@ == self@,
    {
        WallpaperJob {
            source_path: self.source_path.clone(),
            target_dir: self.target_dir.clone(),
            dims: self.dims,
            force: self.force,
        }
    }
}

impl WallpaperJob {
    /// The job for the picture at `source_path`.
    pub fn new(source_path: String, target_dir: String, dims: Dimensions, force: bool) -> (job:
        WallpaperJob)
        ensures
            job@ == (Job { source_path: source_path@, target_dir: target_dir@, dims, force }),
    {
        WallpaperJob { source_path, target_dir, dims, force }
    }

    /// The picture to read.
    pub fn source_path(&self) -> (path: &str)
        ensures
            path@ == self@.source_path,
    {
        self.source_path.as_str()
    }

    /// The directory that receives the result.
    pub fn target_dir(&self) -> (path: &str)
        ensures
            path@ == self@.target_dir,
    {
        self.target_dir.as_str()
    }

    /// The size of the canvas.
    pub fn dims(&self) -> (dims: Dimensions)
        ensures
            dims == self@.dims,
    {
        self.dims
    }

    /// Whether a result that exists already is made again.
    pub fn force(&self) -> (force: bool)
        ensures
            force == self@.force,
    {
        self.force
    }

    /// The file that receives the result.
    pub fn output_path(&self) -> (path: String)
        ensures
            path@ == self@.output(),
    {
        output_path_for(self.target_dir.as_str(), self.source_path.as_str())
    }

    /// Decides what to do, given whether the result exists already: the
    /// source of a job that is skipped is never read.
    pub fn decide(&self, output_exists: bool) -> (step: Decision)
        ensures
            step == decision(self@.force, output_exists),
    {
        if output_exists && !self.force {
            Decision::Skip
        } else {
            Decision::Decode
        }
    }

    /// Makes the wallpaper from the decoded source, or says why there is
    /// none: `decoded` is `None` where the source could not be decoded.
    pub fn render(&self, decoded: Option<&ImageBuffer>, sigma: u8) -> (rendering: Rendering)
        requires
            self@.wf(),
            decoded matches Some(source) ==> source.wf(),
        ensures
            decoded.is_none() <==> rendering is Undecodable,
            decoded matches Some(source) ==> (rendering is Oversized <==> !can_compose(
                source@,
                self@.dims,
            )),
            rendering matches Rendering::Store { path, image } ==> {
                &&& path@ == self@.output()
                &&& image.wf()
                &&& image@ == composed(decoded.unwrap()@, self@.dims, sigma)
                &&& image@.width == self@.dims.width()
                &&& image@.height == self@.dims.height()
            },
    {
        match decoded {
            None => Rendering::Undecodable,
            Some(source) => {
                if fits_in_memory(source, self.dims) {
                    let image = compose_with_blur(source, self.dims, sigma);
                    Rendering::Store { path: self.output_path(), image }
                } else {
                    Rendering::Oversized
                }
            },
        }
    }
}

/// The paths of `paths`, as sequences of characters.
pub open spec fn texts(paths: Seq<String>) -> Seq<Seq<char>> {
    paths.map_values(|path: String| path@)
}

/// The jobs of `jobs`, as their models.
pub open spec fn models(jobs: Seq<WallpaperJob>) -> Seq<Job> {
    jobs.map_values(|job: WallpaperJob| job@)
}

/// Plans a run over the entries `paths` of a directory: one job for each
/// entry that names a picture, in the order of the entries. Other entries
/// are passed over.
pub fn plan_jobs(paths: &Vec<String>, target_dir: &str, dims: Dimensions, force: bool) -> (jobs:
    Vec<WallpaperJob>)
    ensures
        models(jobs@) == planned(texts(paths@), target_dir@, dims, force),
{
    let mut jobs: Vec<WallpaperJob> = Vec::new();
    let mut i: usize = 0;
    assert(texts(paths@).take(0) =~= Seq::<Seq<char>>::empty());
    proof {
        reveal(Seq::filter);
    }
    assert(models(jobs@) =~= planned(texts(paths@).take(0), target_dir@, dims, force));
    while i < paths.len()
        invariant
            i <= paths.len(),
            models(jobs@) == planned(texts(paths@).take(i as int), target_dir@, dims, force),
        decreases paths.len() - i,
    {
        let ghost seen = texts(paths@).take(i as int);
        let ghost next = texts(paths@).take(i + 1);
        let ghost before = jobs@;
        proof {
            reveal(Seq::filter);
            assert(next.drop_last() =~= seen);
            assert(next.last() == paths@[i as int]@);
        }
        if is_image_name(paths[i].as_str()) {
            let job = WallpaperJob::new(
                paths[i].clone(),
                String::from_str(target_dir),
                dims,
                force,
            );
            jobs.push(job);
            assert(eligible(next) == eligible(seen).push(paths@[i as int]@));
            assert(models(jobs@) =~= models(before).push(job@));
            assert(models(jobs@) =~= planned(next, target_dir@, dims, force));
        } else {
            assert(eligible(next) == eligible(seen));
        }
        i += 1;
    }
    assert(texts(paths@).take(paths@.len() as int) =~= texts(paths@));
    jobs
}

} // verus!
