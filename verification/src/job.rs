use vstd::prelude::*;
use vstd::string::StringExecFns;
use crate::cache::{ImageState, ImagesState, update_post};
use crate::chunk::BuildProgress;
use crate::container::ContainerHandle;
use crate::error::BuildError;
use crate::recipe::{EnvPair, Recipe, plan_commands, spec_commands};

verus! {

/// The decimal digit character for a value below ten.
pub open spec fn spec_digit(d: nat) -> char {
    if d == 0 {
        '0'
    } else if d == 1 {
        '1'
    } else if d == 2 {
        '2'
    } else if d == 3 {
        '3'
    } else if d == 4 {
        '4'
    } else if d == 5 {
        '5'
    } else if d == 6 {
        '6'
    } else if d == 7 {
        '7'
    } else if d == 8 {
        '8'
    } else {
        '9'
    }
}

/// The decimal digits of a number, most significant first, with no
/// leading zero except for the number zero itself.
pub open spec fn spec_decimal(n: nat) -> Seq<char>
    decreases n,
{
    if n < 10 {
        seq![spec_digit(n)]
    } else {
        spec_decimal(n / 10).push(spec_digit(n % 10))
    }
}

/// The one-character string for a decimal digit value.
fn digit_str(d: u64) -> (s: &'static str)
    requires
        d < 10,
    ensures
        s@ == seq![spec_digit(d as nat)],
{
    let s: &'static str = if d == 0 {
        "0"
    } else if d == 1 {
        "1"
    } else if d == 2 {
        "2"
    } else if d == 3 {
        "3"
    } else if d == 4 {
        "4"
    } else if d == 5 {
        "5"
    } else if d == 6 {
        "6"
    } else if d == 7 {
        "7"
    } else if d == 8 {
        "8"
    } else {
        "9"
    };
    proof {
        reveal_strlit("0");
        reveal_strlit("1");
        reveal_strlit("2");
        reveal_strlit("3");
        reveal_strlit("4");
        reveal_strlit("5");
        reveal_strlit("6");
        reveal_strlit("7");
        reveal_strlit("8");
        reveal_strlit("9");
        assert(s@ =~= seq![spec_digit(d as nat)]);
    }
    s
}

/// Renders a number in decimal.
pub fn format_decimal(n: u64) -> (s: String)
    ensures
        s@ == spec_decimal(n as nat),
    decreases n,
{
    if n < 10 {
        digit_str(n).to_owned()
    } else {
        let mut s = format_decimal(n / 10);
        s.append(digit_str(n % 10));
        proof {
            assert(s@ =~= spec_decimal((n / 10) as nat).push(spec_digit((n % 10) as nat)));
        }
        s
    }
}

/// A job's identity: prefix, recipe name, image name and build start
/// time joined with dashes. Derived deterministically, so no two runs
/// that differ in any component collide, and repeated runs against the
/// same recipe/image pair differ by their start time.
pub open spec fn spec_job_id(
    prefix: Seq<char>,
    recipe: Seq<char>,
    image: Seq<char>,
    epoch: nat,
) -> Seq<char> {
    prefix + seq!['-'] + recipe + seq!['-'] + image + seq!['-'] + spec_decimal(epoch)
}

/// Builds the job identifier, used as the container's name and to
/// derive the job's working-directory path.
pub fn format_job_id(prefix: &str, recipe: &str, image: &str, epoch: u64) -> (id: String)
    ensures
        id@ == spec_job_id(prefix@, recipe@, image@, epoch as nat),
{
    let mut id = prefix.to_owned();
    id.append("-");
    id.append(recipe);
    id.append("-");
    id.append(image);
    id.append("-");
    let ds = format_decimal(epoch);
    id.append(ds.as_str());
    proof {
        reveal_strlit("-");
        assert(id@ =~= spec_job_id(prefix@, recipe@, image@, epoch as nat));
    }
    id
}

/// A rendered number is never empty, and numbers of ten or more render
/// to at least two digits.
proof fn lemma_decimal_len(n: nat)
    ensures
        spec_decimal(n).len() >= 1,
        n >= 10 ==> spec_decimal(n).len() >= 2,
    decreases n,
{
    if n >= 10 {
        lemma_decimal_len(n / 10);
    }
}

/// Distinct numbers render to distinct decimal digit sequences.
proof fn lemma_decimal_injective(a: nat, b: nat)
    requires
        a != b,
    ensures
        spec_decimal(a) != spec_decimal(b),
    decreases a + b,
{
    if a < 10 && b < 10 {
        assert(spec_decimal(a)[0] == spec_digit(a));
        assert(spec_decimal(b)[0] == spec_digit(b));
    } else if a < 10 {
        lemma_decimal_len(a);
        lemma_decimal_len(b);
    } else if b < 10 {
        lemma_decimal_len(a);
        lemma_decimal_len(b);
    } else {
        let ra = spec_decimal(a / 10);
        let rb = spec_decimal(b / 10);
        if a % 10 != b % 10 {
            assert(spec_decimal(a).last() == spec_digit(a % 10));
            assert(spec_decimal(b).last() == spec_digit(b % 10));
        } else {
            lemma_decimal_injective(a / 10, b / 10);
            if spec_decimal(a) == spec_decimal(b) {
                assert(spec_decimal(a).drop_last() =~= ra);
                assert(spec_decimal(b).drop_last() =~= rb);
            }
        }
    }
}

/// Two runs against the same recipe/image pair never collide: a later
/// (or any different) start time gives a different job identifier.
pub proof fn lemma_job_id_unique(
    prefix: Seq<char>,
    recipe: Seq<char>,
    image: Seq<char>,
    epoch1: nat,
    epoch2: nat,
)
    requires
        epoch1 != epoch2,
    ensures
        spec_job_id(prefix, recipe, image, epoch1) != spec_job_id(prefix, recipe, image, epoch2),
{
    let head = prefix + seq!['-'] + recipe + seq!['-'] + image + seq!['-'];
    let d1 = spec_decimal(epoch1);
    let d2 = spec_decimal(epoch2);
    lemma_decimal_injective(epoch1, epoch2);
    assert(spec_job_id(prefix, recipe, image, epoch1) =~= head + d1);
    assert(spec_job_id(prefix, recipe, image, epoch2) =~= head + d2);
    if head + d1 == head + d2 {
        assert(d1.len() == d2.len());
        assert forall|i: int| 0 <= i < d1.len() implies d1[i] == d2[i] by {
            assert(d1[i] == (head + d1)[head.len() + i]);
            assert(d2[i] == (head + d2)[head.len() + i]);
        }
        assert(d1 =~= d2);
    }
}

/// The tag an image is built under: the logical name with the fixed
/// latest suffix.
pub fn latest_tag(name: &str) -> (tag: String)
    ensures
        tag@ == name@ + ":latest"@,
{
    let mut tag = name.to_owned();
    tag.append(":latest");
    tag
}

/// The environment handed to a build container: the three fixed
/// variables (working directory, target OS identifier, target OS
/// version) followed by every recipe-declared entry, in order.
pub fn build_env(
    workdir: &String,
    os: &String,
    os_version: &String,
    extra: &Vec<EnvPair>,
) -> (env: Vec<EnvPair>)
    ensures
        env@.len() == 3 + extra@.len(),
        env@[0].key@ == "BLD_WORKDIR"@,
        env@[0].value@ == workdir@,
        env@[1].key@ == "BLD_TARGET_OS"@,
        env@[1].value@ == os@,
        env@[2].key@ == "BLD_TARGET_OS_VER"@,
        env@[2].value@ == os_version@,
        forall|i: int| 0 <= i < extra@.len() ==> env@[3 + i] == extra@[i],
{
    let mut env: Vec<EnvPair> = Vec::new();
    env.push(EnvPair { key: "BLD_WORKDIR".to_owned(), value: workdir.clone() });
    env.push(EnvPair { key: "BLD_TARGET_OS".to_owned(), value: os.clone() });
    env.push(EnvPair { key: "BLD_TARGET_OS_VER".to_owned(), value: os_version.clone() });
    let mut i: usize = 0;
    while i < extra.len()
        invariant
            i <= extra@.len(),
            env@.len() == 3 + i,
            env@[0].key@ == "BLD_WORKDIR"@,
            env@[0].value@ == workdir@,
            env@[1].key@ == "BLD_TARGET_OS"@,
            env@[1].value@ == os@,
            env@[2].key@ == "BLD_TARGET_OS_VER"@,
            env@[2].value@ == os_version@,
            forall|k: int| 0 <= k < i ==> env@[3 + k] == extra@[k],
        decreases extra@.len() - i,
    {
        env.push(EnvPair { key: extra[i].key.clone(), value: extra[i].value.clone() });
        i = i + 1;
    }
    env
}

/// The driver's next move after one image build progress chunk.
#[derive(Debug)]
pub enum BuildSignal {
    /// Echo this update line (the job is verbose), then keep consuming.
    Print(String),
    /// Keep consuming without echoing.
    Continue,
    /// The engine reported an error chunk: stop, the job fails before
    /// anything is spawned.
    Fail,
    /// The digest arrived: the image phase is complete.
    Done,
}

/// One in-progress image resolution/build: folds the structured
/// progress stream into either a digest or an error.
pub struct ImageBuild {
    pub verbose: bool,
    pub digest: Option<String>,
    pub error: Option<String>,
}

impl ImageBuild {
    /// No terminal chunk has been seen yet.
    pub open spec fn in_progress(self) -> bool {
        self.digest is None && self.error is None
    }

    /// Starts consuming a build progress stream.
    pub fn new(verbose: bool) -> (b: ImageBuild)
        ensures
            b.verbose == verbose,
            b.in_progress(),
    {
        ImageBuild { verbose, digest: Option::None, error: Option::None }
    }

    /// Consumes the next progress chunk: an update is echoed only when
    /// verbose; an error chunk aborts the build; a digest completes it.
    pub fn on_chunk(&mut self, chunk: BuildProgress) -> (sig: BuildSignal)
        requires
            old(self).in_progress(),
        ensures
            final(self).verbose == old(self).verbose,
            (match chunk {
                BuildProgress::Update(s) => *final(self) == *old(self) && sig == (if old(self).verbose {
                    BuildSignal::Print(s)
                } else {
                    BuildSignal::Continue
                }),
                BuildProgress::Error(e) => final(self).error == Option::Some(e) && final(self).digest is None && sig == BuildSignal::Fail,
                BuildProgress::Digest(d) => final(self).digest == Option::Some(d) && final(self).error is None && sig == BuildSignal::Done,
            }),
    {
        match chunk {
            BuildProgress::Update(s) => {
                if self.verbose {
                    BuildSignal::Print(s)
                } else {
                    BuildSignal::Continue
                }
            },
            BuildProgress::Error(e) => {
                self.error = Option::Some(e);
                BuildSignal::Fail
            },
            BuildProgress::Digest(d) => {
                self.digest = Option::Some(d);
                BuildSignal::Done
            },
        }
    }

    /// Concludes the image phase once the stream ended or a terminal
    /// chunk arrived. An error chunk fails the job with a step failure
    /// and touches nothing; a digest yields the image state, which
    /// overwrites the cache entry for the logical name; a stream that
    /// ended with no digest received is a distinct failure.
    pub fn conclude(
        self,
        name: String,
        tag: String,
        timestamp: u64,
        os: String,
        os_version: String,
        cache: &mut ImagesState,
    ) -> (r: Result<ImageState, BuildError>)
        requires
            old(cache).wf(),
        ensures
            final(cache).wf(),
            (match self.error {
                Option::Some(e) => r == Result::<ImageState, BuildError>::Err(BuildError::Step(e))
                    && *final(cache) == *old(cache),
                Option::None => (match self.digest {
                    Option::Some(d) => {
                        let st = ImageState {
                            image: name,
                            id: d,
                            tag: tag,
                            timestamp: timestamp,
                            os: os,
                            os_version: os_version,
                        };
                        r == Result::<ImageState, BuildError>::Ok(st) && update_post(
                            *old(cache),
                            *final(cache),
                            st,
                        )
                    },
                    Option::None => r == Result::<ImageState, BuildError>::Err(
                        BuildError::MissingDigest,
                    ) && *final(cache) == *old(cache),
                }),
            }),
    {
        match self.error {
            Option::Some(e) => Result::Err(BuildError::Step(e)),
            Option::None => {
                match self.digest {
                    Option::Some(d) => {
                        let st = ImageState {
                            image: name,
                            id: d,
                            tag: tag,
                            timestamp: timestamp,
                            os: os,
                            os_version: os_version,
                        };
                        cache.update(st.clone());
                        Result::Ok(st)
                    },
                    Option::None => Result::Err(BuildError::MissingDigest),
                }
            },
        }
    }
}

/// Where one build job stands in its linear run.
#[derive(Debug, PartialEq, Eq, Structural)]
pub enum Phase {
    /// Nothing engine-side has happened yet; the image comes first.
    Pending,
    /// The image is built and cached; the container comes next.
    ImageReady,
    /// The container runs and steps execute strictly in order.
    Executing,
    /// Steps are over (or spawning failed); the container is removed.
    Cleanup,
    /// The job is over; the outcome is fixed.
    Finished,
}

/// What the driver must do next for a job.
#[derive(Debug, PartialEq, Eq, Structural)]
pub enum JobAction {
    /// Build or resolve the target image, consuming its progress stream.
    BuildImage,
    /// Create and start the build container with the job's environment.
    Spawn,
    /// Execute the planned command at this index inside the container.
    RunStep(usize),
    /// Forcibly remove the container, volumes included.
    Remove,
    /// The job is over; read the outcome.
    Finish,
}

/// What a transition never touches: the job's identity and plan.
pub open spec fn same_job_identity(pre: BuildJob, post: BuildJob) -> bool {
    &&& post.id == pre.id
    &&& post.recipe_name == pre.recipe_name
    &&& post.image_name == pre.image_name
    &&& post.workdir == pre.workdir
    &&& post.verbose == pre.verbose
    &&& post.commands == pre.commands
}

/// One recipe run against one target image, from image resolution
/// through container teardown. The job is a state machine: a driver
/// performs each returned `JobAction` against the engine and hands the
/// outcome back through the matching event method.
#[derive(Debug)]
pub struct BuildJob {
    /// The job identifier; also the container's name.
    pub id: String,
    pub recipe_name: String,
    pub image_name: String,
    /// Container-internal working directory, derived from the id.
    pub workdir: String,
    pub verbose: bool,
    /// The applicable steps' commands, in declared order.
    pub commands: Vec<String>,
    /// How many commands have been issued so far.
    pub next_step: usize,
    pub phase: Phase,
    /// The image state resolved for this job, once the image phase is done.
    pub image_state: Option<ImageState>,
    /// The failure that decides the outcome; teardown never writes it.
    pub failure: Option<BuildError>,
}

impl BuildJob {
    pub open spec fn wf(self) -> bool {
        &&& self.next_step <= self.commands@.len()
        &&& (self.phase is Pending ==> self.next_step == 0 && self.failure is None)
        &&& (self.phase is ImageReady ==> self.next_step == 0 && self.failure is None
            && self.image_state is Some)
        &&& (self.phase is Executing ==> self.failure is None && 1 <= self.next_step
            && self.image_state is Some)
    }

    /// Plans a job: derives its identifier and working directory from
    /// the given prefix, names and start time, and fixes the ordered
    /// list of commands that apply to the target image.
    pub fn new(prefix: &str, recipe: &Recipe, image: &String, epoch: u64, verbose: bool) -> (job:
        BuildJob)
        ensures
            job.wf(),
            job.phase is Pending,
            job.id@ == spec_job_id(prefix@, recipe.name@, image@, epoch as nat),
            job.workdir@ == "/tmp/"@ + job.id@,
            job.recipe_name@ == recipe.name@,
            job.image_name@ == image@,
            job.verbose == verbose,
            job.commands.deep_view() == spec_commands(recipe.steps@, image@),
            job.next_step == 0,
            job.image_state is None,
            job.failure is None,
    {
        let id = format_job_id(prefix, recipe.name.as_str(), image.as_str(), epoch);
        let mut workdir = "/tmp/".to_owned();
        workdir.append(id.as_str());
        let commands = plan_commands(&recipe.steps, image);
        BuildJob {
            id: id,
            recipe_name: recipe.name.clone(),
            image_name: image.clone(),
            workdir: workdir,
            verbose: verbose,
            commands: commands,
            next_step: 0,
            phase: Phase::Pending,
            image_state: Option::None,
            failure: Option::None,
        }
    }

    /// The first thing a job does: resolve or build its image.
    pub fn first_action(&self) -> (act: JobAction)
        requires
            self.phase is Pending,
        ensures
            act == JobAction::BuildImage,
    {
        JobAction::BuildImage
    }

    /// Receives the image phase's outcome. A failure aborts the job at
    /// once: nothing was spawned, so nothing needs cleanup.
    pub fn on_image_event(&mut self, outcome: Result<ImageState, BuildError>) -> (act: JobAction)
        requires
            old(self).wf(),
            old(self).phase is Pending,
        ensures
            final(self).wf(),
            same_job_identity(*old(self), *final(self)),
            final(self).next_step == 0,
            (match outcome {
                Result::Ok(st) => final(self).phase is ImageReady && final(self).image_state
                    == Option::Some(st) && final(self).failure is None && act == JobAction::Spawn,
                Result::Err(e) => final(self).phase is Finished && final(self).failure
                    == Option::Some(e) && act == JobAction::Finish,
            }),
    {
        match outcome {
            Result::Ok(st) => {
                self.image_state = Option::Some(st);
                self.phase = Phase::ImageReady;
                JobAction::Spawn
            },
            Result::Err(e) => {
                self.failure = Option::Some(e);
                self.phase = Phase::Finished;
                JobAction::Finish
            },
        }
    }

    /// Receives the container spawn's outcome. On success the handle
    /// now refers to the engine-assigned container and the steps begin
    /// — or, with nothing to run, cleanup begins at once. On failure
    /// the job fails with an engine error but still goes through
    /// cleanup.
    pub fn on_spawn_event(
        &mut self,
        handle: &mut ContainerHandle,
        outcome: Result<String, String>,
    ) -> (act: JobAction)
        requires
            old(self).wf(),
            old(self).phase is ImageReady,
        ensures
            final(self).wf(),
            same_job_identity(*old(self), *final(self)),
            final(self).image_state == old(self).image_state,
            (match outcome {
                Result::Ok(cid) => {
                    &&& final(handle).is_spawned()
                    &&& final(handle).spec_full_id() == cid@
                    &&& final(self).failure is None
                    &&& if old(self).commands@.len() == 0 {
                        final(self).phase is Cleanup && act == JobAction::Remove && final(self).next_step == 0
                    } else {
                        final(self).phase is Executing && act == JobAction::RunStep(0) && final(self).next_step == 1
                    }
                },
                Result::Err(e) => final(self).phase is Cleanup && final(self).failure
                    == Option::Some(BuildError::Engine(e)) && act == JobAction::Remove && *final(handle) == *old(handle),
            }),
    {
        match outcome {
            Result::Ok(cid) => {
                handle.record_spawned(cid);
                if self.commands.len() == 0 {
                    self.phase = Phase::Cleanup;
                    JobAction::Remove
                } else {
                    self.phase = Phase::Executing;
                    self.next_step = 1;
                    JobAction::RunStep(0)
                }
            },
            Result::Err(e) => {
                self.failure = Option::Some(BuildError::Engine(e));
                self.phase = Phase::Cleanup;
                JobAction::Remove
            },
        }
    }

    /// Receives one step's outcome. Success moves on to the next
    /// command, strictly in order, or to cleanup after the last one; any
    /// failure aborts the remaining steps and the job, but cleanup still
    /// runs.
    pub fn on_step_event(&mut self, outcome: Result<(), BuildError>) -> (act: JobAction)
        requires
            old(self).wf(),
            old(self).phase is Executing,
        ensures
            final(self).wf(),
            same_job_identity(*old(self), *final(self)),
            final(self).image_state == old(self).image_state,
            (match outcome {
                Result::Ok(u) => if old(self).next_step < old(self).commands@.len() {
                    final(self).phase is Executing && act == JobAction::RunStep(
                        old(self).next_step,
                    ) && final(self).next_step == old(self).next_step + 1 && final(self).failure is None
                } else {
                    final(self).phase is Cleanup && act == JobAction::Remove && final(self).failure is None && final(self).next_step == old(self).next_step
                },
                Result::Err(e) => final(self).phase is Cleanup && final(self).failure
                    == Option::Some(e) && act == JobAction::Remove && final(self).next_step == old(self).next_step,
            }),
    {
        match outcome {
            Result::Ok(_) => {
                if self.next_step < self.commands.len() {
                    let k = self.next_step;
                    self.next_step = k + 1;
                    JobAction::RunStep(k)
                } else {
                    self.phase = Phase::Cleanup;
                    JobAction::Remove
                }
            },
            Result::Err(e) => {
                self.failure = Option::Some(e);
                self.phase = Phase::Cleanup;
                JobAction::Remove
            },
        }
    }

    /// Receives the teardown's outcome. A removal failure is the
    /// driver's to log as a warning; it never masks or overrides the
    /// job's outcome, which the steps alone decided.
    pub fn on_remove_event(&mut self, outcome: &Result<(), String>) -> (act: JobAction)
        requires
            old(self).wf(),
            old(self).phase is Cleanup,
        ensures
            final(self).wf(),
            same_job_identity(*old(self), *final(self)),
            final(self).image_state == old(self).image_state,
            final(self).phase is Finished,
            final(self).failure == old(self).failure,
            final(self).next_step == old(self).next_step,
            act == JobAction::Finish,
    {
        let _ = outcome;
        self.phase = Phase::Finished;
        JobAction::Finish
    }

    /// Whether the finished job succeeded: no step failed, the image
    /// was built, and no cancellation struck.
    pub fn succeeded(&self) -> (b: bool)
        requires
            self.phase is Finished,
        ensures
            b == (self.failure is None),
    {
        self.failure.is_none()
    }
}

} // verus!
