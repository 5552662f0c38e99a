use vstd::prelude::*;

verus! {

/// One build step: a shell command, and the set of image names it is
/// restricted to. `None` means the step applies to every image; a
/// present set is meant to be non-empty.
#[derive(Debug)]
pub struct Step {
    pub cmd: String,
    pub images: Option<Vec<String>>,
}

/// A declarative build definition: a name, an ordered sequence of
/// steps, and the environment entries the recipe declares for its
/// build containers.
#[derive(Debug)]
pub struct Recipe {
    pub name: String,
    pub steps: Vec<Step>,
    pub env: Vec<EnvPair>,
}

/// One environment entry handed to a build container.
#[derive(Debug)]
pub struct EnvPair {
    pub key: String,
    pub value: String,
}

/// Whether a step applies to the given target image: it does unless it
/// names a set of applicable images that leaves the target out.
pub open spec fn spec_applies(step: Step, image: Seq<char>) -> bool {
    match step.images {
        Option::None => true,
        Option::Some(list) => exists|i: int| 0 <= i < list@.len() && (#[trigger] list@[i])@ == image,
    }
}

/// The commands of the steps that apply to the target image, in
/// declared order; a step left out is skipped, not failed.
pub open spec fn spec_commands(steps: Seq<Step>, image: Seq<char>) -> Seq<Seq<char>>
    decreases steps.len(),
{
    if steps.len() == 0 {
        Seq::empty()
    } else {
        let rest = spec_commands(steps.drop_last(), image);
        if spec_applies(steps.last(), image) {
            rest.push(steps.last().cmd@)
        } else {
            rest
        }
    }
}

/// Whether any element of `list` reads as `s`.
fn contains_string(list: &Vec<String>, s: &String) -> (b: bool)
    ensures
        b == exists|i: int| 0 <= i < list@.len() && (#[trigger] list@[i])@ == s@,
{
    let mut j: usize = 0;
    while j < list.len()
        invariant
            j <= list@.len(),
            forall|i: int| 0 <= i < j ==> (#[trigger] list@[i])@ != s@,
        decreases list@.len() - j,
    {
        if list[j].eq(s) {
            return true;
        }
        j = j + 1;
    }
    false
}

/// Decides whether a step runs against the target image.
pub fn step_applies(step: &Step, image: &String) -> (b: bool)
    ensures
        b == spec_applies(*step, image@),
{
    match &step.images {
        Option::None => true,
        Option::Some(list) => contains_string(list, image),
    }
}

/// Plans one job's exec calls: the commands of the applicable steps, in
/// declared order.
pub fn plan_commands(steps: &Vec<Step>, image: &String) -> (cmds: Vec<String>)
    ensures
        cmds.deep_view() == spec_commands(steps@, image@),
{
    let mut cmds: Vec<String> = Vec::new();
    proof {
        assert(steps@.take(0) =~= Seq::<Step>::empty());
        assert(cmds.deep_view() =~= spec_commands(steps@.take(0), image@));
    }
    let mut i: usize = 0;
    while i < steps.len()
        invariant
            i <= steps@.len(),
            cmds.deep_view() == spec_commands(steps@.take(i as int), image@),
        decreases steps@.len() - i,
    {
        proof {
            let t = steps@.take(i as int + 1);
            assert(t.last() == steps@[i as int]);
            assert(t.drop_last() =~= steps@.take(i as int));
        }
        if step_applies(&steps[i], image) {
            let ghost pre = cmds.deep_view();
            let cmd = steps[i].cmd.clone();
            let ghost cmd_view = cmd@;
            cmds.push(cmd);
            proof {
                assert(cmds.deep_view() =~= pre.push(cmd_view));
            }
        }
        i = i + 1;
    }
    proof {
        assert(steps@.take(steps@.len() as int) =~= steps@);
    }
    cmds
}

/// A recipe in which no step names the target image in its set of
/// applicable images plans no commands at all: the job will issue zero
/// step executions.
pub proof fn lemma_no_applicable_steps(steps: Seq<Step>, image: Seq<char>)
    requires
        forall|i: int| 0 <= i < steps.len() ==> !spec_applies(#[trigger] steps[i], image),
    ensures
        spec_commands(steps, image) == Seq::<Seq<char>>::empty(),
    decreases steps.len(),
{
    if steps.len() > 0 {
        assert(steps.last() == steps[steps.len() - 1]);
        assert(forall|i: int|
            0 <= i < steps.drop_last().len() ==> steps.drop_last()[i] == steps[i]);
        lemma_no_applicable_steps(steps.drop_last(), image);
    }
}

} // verus!
