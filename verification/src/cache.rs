use vstd::prelude::*;

verus! {

/// Descriptor of the most recently built image for one logical name:
/// the resolved reference/digest, the tag, the build time, and the OS
/// metadata needed to parameterize containers built from it.
#[derive(Debug)]
pub struct ImageState {
    /// The logical image name.
    pub image: String,
    /// The engine-assigned image reference/digest.
    pub id: String,
    /// The tag the image was built under.
    pub tag: String,
    /// Build time, in seconds since the epoch.
    pub timestamp: u64,
    /// Target OS identifier of the image.
    pub os: String,
    /// Target OS version of the image.
    pub os_version: String,
}

impl Clone for ImageState {
    fn clone(&self) -> (res: Self)
        ensures
            res == *self,
    {
        ImageState {
            image: self.image.clone(),
            id: self.id.clone(),
            tag: self.tag.clone(),
            timestamp: self.timestamp,
            os: self.os.clone(),
            os_version: self.os_version.clone(),
        }
    }
}

/// The most recently recorded state among `entries` for a logical name:
/// the match closest to the end of the sequence.
pub open spec fn latest_in(entries: Seq<ImageState>, name: Seq<char>) -> Option<ImageState>
    decreases entries.len(),
{
    if entries.len() == 0 {
        Option::None
    } else if entries.last().image@ == name {
        Option::Some(entries.last())
    } else {
        latest_in(entries.drop_last(), name)
    }
}

/// In-memory mapping from logical image name to the state of its most
/// recent successful build. Last write wins; no expiry, no history. A
/// lookup miss is a normal condition for a never-before-built name. The
/// cache is the only state shared across concurrently running jobs, so
/// a writer must hold exclusive access for its single overwrite.
#[derive(Debug)]
pub struct ImagesState {
    entries: Vec<ImageState>,
}

/// How one cache update relates the cache before and after recording
/// `st`: the entry for `st`'s name is exactly `st`, every other name is
/// untouched, and the entry count grows only when the name is new.
pub open spec fn update_post(pre: ImagesState, post: ImagesState, st: ImageState) -> bool {
    &&& post.wf()
    &&& post.spec_latest(st.image@) == Option::Some(st)
    &&& forall|n: Seq<char>| n != st.image@ ==> post.spec_latest(n) == pre.spec_latest(n)
    &&& post.spec_len() == if pre.contains_name(st.image@) {
        pre.spec_len()
    } else {
        pre.spec_len() + 1
    }
}

impl ImagesState {
    /// The current state recorded for a logical name, if any.
    pub closed spec fn spec_latest(self, name: Seq<char>) -> Option<ImageState> {
        latest_in(self.entries@, name)
    }

    /// Whether any state is recorded for a logical name.
    pub open spec fn contains_name(self, name: Seq<char>) -> bool {
        self.spec_latest(name) is Some
    }

    /// How many logical names have a recorded state.
    pub closed spec fn spec_len(self) -> nat {
        self.entries@.len()
    }

    /// Each logical name has at most one entry.
    pub closed spec fn wf(self) -> bool {
        forall|i: int, j: int|
            0 <= i < j < self.entries@.len() ==> (#[trigger] self.entries@[i]).image@ != (
            #[trigger] self.entries@[j]).image@
    }

    /// An empty cache: no name has a recorded state.
    pub fn new() -> (c: ImagesState)
        ensures
            c.wf(),
            c.spec_len() == 0,
            forall|n: Seq<char>| !(#[trigger] c.contains_name(n)),
    {
        ImagesState { entries: Vec::new() }
    }

    /// The number of entries currently held.
    pub fn len(&self) -> (n: usize)
        ensures
            n == self.spec_len(),
    {
        self.entries.len()
    }

    /// Looks the logical name up; a miss is not an error.
    pub fn latest(&self, name: &String) -> (r: Option<&ImageState>)
        ensures
            (match r {
                Option::Some(st) => self.spec_latest(name@) == Option::Some(*st),
                Option::None => self.spec_latest(name@) is None,
            }),
    {
        let mut i: usize = self.entries.len();
        proof {
            assert(self.entries@.take(i as int) =~= self.entries@);
        }
        while i > 0
            invariant
                i <= self.entries@.len(),
                latest_in(self.entries@, name@) == latest_in(
                    self.entries@.take(i as int),
                    name@,
                ),
            decreases i,
        {
            i = i - 1;
            let ghost t = self.entries@.take(i as int + 1);
            proof {
                assert(t.last() == self.entries@[i as int]);
                assert(t.drop_last() =~= self.entries@.take(i as int));
            }
            if self.entries[i].image.eq(name) {
                return Option::Some(&self.entries[i]);
            }
        }
        Option::None
    }

    /// Records the state of a successful build: overwrites any prior
    /// entry for the same logical name, inserts a first entry otherwise.
    pub fn update(&mut self, st: ImageState)
        requires
            old(self).wf(),
        ensures
            update_post(*old(self), *final(self), st),
    {
        let ghost pre = self.entries@;
        let mut i: usize = 0;
        while i < self.entries.len()
            invariant
                self.entries@ == pre,
                pre == old(self).entries@,
                i <= pre.len(),
                forall|p: int, q: int|
                    0 <= p < q < pre.len() ==> (#[trigger] pre[p]).image@ != (
                    #[trigger] pre[q]).image@,
                forall|k: int| 0 <= k < i ==> (#[trigger] pre[k]).image@ != st.image@,
            decreases pre.len() - i,
        {
            if self.entries[i].image.eq(&st.image) {
                self.entries.set(i, st);
                proof {
                    lemma_update_at(pre, self.entries@, st, i as int);
                }
                return ;
            }
            i = i + 1;
        }
        self.entries.push(st);
        proof {
            lemma_append_new(pre, self.entries@, st);
        }
    }
}

/// If names are unique and position `i` holds `name`, the latest entry
/// for `name` is the one at `i`.
proof fn lemma_latest_found(entries: Seq<ImageState>, name: Seq<char>, i: int)
    requires
        forall|p: int, q: int|
            0 <= p < q < entries.len() ==> (#[trigger] entries[p]).image@ != (
            #[trigger] entries[q]).image@,
        0 <= i < entries.len(),
        entries[i].image@ == name,
    ensures
        latest_in(entries, name) == Option::Some(entries[i]),
    decreases entries.len(),
{
    if i == entries.len() - 1 {
    } else {
        assert(entries.last().image@ != name);
        assert(entries.drop_last()[i] == entries[i]);
        lemma_latest_found(entries.drop_last(), name, i);
    }
}

/// If no position holds `name`, there is no latest entry for it.
proof fn lemma_latest_missing(entries: Seq<ImageState>, name: Seq<char>)
    requires
        forall|p: int| 0 <= p < entries.len() ==> (#[trigger] entries[p]).image@ != name,
    ensures
        latest_in(entries, name) is None,
    decreases entries.len(),
{
    if entries.len() > 0 {
        lemma_latest_missing(entries.drop_last(), name);
    }
}

/// Overwriting the unique entry that carries `st`'s name satisfies the
/// update contract.
proof fn lemma_update_at(pre: Seq<ImageState>, post: Seq<ImageState>, st: ImageState, i: int)
    requires
        forall|p: int, q: int|
            0 <= p < q < pre.len() ==> (#[trigger] pre[p]).image@ != (#[trigger] pre[q]).image@,
        0 <= i < pre.len(),
        pre[i].image@ == st.image@,
        post == pre.update(i, st),
    ensures
        forall|p: int, q: int|
            0 <= p < q < post.len() ==> (#[trigger] post[p]).image@ != (#[trigger] post[q]).image@,
        latest_in(post, st.image@) == Option::Some(st),
        forall|n: Seq<char>| n != st.image@ ==> latest_in(post, n) == latest_in(pre, n),
        latest_in(pre, st.image@) is Some,
        post.len() == pre.len(),
{
    assert forall|p: int, q: int| 0 <= p < q < post.len() implies (#[trigger] post[p]).image@ != (
    #[trigger] post[q]).image@ by {
        assert(post[p].image@ == pre[p].image@);
        assert(post[q].image@ == pre[q].image@);
    }
    lemma_latest_found(post, st.image@, i);
    lemma_latest_found(pre, st.image@, i);
    assert forall|n: Seq<char>| n != st.image@ implies latest_in(post, n) == latest_in(
        pre,
        n,
    ) by {
        if exists|p: int| 0 <= p < pre.len() && (#[trigger] pre[p]).image@ == n {
            let p = choose|p: int| 0 <= p < pre.len() && (#[trigger] pre[p]).image@ == n;
            lemma_latest_found(pre, n, p);
            assert(post[p] == pre[p]);
            lemma_latest_found(post, n, p);
        } else {
            lemma_latest_missing(pre, n);
            assert forall|p: int| 0 <= p < post.len() implies (#[trigger] post[p]).image@ != n by {
                assert(pre[p].image@ != n);
            }
            lemma_latest_missing(post, n);
        }
    }
}

/// Appending a first entry for a new name satisfies the update contract.
proof fn lemma_append_new(pre: Seq<ImageState>, post: Seq<ImageState>, st: ImageState)
    requires
        forall|p: int, q: int|
            0 <= p < q < pre.len() ==> (#[trigger] pre[p]).image@ != (#[trigger] pre[q]).image@,
        forall|p: int| 0 <= p < pre.len() ==> (#[trigger] pre[p]).image@ != st.image@,
        post == pre.push(st),
    ensures
        forall|p: int, q: int|
            0 <= p < q < post.len() ==> (#[trigger] post[p]).image@ != (#[trigger] post[q]).image@,
        latest_in(post, st.image@) == Option::Some(st),
        forall|n: Seq<char>| n != st.image@ ==> latest_in(post, n) == latest_in(pre, n),
        latest_in(pre, st.image@) is None,
        post.len() == pre.len() + 1,
{
    lemma_latest_missing(pre, st.image@);
    assert(post.last() == st);
    assert(post.drop_last() =~= pre);
    assert forall|p: int, q: int| 0 <= p < q < post.len() implies (#[trigger] post[p]).image@ != (
    #[trigger] post[q]).image@ by {
        if q < post.len() - 1 {
            assert(post[p] == pre[p] && post[q] == pre[q]);
        } else {
            assert(post[q] == st);
            assert(post[p] == pre[p]);
        }
    }
}

/// Building a never-before-built name into an empty cache leaves exactly
/// one entry for it; rebuilding the same name overwrites that entry
/// rather than inserting a second one.
pub proof fn lemma_rebuild_single_entry(
    c0: ImagesState,
    c1: ImagesState,
    c2: ImagesState,
    a: ImageState,
    b: ImageState,
)
    requires
        c0.spec_len() == 0,
        update_post(c0, c1, a),
        update_post(c1, c2, b),
        a.image@ == b.image@,
    ensures
        c1.spec_len() == 1,
        c2.spec_len() == 1,
{
    assert(c0.entries@.len() == 0);
    assert(latest_in(c0.entries@, a.image@) is None);
}

} // verus!
