//! The postings seen so far, by identity.

use vstd::hash_set::StringHashSet;
use vstd::prelude::*;

use crate::models::ids;
use crate::models::views;
use crate::models::JobPosting;
use crate::models::JobPostingView;
use crate::text::texts_of;

verus! {

/// The identities of the postings seen so far. The set only grows.
pub struct State {
    /// The identities in the order in which they came, each once.
    seen_job_ids: Vec<String>,
    /// The same identities, to look one up.
    index: StringHashSet,
}

impl View for State {
    type V = Set<Seq<char>>;

    closed spec fn view(&self) -> Set<Seq<char>> {
        self.index@
    }
}

/// The seen set after the given postings were marked: the identities of all of
/// them are in it, next to those that were there before.
pub open spec fn marked(seen: Set<Seq<char>>, jobs: Seq<JobPostingView>) -> Set<Seq<char>> {
    seen.union(ids(jobs).to_set())
}

/// The postings among `jobs` whose identity is not in the seen set, in their
/// order.
pub open spec fn unseen(seen: Set<Seq<char>>, jobs: Seq<JobPostingView>) -> Seq<JobPostingView> {
    jobs.filter(|job: JobPostingView| !seen.contains(job.id))
}

impl State {
    /// What holds of every state: the list and the index hold the same
    /// identities, and the list holds none twice.
    #[verifier::type_invariant]
    closed spec fn wf(&self) -> bool {
        &&& self.index@ == texts_of(self.seen_job_ids@).to_set()
        &&& texts_of(self.seen_job_ids@).no_duplicates()
    }

    /// A state in which nothing was seen yet.
    pub fn new() -> (state: State)
        ensures
            state@ == Set::<Seq<char>>::empty(),
    {
        let seen_job_ids: Vec<String> = Vec::new();
        let index = StringHashSet::new();
        assert(texts_of(seen_job_ids@).to_set() == Set::<Seq<char>>::empty());
        State { seen_job_ids, index }
    }

    /// The number of identities seen.
    pub fn seen_count(&self) -> (count: usize)
        ensures
            count == self@.len(),
    {
        proof {
            use_type_invariant(self);
            texts_of(self.seen_job_ids@).unique_seq_to_set();
        }
        self.seen_job_ids.len()
    }

    /// Whether the posting was not seen before.
    pub fn is_new(&self, job: &JobPosting) -> (r: bool)
        ensures
            r == !self@.contains(job@.id),
    {
        !self.index.contains(job.id.as_str())
    }

    fn with(self, id: &String) -> (next: State)
        ensures
            next@ == self@.insert(id@),
    {
        proof {
            use_type_invariant(&self);
        }
        let State { mut seen_job_ids, mut index } = self;
        if !index.contains(id.as_str()) {
            let ghost before = texts_of(seen_job_ids@);
            proof {
                seen_job_ids@.lemma_push_map_commute(|part: String| part@, *id);
                before.lemma_push_to_set_commute(id@);
            }
            index.insert(id.clone());
            seen_job_ids.push(id.clone());
            assert(texts_of(seen_job_ids@) == before.push(id@));
        } else {
            assert(index@.insert(id@) == index@);
        }
        State { seen_job_ids, index }
    }

    /// Marks the postings as seen. One that was seen before changes nothing.
    pub fn mark_jobs_seen(&mut self, jobs: &[JobPosting])
        ensures
            final(self)@ == marked(old(self)@, views(jobs@)),
    {
        let ghost all = ids(views(jobs@));
        let mut state = State::new();
        std::mem::swap(self, &mut state);
        let mut i: usize = 0;
        assert(all.take(0).to_set() == Set::<Seq<char>>::empty());
        assert(old(self)@.union(Set::empty()) == old(self)@);
        while i < jobs.len()
            invariant
                i <= jobs.len(),
                all == ids(views(jobs@)),
                state@ == old(self)@.union(all.take(i as int).to_set()),
            decreases jobs.len() - i,
        {
            proof {
                all.lemma_take_succ_push(i as int);
                all.take(i as int).lemma_push_to_set_commute(all[i as int]);
            }
            state = state.with(&jobs[i].id);
            i += 1;
        }
        assert(all.take(jobs.len() as int) == all);
        *self = state;
    }

    /// The postings among `jobs` that were not seen before, in their order.
    pub fn filter_new_jobs(&self, jobs: &[JobPosting]) -> (fresh: Vec<JobPosting>)
        ensures
            views(fresh@) == unseen(self@, views(jobs@)),
    {
        let ghost all = views(jobs@);
        let ghost keep = |job: JobPostingView| !self@.contains(job.id);
        let mut fresh: Vec<JobPosting> = Vec::new();
        let mut i: usize = 0;
        assert(all.take(0).filter(keep) == Seq::<JobPostingView>::empty()) by {
            reveal(Seq::filter);
        }
        while i < jobs.len()
            invariant
                i <= jobs.len(),
                all == views(jobs@),
                keep == |job: JobPostingView| !self@.contains(job.id),
                views(fresh@) == all.take(i as int).filter(keep),
            decreases jobs.len() - i,
        {
            proof {
                all.lemma_take_succ_push(i as int);
                all.take(i as int).lemma_filter_push(all[i as int], keep);
            }
            if self.is_new(&jobs[i]) {
                let job = jobs[i].clone();
                proof {
                    fresh@.lemma_push_map_commute(|j: JobPosting| j@, job);
                }
                fresh.push(job);
            }
            i += 1;
        }
        assert(all.take(jobs.len() as int) == all);
        fresh
    }

    /// The state that holds the given identities.
    pub fn from_ids(stored: &Vec<String>) -> (state: State)
        ensures
            state@ == texts_of(stored@).to_set(),
    {
        let ghost all = texts_of(stored@);
        let mut state = State::new();
        let mut i: usize = 0;
        assert(all.take(0).to_set() == Set::<Seq<char>>::empty());
        while i < stored.len()
            invariant
                i <= stored.len(),
                all == texts_of(stored@),
                state@ == all.take(i as int).to_set(),
            decreases stored.len() - i,
        {
            proof {
                all.lemma_take_succ_push(i as int);
                all.take(i as int).lemma_push_to_set_commute(all[i as int]);
            }
            state = state.with(&stored[i]);
            i += 1;
        }
        assert(all.take(stored.len() as int) == all);
        state
    }

    /// The identities seen, each once.
    pub fn to_ids(&self) -> (stored: Vec<String>)
        ensures
            texts_of(stored@).to_set() == self@,
            texts_of(stored@).no_duplicates(),
    {
        proof {
            use_type_invariant(self);
        }
        let stored = self.seen_job_ids.clone();
        assert(stored@ == self.seen_job_ids@);
        stored
    }
}

/// Marking the same postings a second time changes nothing: the set, and with
/// it the number of identities seen, stays as it was after the first time.
pub proof fn lemma_marking_twice(seen: Set<Seq<char>>, jobs: Seq<JobPostingView>)
    ensures
        marked(marked(seen, jobs), jobs) == marked(seen, jobs),
        marked(marked(seen, jobs), jobs).len() == marked(seen, jobs).len(),
{
    assert(marked(marked(seen, jobs), jobs) =~= marked(seen, jobs));
}

/// Once postings are marked, none of them is new, whatever was seen before.
pub proof fn lemma_marked_are_seen(seen: Set<Seq<char>>, jobs: Seq<JobPostingView>)
    ensures
        unseen(marked(seen, jobs), jobs) == Seq::<JobPostingView>::empty(),
{
    let after = marked(seen, jobs);
    let keep = |job: JobPostingView| !after.contains(job.id);
    assert forall|i: int| 0 <= i < jobs.len() implies !keep(#[trigger] jobs[i]) by {
        assert(ids(jobs)[i] == jobs[i].id);
        assert(ids(jobs).to_set().contains(jobs[i].id));
    }
    jobs.lemma_all_neg_filter_empty(keep);
}

/// After the posting `a` is marked in a seen set, of the two postings `a` and
/// `b` exactly `b` is new, provided `b` is another posting and was not seen.
pub proof fn lemma_only_the_other_is_new(
    seen: Set<Seq<char>>,
    a: JobPostingView,
    b: JobPostingView,
)
    requires
        a.id != b.id,
        !seen.contains(b.id),
    ensures
        unseen(marked(seen, seq![a]), seq![a, b]) == seq![b],
{
    let after = marked(seen, seq![a]);
    let keep = |job: JobPostingView| !after.contains(job.id);
    assert(ids(seq![a])[0] == a.id);
    assert(ids(seq![a]).to_set().contains(a.id));
    assert(forall|i: int| 0 <= i < ids(seq![a]).len() ==> ids(seq![a])[i] == a.id);
    assert(!after.contains(b.id));
    assert(seq![a, b] == Seq::<JobPostingView>::empty().push(a).push(b));
    reveal(Seq::filter);
    Seq::<JobPostingView>::empty().lemma_filter_push(a, keep);
    Seq::<JobPostingView>::empty().push(a).lemma_filter_push(b, keep);
    assert(Seq::<JobPostingView>::empty().filter(keep) == Seq::<JobPostingView>::empty());
}

} // verus!
