//! The rotation scheduler's state machine: a fixed image set, an
//! iteration index, the wait between applications, and the ordering
//! policy. The caller drives the apply-wait-advance loop; this module
//! decides which image each iteration applies.

use vstd::prelude::*;
use vstd::arithmetic::div_mod::lemma_mod_add_multiples_vanish;
use vstd::arithmetic::div_mod::lemma_small_mod;
use rand::seq::SliceRandom;
use crate::errors::RotationMode;

verus! {

/// The image a sequential rotation applies at iteration `k` (counted
/// from zero): the set wraps, so it is the entry at `k` modulo the
/// length of the set.
pub open spec fn sequential_image_at(images: Seq<String>, k: int) -> String
    recommends
        images.len() > 0,
        0 <= k,
{
    images[k % (images.len() as int)]
}

/// Relies on rand's `SliceRandom::shuffle`, a Fisher–Yates shuffle
/// built from in-place swaps: afterwards the vector holds exactly the
/// elements it held before, rearranged, and its length is unchanged.
#[verifier::external_body]
fn shuffle_in_place(images: &mut Vec<String>)
    ensures
        final(images)@.len() == old(images)@.len(),
        final(images)@.to_multiset() == old(images)@.to_multiset(),
{
    images.shuffle(&mut rand::thread_rng());
}

/// The working state of one rotation run. It is created once, owns its
/// image list for the whole run, and is never re-read from the
/// directory: a deleted file only makes its own iterations fail.
pub struct RotationState {
    images: Vec<String>,
    index: u64,
    interval_minutes: u64,
    mode: RotationMode,
}

impl RotationState {
    /// The image list the scheduler currently rotates through.
    pub closed spec fn spec_images(&self) -> Seq<String> {
        self.images@
    }

    /// The iteration index; the image it selects is taken modulo the
    /// length of the list.
    pub closed spec fn spec_index(&self) -> u64 {
        self.index
    }

    /// The wait, in minutes, between applications.
    pub closed spec fn spec_interval(&self) -> u64 {
        self.interval_minutes
    }

    /// The ordering policy of this run.
    pub closed spec fn spec_mode(&self) -> RotationMode {
        self.mode
    }

    /// A usable state owns at least one image.
    pub closed spec fn wf(&self) -> bool {
        self.images@.len() > 0
    }

    /// Build the state for one run: the index starts at zero; under
    /// `Random` the set is shuffled once before the first application,
    /// under `Sequential` the given order is kept as it is.
    pub fn new(images: Vec<String>, interval_minutes: u64, mode: RotationMode) -> (s: Self)
        requires
            images@.len() > 0,
        ensures
            s.wf(),
            s.spec_index() == 0,
            s.spec_interval() == interval_minutes,
            s.spec_mode() == mode,
            s.spec_images().len() == images@.len(),
            s.spec_images().to_multiset() == images@.to_multiset(),
            mode is Sequential ==> s.spec_images() == images@,
    {
        let mut images = images;
        match mode {
            RotationMode::Random => {
                shuffle_in_place(&mut images);
            },
            RotationMode::Sequential => {},
        }
        RotationState { images, index: 0, interval_minutes, mode }
    }

    /// The image this iteration applies: the entry at the current
    /// index, taken modulo the length of the set.
    pub fn current_image(&self) -> (r: &String)
        requires
            self.wf(),
        ensures
            *r == sequential_image_at(self.spec_images(), self.spec_index() as int),
    {
        let len = self.images.len();
        let i = (self.index % (len as u64)) as usize;
        &self.images[i]
    }

    /// One policy step, taken after the wait: `Sequential` advances the
    /// index by one (the wrap happens at use time), `Random` reshuffles
    /// the whole set and restarts at index zero. Whether the preceding
    /// application succeeded plays no part: the next iteration is
    /// prepared either way.
    pub fn advance(&mut self)
        requires
            old(self).wf(),
            old(self).spec_index() < u64::MAX,
        ensures
            final(self).wf(),
            final(self).spec_mode() == old(self).spec_mode(),
            final(self).spec_interval() == old(self).spec_interval(),
            final(self).spec_images().len() == old(self).spec_images().len(),
            final(self).spec_images().to_multiset() == old(self).spec_images().to_multiset(),
            old(self).spec_mode() is Sequential ==> final(self).spec_images() == old(
                self,
            ).spec_images() && final(self).spec_index() == old(self).spec_index() + 1,
            old(self).spec_mode() is Random ==> final(self).spec_index() == 0,
    {
        match self.mode {
            RotationMode::Sequential => {
                self.index = self.index + 1;
            },
            RotationMode::Random => {
                shuffle_in_place(&mut self.images);
                self.index = 0;
            },
        }
    }

    /// The image list, for reading.
    pub fn image_list(&self) -> (r: &Vec<String>)
        ensures
            r@ == self.spec_images(),
    {
        &self.images
    }

    /// The current iteration index.
    pub fn index(&self) -> (r: u64)
        ensures
            r == self.spec_index(),
    {
        self.index
    }

    /// The wait, in minutes, between applications.
    pub fn interval_minutes(&self) -> (r: u64)
        ensures
            r == self.spec_interval(),
    {
        self.interval_minutes
    }

    /// The ordering policy of this run.
    pub fn mode(&self) -> (r: RotationMode)
        ensures
            r == self.spec_mode(),
    {
        self.mode
    }
}

/// The wait between applications, in seconds.
pub fn interval_seconds(minutes: u64) -> (s: u64)
    requires
        minutes <= u64::MAX / 60,
    ensures
        s == minutes * 60,
{
    minutes * 60
}

/// Sequential rotation is cyclic with period `images.len()`: with the
/// index advancing by one per iteration, the image applied at iteration
/// `k + N` over a set of `N` images is the image applied at `k`.
pub proof fn lemma_sequential_cycle(images: Seq<String>, k: int)
    requires
        images.len() > 0,
        0 <= k,
    ensures
        sequential_image_at(images, k + images.len()) == sequential_image_at(images, k),
{
    lemma_mod_add_multiples_vanish(k, images.len() as int);
}

/// Over its first `2N` iterations a sequential rotation applies the
/// initial order twice: iteration `k < N` applies the `k`-th image of
/// the set, and iteration `k + N` applies that same image again.
pub proof fn lemma_sequential_first_two_rounds(images: Seq<String>, k: int)
    requires
        images.len() > 0,
        0 <= k < images.len(),
    ensures
        sequential_image_at(images, k) == images[k],
        sequential_image_at(images, k + images.len()) == images[k],
{
    lemma_small_mod(k as nat, images.len() as nat);
    lemma_sequential_cycle(images, k);
}

/// The whole trace of a sequential rotation's first `2N` iterations is
/// the initial order repeated twice.
pub proof fn lemma_sequential_trace_two_rounds(images: Seq<String>)
    requires
        images.len() > 0,
    ensures
        Seq::new(2 * images.len(), |k: int| sequential_image_at(images, k)) =~= images + images,
{
    let n = images.len() as int;
    let trace = Seq::new(2 * images.len(), |k: int| sequential_image_at(images, k));
    assert forall|k: int| 0 <= k < 2 * n implies trace[k] == (images + images)[k] by {
        if k < n {
            lemma_sequential_first_two_rounds(images, k);
        } else {
            lemma_sequential_first_two_rounds(images, k - n);
        }
    }
}

} // verus!
