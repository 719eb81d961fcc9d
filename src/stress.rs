use vstd::prelude::*;

verus! {

/// Bytes in each chunk the buffer allocates.
pub const CHUNK_SIZE: usize = 1000;

/// Most chunks the buffer keeps after a step.
pub const RETAINED_CAP: usize = 1000;

/// Chunks appended per frame at stress levels 1, 2 and 3.
pub open spec fn per_level(level: int) -> int {
    if level == 1 {
        100
    } else if level == 2 {
        1000
    } else {
        10000
    }
}

/// The number of chunks appended per frame at stress level 1, 2 or 3.
pub fn objects_per_level(level: u32) -> (n: usize)
    requires
        1 <= level <= 3,
    ensures
        n == per_level(level as int),
{
    let table: [usize; 3] = [100, 1000, 10000];
    table[(level - 1) as usize]
}

/// A bounded first-in first-out pool of zero-filled chunks that simulates
/// allocation churn, with a count of the chunks ever appended.
pub struct StressBuffer {
    objects: Vec<Vec<u8>>,
    objects_created: u64,
}

impl StressBuffer {
    /// Chunks currently held.
    pub closed spec fn retained_spec(&self) -> nat {
        self.objects@.len()
    }

    /// Chunks appended since creation or the last reset.
    pub closed spec fn created_spec(&self) -> nat {
        self.objects_created as nat
    }

    /// At most the cap of chunks, each of the chunk size.
    pub closed spec fn wf(&self) -> bool {
        &&& self.objects@.len() <= RETAINED_CAP
        &&& forall|i: int| 0 <= i < self.objects@.len() ==> (#[trigger] self.objects@[i])@.len() == CHUNK_SIZE
    }

    /// An empty buffer that has created nothing.
    pub fn new() -> (r: StressBuffer)
        ensures
            r.wf(),
            r.retained_spec() == 0,
            r.created_spec() == 0,
    {
        StressBuffer { objects: Vec::new(), objects_created: 0 }
    }

    /// Chunks currently held.
    pub fn retained(&self) -> (n: usize)
        ensures
            n == self.retained_spec(),
    {
        self.objects.len()
    }

    /// Chunks appended since creation or the last reset.
    pub fn objects_created(&self) -> (n: u64)
        ensures
            n == self.created_spec(),
    {
        self.objects_created
    }

    /// While stress is enabled, appends `objects_per_frame` chunks and then
    /// drops the oldest until no more than the cap remain; otherwise does
    /// nothing.
    pub fn step(&mut self, enabled: bool, objects_per_frame: usize)
        requires
            old(self).wf(),
            old(self).created_spec() + objects_per_frame <= u64::MAX,
        ensures
            final(self).wf(),
            enabled ==> final(self).retained_spec() == if old(self).retained_spec() + objects_per_frame
                > RETAINED_CAP {
                RETAINED_CAP as nat
            } else {
                (old(self).retained_spec() + objects_per_frame) as nat
            },
            enabled ==> final(self).created_spec() == old(self).created_spec() + objects_per_frame,
            !enabled ==> *final(self) == *old(self),
    {
        if !enabled {
            return;
        }
        let ghost start = self.objects@;
        let mut k: usize = 0;
        while k < objects_per_frame
            invariant
                0 <= k <= objects_per_frame,
                self.objects@.len() == start.len() + k,
                self.objects_created == old(self).objects_created + k,
                old(self).objects_created + objects_per_frame <= u64::MAX,
                forall|i: int| 0 <= i < self.objects@.len() ==> (#[trigger] self.objects@[i])@.len() == CHUNK_SIZE,
            decreases objects_per_frame - k,
        {
            let chunk: Vec<u8> = vec![0u8; CHUNK_SIZE];
            self.objects.push(chunk);
            self.objects_created = self.objects_created + 1;
            k = k + 1;
        }
        let len = self.objects.len();
        if len > RETAINED_CAP {
            let kept = self.objects.split_off(len - RETAINED_CAP);
            self.objects = kept;
        }
    }

    /// Drops every chunk and zeroes the count of chunks created.
    pub fn reset(&mut self)
        ensures
            final(self).wf(),
            final(self).retained_spec() == 0,
            final(self).created_spec() == 0,
    {
        self.objects.clear();
        self.objects_created = 0;
    }
}

} // verus!
