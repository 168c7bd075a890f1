//! Fixed-capacity concurrent-cache core: a true circular buffer with
//! overwrite-on-full semantics, plus the laws that govern which frames stay
//! resident and which frame is the latest.
//!
//! The frame list and the write cursor live in one structure, and every
//! operation is a single function over the pair, so no caller can ever
//! observe a cursor that disagrees with the list. A caller that shares the
//! store across tasks wraps the whole value in one lock, making each
//! operation one critical section over both fields.

use vstd::prelude::*;
use vstd::arithmetic::div_mod::{
    lemma_fundamental_div_mod,
    lemma_fundamental_div_mod_converse,
    lemma_small_mod,
};
use crate::errors::StoreError;
use crate::frame::{Frame, FrameView};

verus! {

/// Mathematical image of a [`MemoryStore`]: the resident frames in
/// positional order, the write cursor, and the fixed capacity.
pub ghost struct RingView {
    pub frames: Seq<FrameView>,
    pub current: nat,
    pub capacity: nat,
}

impl RingView {
    /// Internal consistency: the store holds at most `capacity` frames, the
    /// cursor stays inside the buffer, and it has not moved while the
    /// buffer is still filling.
    pub open spec fn wf(self) -> bool {
        &&& self.capacity >= 1
        &&& self.frames.len() <= self.capacity
        &&& self.current < self.capacity
        &&& (self.frames.len() < self.capacity ==> self.current == 0)
    }

    /// A fresh store that has never received a frame.
    pub open spec fn empty(capacity: nat) -> RingView {
        RingView { frames: Seq::empty(), current: 0, capacity }
    }

    /// One store: append while below capacity; once full, overwrite the
    /// slot under the cursor and advance the cursor by one, wrapping.
    pub open spec fn store_one(self, f: FrameView) -> RingView {
        if self.frames.len() < self.capacity {
            RingView { frames: self.frames.push(f), current: self.current, capacity: self.capacity }
        } else {
            RingView {
                frames: self.frames.update(self.current as int, f),
                current: ((self.current + 1) % self.capacity) as nat,
                capacity: self.capacity,
            }
        }
    }

    /// A whole sequence of stores, first element stored first.
    pub open spec fn store_all(self, fs: Seq<FrameView>) -> RingView
        decreases fs.len(),
    {
        if fs.len() == 0 {
            self
        } else {
            self.store_all(fs.drop_last()).store_one(fs.last())
        }
    }

    /// Position of the most recently stored frame: the last appended slot
    /// while filling, and the slot one step behind the cursor once full.
    pub open spec fn latest_index(self) -> int {
        if self.frames.len() < self.capacity {
            self.frames.len() - 1
        } else {
            (self.current + self.capacity - 1) % (self.capacity as int)
        }
    }

    /// The most recently stored frame.
    pub open spec fn latest(self) -> FrameView
        recommends
            self.wf(),
            self.frames.len() > 0,
    {
        self.frames[self.latest_index()]
    }
}

/// The position in a store-sequence of length `k` whose frame is resident
/// at slot `p` of a full buffer of capacity `c`: the last index congruent
/// to `p` modulo `c`.
pub open spec fn window_index(k: int, c: int, p: int) -> int {
    k - 1 - ((k - 1 - p) % c)
}

/// Fixed-capacity in-memory store of the most recent frames.
pub struct MemoryStore {
    frames: Vec<Frame>,
    max_frames: usize,
    current: usize,
}

impl View for MemoryStore {
    type V = RingView;

    closed spec fn view(&self) -> RingView {
        RingView {
            frames: self.frames@.map_values(|f: Frame| f@),
            current: self.current as nat,
            capacity: self.max_frames as nat,
        }
    }
}

impl MemoryStore {
    /// Creates an empty store that will hold at most `max_frames` frames.
    pub fn new(max_frames: usize) -> (r: MemoryStore)
        requires
            max_frames >= 1,
        ensures
            r@ == RingView::empty(max_frames as nat),
            r@.wf(),
    {
        let r = MemoryStore { frames: Vec::new(), max_frames, current: 0 };
        proof {
            assert(r@.frames =~= RingView::empty(max_frames as nat).frames);
        }
        r
    }

    /// The fixed capacity this store was created with.
    pub fn capacity(&self) -> (r: usize)
        ensures
            r as nat == self@.capacity,
    {
        self.max_frames
    }

    /// Stores one frame. Never fails: below capacity it appends; at
    /// capacity it overwrites the slot under the write cursor and advances
    /// the cursor by one, wrapping around.
    pub fn store(&mut self, frame: Frame)
        requires
            old(self)@.wf(),
        ensures
            final(self)@.wf(),
            final(self)@ == old(self)@.store_one(frame@),
    {
        if self.frames.len() < self.max_frames {
            self.frames.push(frame);
            proof {
                assert(self@.frames =~= old(self)@.frames.push(frame@));
            }
        } else {
            let cur = self.current;
            assert(cur < self.frames.len());
            self.frames[cur] = frame;
            self.current = if cur + 1 == self.max_frames { 0 } else { cur + 1 };
            proof {
                assert(self@.frames =~= old(self)@.frames.update(cur as int, frame@));
                if cur + 1 == self.max_frames {
                    assert((cur as int + 1) % (self.max_frames as int) == 0) by {
                        lemma_fundamental_div_mod_converse(
                            cur as int + 1, self.max_frames as int, 1, 0);
                    }
                } else {
                    assert((cur as int + 1) % (self.max_frames as int) == cur as int + 1) by {
                        lemma_small_mod((cur + 1) as nat, self.max_frames as nat);
                    }
                }
            }
        }
    }

    /// Returns the most recently stored frame, or [`StoreError::Empty`] if
    /// the store has never received one.
    pub fn get_latest(&self) -> (r: Result<Frame, StoreError>)
        requires
            self@.wf(),
        ensures
            match r {
                Ok(f) => self@.frames.len() > 0 && f@ == self@.latest(),
                Err(e) => self@.frames.len() == 0 && e == StoreError::Empty,
            },
    {
        if self.frames.len() == 0 {
            return Err(StoreError::Empty);
        }
        if self.frames.len() < self.max_frames {
            let f = self.frames[self.frames.len() - 1].clone();
            return Ok(f);
        }
        let idx = if self.current == 0 { self.max_frames - 1 } else { self.current - 1 };
        proof {
            let c = self.max_frames as int;
            if self.current == 0 {
                assert((self.current as int + c - 1) % c == c - 1) by {
                    lemma_small_mod((c - 1) as nat, c as nat);
                }
            } else {
                assert((self.current as int + c - 1) % c == self.current as int - 1) by {
                    lemma_fundamental_div_mod_converse(
                        self.current as int + c - 1, c, 1, self.current as int - 1);
                }
            }
        }
        let f = self.frames[idx].clone();
        Ok(f)
    }

    /// A point-in-time snapshot of every resident frame, in positional
    /// order.
    pub fn list(&self) -> (r: Vec<Frame>)
        ensures
            r@.map_values(|f: Frame| f@) == self@.frames,
    {
        let r = self.frames.clone();
        proof {
            assert(r@.map_values(|f: Frame| f@) =~= self@.frames);
        }
        r
    }
}

/// What a fresh store of capacity `capacity` holds after any sequence of
/// stores: while filling it is exactly the sequence; once `capacity` many
/// have been stored, slot `p` holds the frame stored at the last position
/// congruent to `p` modulo the capacity, and the cursor sits at the count
/// of overwrites modulo the capacity.
pub proof fn lemma_ring_fill(capacity: nat, fs: Seq<FrameView>)
    requires
        capacity >= 1,
    ensures
        ({
            let s = RingView::empty(capacity).store_all(fs);
            &&& s.wf()
            &&& s.capacity == capacity
            &&& fs.len() <= capacity ==> (s.frames == fs && s.current == 0)
            &&& fs.len() >= capacity ==> {
                &&& s.frames.len() == capacity
                &&& s.current == (fs.len() - capacity) % (capacity as int)
                &&& forall|p: int| 0 <= p < capacity
                    ==> #[trigger] s.frames[p]
                        == fs[window_index(fs.len() as int, capacity as int, p)]
                    && fs.len() - capacity <= window_index(fs.len() as int, capacity as int, p)
                        < fs.len()
            }
        }),
    decreases fs.len(),
{
    let c = capacity as int;
    let k = fs.len() as int;
    let s = RingView::empty(capacity).store_all(fs);
    if k == 0 {
        assert(s.frames =~= fs);
    } else {
        let fsp = fs.drop_last();
        lemma_ring_fill(capacity, fsp);
        let sp = RingView::empty(capacity).store_all(fsp);
        assert(s == sp.store_one(fs.last()));
        if k - 1 < c {
            // Still filling: the store appends.
            assert(sp.frames == fsp && sp.current == 0);
            assert(s.frames =~= fs);
            if k == c {
                // The buffer has just become full; both characterizations
                // must agree.
                assert(s.current == (k - c) % c) by {
                    lemma_small_mod(0, capacity);
                }
                assert forall|p: int| 0 <= p < c implies
                    #[trigger] s.frames[p] == fs[window_index(k, c, p)]
                    && k - c <= window_index(k, c, p) < k by {
                    assert((k - 1 - p) % c == k - 1 - p) by {
                        lemma_small_mod((k - 1 - p) as nat, capacity);
                    }
                }
            }
        } else {
            // The buffer is full: the store overwrites the cursor slot.
            let cur = sp.current as int;
            assert(cur == (k - 1 - c) % c);
            let qk = (k - 1 - c) / c;
            lemma_fundamental_div_mod(k - 1 - c, c);
            assert(c * qk == qk * c) by (nonlinear_arith);
            assert(k - 1 - c == qk * c + cur);
            assert((qk + 1) * c == qk * c + c) by (nonlinear_arith);
            // The cursor equals the last store-position modulo the capacity.
            assert(cur == (k - 1) % c) by {
                assert((qk + 1) * c == qk * c + c) by (nonlinear_arith);
                lemma_fundamental_div_mod_converse(k - 1, c, qk + 1, cur);
            }
            // The advanced cursor is the overwrite count modulo capacity.
            if cur + 1 == c {
                assert((cur + 1) % c == 0) by {
                    lemma_fundamental_div_mod_converse(cur + 1, c, 1, 0);
                }
                assert(s.current == (k - c) % c) by {
                    assert((qk + 1) * c == qk * c + c) by (nonlinear_arith);
                    lemma_fundamental_div_mod_converse(k - c, c, qk + 1, 0);
                }
            } else {
                assert((cur + 1) % c == cur + 1) by {
                    lemma_small_mod((cur + 1) as nat, capacity);
                }
                assert(s.current == (k - c) % c) by {
                    lemma_fundamental_div_mod_converse(k - c, c, qk, cur + 1);
                }
            }
            assert forall|p: int| 0 <= p < c implies
                #[trigger] s.frames[p] == fs[window_index(k, c, p)]
                && k - c <= window_index(k, c, p) < k by {
                let y = k - 1 - p;
                let qy = y / c;
                let ry = y % c;
                lemma_fundamental_div_mod(y, c);
                assert(c * qy == qy * c) by (nonlinear_arith);
                assert(y == qy * c + ry);
                if p == cur {
                    // The slot just overwritten holds the newest frame.
                    assert(ry == 0) by {
                        assert((qk + 1) * c == qk * c + c) by (nonlinear_arith);
                        lemma_fundamental_div_mod_converse(y, c, qk + 1, 0);
                    }
                    assert(window_index(k, c, p) == k - 1);
                    assert(s.frames[p] == fs.last());
                } else {
                    // Untouched slots keep their frame; its position in the
                    // shorter sequence shifts by one in the modulus.
                    assert(ry != 0) by {
                        if ry == 0 {
                            assert(k - 1 == qy * c + p);
                            assert((k - 1) % c == p) by {
                                lemma_fundamental_div_mod_converse(k - 1, c, qy, p);
                            }
                        }
                    }
                    assert((k - 2 - p) % c == ry - 1) by {
                        lemma_fundamental_div_mod_converse(y - 1, c, qy, ry - 1);
                    }
                    assert(window_index(k - 1, c, p) == k - 1 - ry);
                    assert(window_index(k, c, p) == k - 1 - ry);
                    assert(s.frames[p] == sp.frames[p]);
                    assert(sp.frames[p] == fsp[window_index(k - 1, c, p)]);
                    assert(fsp[k - 1 - ry] == fs[k - 1 - ry]);
                }
            }
        }
    }
}

/// Storing one more frame is the same as extending the store-sequence by
/// one: the glue between a run of single stores and [`RingView::store_all`].
pub proof fn lemma_store_all_snoc(s: RingView, fs: Seq<FrameView>, f: FrameView)
    ensures
        s.store_all(fs.push(f)) == s.store_all(fs).store_one(f),
{
    assert(fs.push(f).drop_last() =~= fs);
    assert(fs.push(f).last() == f);
}

/// The frame just stored is what the store reports as latest, whatever
/// was resident before. In particular, after the very first store the
/// store holds exactly that frame as its latest; and a reader that runs
/// after the in-memory half of a hybrid store sees the new frame even if
/// the disk half then fails.
pub proof fn lemma_just_stored_is_latest(s: RingView, f: FrameView)
    requires
        s.wf(),
    ensures
        s.store_one(f).wf(),
        s.store_one(f).frames.len() > 0,
        s.store_one(f).latest() == f,
{
    let c = s.capacity as int;
    let t = s.store_one(f);
    if s.frames.len() < s.capacity {
        if t.frames.len() == s.capacity {
            // The buffer just became full; the cursor is still at zero.
            assert(t.latest_index() == c - 1) by {
                lemma_small_mod((c - 1) as nat, s.capacity);
            }
        }
    } else {
        let cur = s.current as int;
        if cur + 1 == c {
            assert(t.current == 0) by {
                lemma_fundamental_div_mod_converse(cur + 1, c, 1, 0);
            }
            assert(t.latest_index() == c - 1) by {
                lemma_small_mod((c - 1) as nat, s.capacity);
            }
        } else {
            assert(t.current == cur + 1) by {
                lemma_small_mod((cur + 1) as nat, s.capacity);
            }
            assert(t.latest_index() == cur) by {
                lemma_fundamental_div_mod_converse(cur + 1 + c - 1, c, 1, cur);
            }
        }
    }
}

/// Whether the frame ids in `fs` are `1, 2, ..., fs.len()` in order.
pub open spec fn ids_are_one_to_n(fs: Seq<FrameView>) -> bool {
    forall|i: int| 0 <= i < fs.len() ==> #[trigger] fs[i].id == i + 1
}

/// Whether the frame ids in `fs` strictly increase.
pub open spec fn ids_strictly_increase(fs: Seq<FrameView>) -> bool {
    forall|i: int, j: int| 0 <= i < j < fs.len() ==> #[trigger] fs[i].id < #[trigger] fs[j].id
}

/// Whether some resident frame of `s` carries the id `id`.
pub open spec fn has_resident_id(s: RingView, id: int) -> bool {
    exists|p: int| 0 <= p < s.frames.len() && #[trigger] s.frames[p].id == id
}

/// After storing frames with ids `1..=k` into a fresh store of capacity
/// `N` with `k > N`, exactly `N` frames are resident, and the resident ids
/// are exactly `k-N+1..=k`.
pub proof fn lemma_ring_keeps_last_window(capacity: nat, fs: Seq<FrameView>)
    requires
        capacity >= 1,
        fs.len() > capacity,
        ids_are_one_to_n(fs),
    ensures
        ({
            let s = RingView::empty(capacity).store_all(fs);
            &&& s.frames.len() == capacity
            &&& forall|id: int|
                #[trigger] has_resident_id(s, id)
                    <==> fs.len() - capacity + 1 <= id <= fs.len()
        }),
{
    let c = capacity as int;
    let k = fs.len() as int;
    let s = RingView::empty(capacity).store_all(fs);
    lemma_ring_fill(capacity, fs);
    assert forall|id: int|
        #[trigger] has_resident_id(s, id) <==> k - c + 1 <= id <= k by {
        if has_resident_id(s, id) {
            let p = choose|p: int| 0 <= p < s.frames.len() && #[trigger] s.frames[p].id == id;
            assert(s.frames[p] == fs[window_index(k, c, p)]);
            assert(id == window_index(k, c, p) + 1);
        }
        if k - c + 1 <= id <= k {
            // The slot congruent to the id's store-position carries it.
            let i = id - 1;
            let qi = i / c;
            let p = i % c;
            assert(i == qi * c + p) by {
                lemma_fundamental_div_mod(i, c);
                assert(c * qi == qi * c) by (nonlinear_arith);
            }
            assert((k - 1 - p) % c == k - 1 - i) by {
                lemma_fundamental_div_mod_converse(k - 1 - p, c, qi, k - 1 - i);
            }
            assert(window_index(k, c, p) == i);
            assert(0 <= p < s.frames.len() && s.frames[p].id == id);
            assert(has_resident_id(s, id));
        }
    }
}

/// After any non-empty sequence of stores with strictly increasing ids,
/// the latest frame is the last one stored, and its id is the greatest id
/// among the resident frames.
pub proof fn lemma_latest_has_greatest_id(capacity: nat, fs: Seq<FrameView>)
    requires
        capacity >= 1,
        fs.len() >= 1,
        ids_strictly_increase(fs),
    ensures
        ({
            let s = RingView::empty(capacity).store_all(fs);
            &&& s.frames.len() >= 1
            &&& s.latest() == fs.last()
            &&& forall|p: int| 0 <= p < s.frames.len()
                ==> #[trigger] s.frames[p].id <= fs.last().id
        }),
{
    let c = capacity as int;
    let k = fs.len() as int;
    let s = RingView::empty(capacity).store_all(fs);
    lemma_ring_fill(capacity, fs);
    if k < c {
        assert(s.latest_index() == k - 1);
        assert(s.latest() == fs.last());
        assert forall|p: int| 0 <= p < s.frames.len() implies
            #[trigger] s.frames[p].id <= fs.last().id by {
            if p < k - 1 {
                assert(fs[p].id < fs[k - 1].id);
            }
        }
    } else {
        let cur = s.current as int;
        assert(cur == (k - c) % c);
        let q = (k - c) / c;
        lemma_fundamental_div_mod(k - c, c);
        assert(c * q == q * c) by (nonlinear_arith);
        assert(k - c == q * c + cur);
        let pl = s.latest_index();
        if cur == 0 {
            assert(pl == c - 1) by {
                lemma_small_mod((c - 1) as nat, capacity);
            }
            assert((k - 1 - pl) % c == 0) by {
                lemma_fundamental_div_mod_converse(k - 1 - (c - 1), c, q, 0);
            }
        } else {
            assert(pl == cur - 1) by {
                lemma_fundamental_div_mod_converse(cur + c - 1, c, 1, cur - 1);
            }
            assert((k - 1 - pl) % c == 0) by {
                assert((q + 1) * c == q * c + c) by (nonlinear_arith);
                lemma_fundamental_div_mod_converse(k - 1 - (cur - 1), c, q + 1, 0);
            }
        }
        assert(window_index(k, c, pl) == k - 1);
        assert(s.latest() == fs.last());
        assert forall|p: int| 0 <= p < s.frames.len() implies
            #[trigger] s.frames[p].id <= fs.last().id by {
            let i = window_index(k, c, p);
            assert(s.frames[p] == fs[i]);
            if i < k - 1 {
                assert(fs[i].id < fs[k - 1].id);
            }
        }
    }
}

} // verus!
