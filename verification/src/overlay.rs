//! Overlay state: the growing and shrinking collection of timestamped click
//! markers, their aging, the per-marker opacity, and eviction of expired
//! markers. Time is in milliseconds, positions in milli-pixels, and opacity
//! in units of 1/`MARKER_LIFETIME_MS`, so the linear fade is exact: a marker
//! created `e` milliseconds ago has opacity `(3000 - e) / 3000`, clamped at 0.

use vstd::prelude::*;
use crate::events::{MouseButton, PressState};

verus! {

/// A marker lives for exactly this many milliseconds.
pub const MARKER_LIFETIME_MS: u64 = 3000;

/// One transient click marker: position in milli-pixels and creation time in
/// milliseconds on the caller's monotonic clock.
#[derive(Debug, Clone, Copy, PartialEq, Eq, Structural)]
pub struct ClickMarker {
    pub x: i64,
    pub y: i64,
    pub created_at_ms: u64,
}

/// Milliseconds since `created_at_ms`, never negative: a clock reading from
/// before the marker's creation counts as no time passed.
pub open spec fn elapsed_ms(created_at_ms: int, now_ms: int) -> int {
    if now_ms >= created_at_ms {
        now_ms - created_at_ms
    } else {
        0
    }
}

/// The marker opacity at a given time, scaled by `MARKER_LIFETIME_MS`:
/// it starts at 3000 (fully opaque), falls by one unit per millisecond, and
/// stays at exactly 0 from the end of the lifetime on.
pub open spec fn alpha_at(created_at_ms: int, now_ms: int) -> int {
    if elapsed_ms(created_at_ms, now_ms) >= MARKER_LIFETIME_MS {
        0
    } else {
        MARKER_LIFETIME_MS - elapsed_ms(created_at_ms, now_ms)
    }
}

/// A marker survives eviction exactly as long as its elapsed time is strictly
/// below the lifetime.
pub open spec fn marker_live(m: ClickMarker, now_ms: u64) -> bool {
    elapsed_ms(m.created_at_ms as int, now_ms as int) < MARKER_LIFETIME_MS
}

/// The markers of `s` that survive an eviction pass at `now_ms`, in order.
pub open spec fn surviving(s: Seq<ClickMarker>, now_ms: u64) -> Seq<ClickMarker> {
    s.filter(|m: ClickMarker| marker_live(m, now_ms))
}

/// The ordered sequence of live click markers; insertion order is arrival
/// order.
pub struct OverlayState {
    markers: Vec<ClickMarker>,
}

impl View for OverlayState {
    type V = Seq<ClickMarker>;

    closed spec fn view(&self) -> Seq<ClickMarker> {
        self.markers@
    }
}

impl OverlayState {
    /// An overlay with no markers.
    pub fn new() -> (r: Self)
        ensures
            r@ == Seq::<ClickMarker>::empty(),
    {
        OverlayState { markers: Vec::new() }
    }

    /// How many markers are currently held.
    pub fn len(&self) -> (r: usize)
        ensures
            r == self@.len(),
    {
        self.markers.len()
    }

    /// Appends a marker for a left-button press; every other button or state
    /// combination is ignored, with no error and no effect.
    pub fn record_click(&mut self, x: i64, y: i64, button: MouseButton, state: PressState, now_ms: u64)
        ensures
            (button is Left && state is Pressed) ==> final(self)@ == old(self)@.push(
                ClickMarker { x, y, created_at_ms: now_ms },
            ),
            !(button is Left && state is Pressed) ==> final(self)@ == old(self)@,
    {
        match (button, state) {
            (MouseButton::Left, PressState::Pressed) => {
                self.markers.push(ClickMarker { x, y, created_at_ms: now_ms });
            }
            _ => {}
        }
    }

    /// For each held marker, in order, its position and its opacity at
    /// `now_ms` (scaled by `MARKER_LIFETIME_MS`). Reading opacity does not
    /// evict: a frame draws every held marker, including one at opacity 0,
    /// and evicts afterwards.
    pub fn decay_and_opacity(&self, now_ms: u64) -> (r: Vec<(i64, i64, u32)>)
        ensures
            r@.len() == self@.len(),
            forall|i: int| 0 <= i < self@.len() ==> (#[trigger] r@[i]).0 == self@[i].x
                && r@[i].1 == self@[i].y
                && r@[i].2 == alpha_at(self@[i].created_at_ms as int, now_ms as int),
    {
        let mut r: Vec<(i64, i64, u32)> = Vec::new();
        let n = self.markers.len();
        let mut i: usize = 0;
        while i < n
            invariant
                i <= n,
                n == self@.len(),
                r@.len() == i,
                forall|j: int| 0 <= j < i ==> (#[trigger] r@[j]).0 == self@[j].x
                    && r@[j].1 == self@[j].y
                    && r@[j].2 == alpha_at(self@[j].created_at_ms as int, now_ms as int),
            decreases n - i,
        {
            let m = self.markers[i];
            let alpha: u32 = if now_ms >= m.created_at_ms {
                let e = now_ms - m.created_at_ms;
                if e >= MARKER_LIFETIME_MS {
                    0
                } else {
                    (MARKER_LIFETIME_MS - e) as u32
                }
            } else {
                MARKER_LIFETIME_MS as u32
            };
            r.push((m.x, m.y, alpha));
            i = i + 1;
        }
        r
    }

    /// Removes every marker whose elapsed time has reached the lifetime; the
    /// surviving markers keep their order. Run once per frame, after the
    /// opacity read, so a marker is drawn at its final near-zero opacity
    /// before disappearing.
    pub fn evict(&mut self, now_ms: u64)
        ensures
            final(self)@ == surviving(old(self)@, now_ms),
    {
        let ghost s = self.markers@;
        let mut kept: Vec<ClickMarker> = Vec::new();
        let n = self.markers.len();
        let mut i: usize = 0;
        while i < n
            invariant
                i <= n,
                n == s.len(),
                self.markers@ == s,
                kept@ == surviving(s.subrange(0, i as int), now_ms),
            decreases n - i,
        {
            let m = self.markers[i];
            let live = if now_ms >= m.created_at_ms {
                now_ms - m.created_at_ms < MARKER_LIFETIME_MS
            } else {
                true
            };
            if live {
                kept.push(m);
            }
            proof {
                reveal(Seq::filter);
                assert(s.subrange(0, i + 1 as int).drop_last() =~= s.subrange(0, i as int));
                assert(s.subrange(0, i + 1 as int).last() == s[i as int]);
            }
            i = i + 1;
        }
        proof {
            assert(s.subrange(0, n as int) =~= s);
        }
        self.markers = kept;
    }
}

/// Opacity is monotonically non-increasing in time: a later reading is never
/// larger than an earlier one.
pub proof fn lemma_alpha_monotone(created_at_ms: int, n1: int, n2: int)
    requires
        n1 <= n2,
    ensures
        alpha_at(created_at_ms, n2) <= alpha_at(created_at_ms, n1),
{
}

/// Opacity stays within its scale, and is exactly 0 precisely when the
/// elapsed time has reached the marker lifetime; in particular it reaches 0
/// exactly at the end of the lifetime.
pub proof fn lemma_alpha_zero_iff_expired(created_at_ms: int, now_ms: int)
    ensures
        0 <= alpha_at(created_at_ms, now_ms) <= MARKER_LIFETIME_MS,
        (alpha_at(created_at_ms, now_ms) == 0) <==> (elapsed_ms(created_at_ms, now_ms)
            >= MARKER_LIFETIME_MS),
        alpha_at(created_at_ms, created_at_ms + MARKER_LIFETIME_MS) == 0,
{
}

/// Filtering a sequence whose elements all satisfy the predicate returns the
/// sequence unchanged.
proof fn lemma_filter_all(s: Seq<ClickMarker>, p: spec_fn(ClickMarker) -> bool)
    requires
        forall|i: int| 0 <= i < s.len() ==> p(s[i]),
    ensures
        s.filter(p) == s,
    decreases s.len(),
{
    reveal(Seq::filter);
    if s.len() == 0 {
        assert(s.filter(p) =~= s);
    } else {
        assert(forall|i: int| 0 <= i < s.drop_last().len() ==> p(s.drop_last()[i]));
        lemma_filter_all(s.drop_last(), p);
        assert(p(s.last()));
        assert(s.drop_last().push(s.last()) =~= s);
    }
}

/// An eviction pass keeps exactly the live markers: every survivor is still
/// within its lifetime, and every marker within its lifetime survives. So a
/// marker just short of the lifetime is still drawn, and one at or past it is
/// removed by the pass.
pub proof fn lemma_surviving_exactly_the_live(s: Seq<ClickMarker>, now_ms: u64)
    ensures
        forall|i: int| 0 <= i < surviving(s, now_ms).len() ==> marker_live(
            #[trigger] surviving(s, now_ms)[i], now_ms),
        forall|i: int| 0 <= i < s.len() && marker_live(s[i], now_ms) ==> surviving(s,
            now_ms).contains(#[trigger] s[i]),
{
    let p = |m: ClickMarker| marker_live(m, now_ms);
    assert forall|i: int| 0 <= i < s.filter(p).len() implies p(s.filter(p)[i]) by {
        s.lemma_filter_pred(p, i);
    }
    assert forall|i: int| 0 <= i < s.len() && p(s[i]) implies s.filter(p).contains(s[i]) by {
        s.lemma_filter_contains(p, i);
    }
}

/// Eviction is idempotent: a second pass at the same time removes nothing,
/// since every survivor of the first pass is still live.
pub proof fn lemma_evict_idempotent(s: Seq<ClickMarker>, now_ms: u64)
    ensures
        surviving(surviving(s, now_ms), now_ms) == surviving(s, now_ms),
{
    let p = |m: ClickMarker| marker_live(m, now_ms);
    let f = s.filter(p);
    assert forall|i: int| 0 <= i < f.len() implies p(f[i]) by {
        s.lemma_filter_pred(p, i);
    }
    lemma_filter_all(f, p);
}

} // verus!
