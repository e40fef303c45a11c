//! The search itself: which ring of regions to scan, what the scans have
//! found so far, and when to stop.
//!
//! The search does no reading and asks no prediction. It says which regions
//! to scan, takes in what the scan of each region found, and when the last
//! region of a ring has come in it decides how to go on. Within a ring the
//! regions may come in any order; the rings come one after the other.

use crate::biome::Biome;
use crate::biome_set::BiomeSet;
use crate::geometry::{coords_at_distance, is_ring, region_holding, region_of, Coord};
use crate::nearest::{merged, merged_all, refines, NearestMap};
use crate::ranking::{is_ranking_of, ranked, Found};
use vstd::prelude::*;

verus! {

/// The rings that are scanned after the one on which the last biome was
/// found, to make sure that no closer place was missed.
pub const EXTRA_RINGS: u8 = 2;

/// The largest radius at which the ring around any region of the world has
/// `i32` coordinates.
pub const MAX_RING: i32 = 2143289344;

/// Where a search stands.
#[derive(Clone, Copy, Debug, PartialEq, Eq, Structural)]
pub enum Phase {
    /// Ring `ring` is being scanned, and up to the ring before it some biome
    /// had not been found.
    ScanningRing { ring: i32 },
    /// Every biome has been found, rings up to `ring` have been scanned, and
    /// `extra` more rings are scanned, of which ring `ring + 1` is the first.
    Converging { ring: i32, extra: u8 },
    /// The search is over.
    Done,
}

/// What a search asks for.
#[derive(Clone, Copy, Debug, PartialEq, Eq, Structural)]
pub enum Action {
    /// Go on with the regions of the ring at hand.
    Continue,
    /// Scan the regions of ring `ring`.
    Scan { ring: i32 },
    /// Nothing: the answer is final.
    Stop,
}

/// A search as a mathematical value.
pub struct SearchState {
    pub anchor: Coord,
    pub wanted: Set<Biome>,
    pub phase: Phase,
    /// The regions of the ring at hand that have not been taken in yet.
    pub pending: int,
    pub found: Map<Biome, Coord>,
}

/// The ring that a search in phase `phase` scans.
pub open spec fn ring_to_scan(phase: Phase) -> Option<int> {
    match phase {
        Phase::ScanningRing { ring } => Some(ring as int),
        Phase::Converging { ring, extra } => Some(ring + 1),
        Phase::Done => None,
    }
}

/// The number of regions that a search in phase `phase` scans: one for ring
/// 0, which is the region of the anchor, and four for each unit of the radius
/// of any other ring.
pub open spec fn regions_in(phase: Phase) -> int {
    match ring_to_scan(phase) {
        Some(ring) => if ring == 0 {
            1
        } else {
            4 * ring
        },
        None => 0,
    }
}

/// The phase after the ring of phase `phase` has been scanned. `complete`
/// says whether every biome that is looked for has been found by now.
///
/// While a biome is missing, the next ring is scanned. Once none is missing,
/// two more rings are scanned, whatever they find, and then the search is
/// over. A search for no biome at all misses none once the region of the
/// anchor has been scanned.
pub open spec fn next_phase(phase: Phase, complete: bool) -> Phase {
    match phase {
        Phase::ScanningRing { ring } => if complete {
            Phase::Converging { ring, extra: EXTRA_RINGS }
        } else {
            Phase::ScanningRing { ring: (ring + 1) as i32 }
        },
        Phase::Converging { ring, extra } => if extra > 1 {
            Phase::Converging { ring: (ring + 1) as i32, extra: (extra - 1) as u8 }
        } else {
            Phase::Done
        },
        Phase::Done => Phase::Done,
    }
}

/// Whether a search in phase `phase` can go on to the next ring: where it
/// scans a ring, that ring is not the last that `i32` coordinates reach.
pub open spec fn has_next_ring(phase: Phase) -> bool {
    ring_to_scan(phase) != Some(MAX_RING as int)
}

/// The search at its start: it scans the region of the anchor and has found
/// nothing.
pub open spec fn initial(anchor: Coord, wanted: Set<Biome>) -> SearchState {
    SearchState {
        anchor,
        wanted,
        phase: Phase::ScanningRing { ring: 0 },
        pending: 1,
        found: Map::empty(),
    }
}

/// The search after it has taken in what the scan of one more region of the
/// ring at hand found. Of `partial` the biomes that are looked for are
/// combined with what was found before. With the last region of the ring
/// the search moves on to its next phase. A search that is over takes in
/// nothing.
pub open spec fn absorbed(state: SearchState, partial: Map<Biome, Coord>) -> SearchState {
    if state.phase is Done {
        state
    } else {
        let found = merged(state.anchor, state.found, partial.restrict(state.wanted));
        if state.pending > 1 {
            SearchState { found, pending: state.pending - 1, ..state }
        } else {
            let phase = next_phase(state.phase, state.wanted.subset_of(found.dom()));
            SearchState { found, phase, pending: regions_in(phase), ..state }
        }
    }
}

/// What a search asks for as it goes from `before` to `after` by taking in a
/// region.
pub open spec fn action_between(before: SearchState, after: SearchState) -> Action {
    match ring_to_scan(after.phase) {
        None => Action::Stop,
        Some(ring) => if before.pending > 1 {
            Action::Continue
        } else {
            Action::Scan { ring: ring as i32 }
        },
    }
}

/// Whether a search can be in the state `state`: its ring is one that `i32`
/// coordinates reach, some but not more than all regions of the ring are
/// still to be taken in, only biomes that are looked for have been found, and
/// past the rings on which one was missing all of them have been found.
pub open spec fn is_valid(state: SearchState) -> bool {
    &&& match state.phase {
        Phase::ScanningRing { ring } => 0 <= ring <= MAX_RING,
        Phase::Converging { ring, extra } => 0 <= ring < MAX_RING && 1 <= extra <= EXTRA_RINGS,
        Phase::Done => true,
    }
    &&& state.phase is Done ==> state.pending == 0
    &&& !(state.phase is Done) ==> 1 <= state.pending <= regions_in(state.phase)
    &&& state.found.dom().subset_of(state.wanted)
    &&& !(state.phase is ScanningRing) ==> state.wanted.subset_of(state.found.dom())
}

/// A search starts in a state that it can be in.
pub proof fn initial_is_valid(anchor: Coord, wanted: Set<Biome>)
    ensures
        is_valid(initial(anchor, wanted)),
{
}

/// Taking in a region leaves a search in a state that it can be in, and
/// what it has found refines what it had found before.
pub proof fn absorbed_is_valid(state: SearchState, partial: Map<Biome, Coord>)
    requires
        is_valid(state),
        has_next_ring(state.phase),
    ensures
        is_valid(absorbed(state, partial)),
        refines(state.anchor, state.found, absorbed(state, partial).found),
{
}

/// Two regions of one ring can be taken in in either order: the search ends
/// up in the same state.
pub proof fn absorb_order_is_free(
    state: SearchState,
    one: Map<Biome, Coord>,
    other: Map<Biome, Coord>,
)
    requires
        is_valid(state),
        state.pending >= 2,
    ensures
        absorbed(absorbed(state, one), other) == absorbed(absorbed(state, other), one),
{
    let a = one.restrict(state.wanted);
    let b = other.restrict(state.wanted);
    crate::nearest::merge_associative(state.anchor, state.found, a, b);
    crate::nearest::merge_commutative(state.anchor, a, b);
    crate::nearest::merge_associative(state.anchor, state.found, b, a);
}

/// The search after it has taken in `partials`, one after the other.
pub open spec fn absorbed_all(state: SearchState, partials: Seq<Map<Biome, Coord>>) -> SearchState
    decreases partials.len(),
{
    if partials.len() == 0 {
        state
    } else {
        absorbed(absorbed_all(state, partials.drop_last()), partials.last())
    }
}

/// A search keeps its anchor and the biomes that it looks for, and once it
/// is over it stays over.
pub proof fn run_keeps_its_aim(state: SearchState, partials: Seq<Map<Biome, Coord>>)
    ensures
        absorbed_all(state, partials).anchor == state.anchor,
        absorbed_all(state, partials).wanted == state.wanted,
        state.phase is Done ==> absorbed_all(state, partials) == state,
    decreases partials.len(),
{
    if partials.len() > 0 {
        run_keeps_its_aim(state, partials.drop_last());
    }
}

/// Over a whole run a search never loses ground: at every step it knows each
/// biome that it knew at any earlier step, and no farther from the anchor.
pub proof fn run_never_loses_ground(
    state: SearchState,
    partials: Seq<Map<Biome, Coord>>,
    earlier: int,
    later: int,
)
    requires
        0 <= earlier <= later <= partials.len(),
    ensures
        refines(
            state.anchor,
            absorbed_all(state, partials.take(earlier)).found,
            absorbed_all(state, partials.take(later)).found,
        ),
    decreases later - earlier,
{
    if earlier < later {
        run_never_loses_ground(state, partials, earlier, later - 1);
        let before = absorbed_all(state, partials.take(later - 1));
        assert(partials.take(later).drop_last() =~= partials.take(later - 1));
        assert(absorbed_all(state, partials.take(later)) == absorbed(before, partials[later - 1]));
        run_keeps_its_aim(state, partials.take(later - 1));
        crate::nearest::refines_transitive(
            state.anchor,
            absorbed_all(state, partials.take(earlier)).found,
            before.found,
            absorbed_all(state, partials.take(later)).found,
        );
    }
}

/// What a search has found after a run, if it was not over before the last
/// step: what it had found before the run combined with, of each of
/// `partials`, the biomes that are looked for.
pub proof fn run_finds_the_combination(state: SearchState, partials: Seq<Map<Biome, Coord>>)
    requires
        partials.len() > 0,
        !(absorbed_all(state, partials.drop_last()).phase is Done),
    ensures
        absorbed_all(state, partials).found == merged(
            state.anchor,
            state.found,
            merged_all(
                state.anchor,
                partials.map_values(|part: Map<Biome, Coord>| part.restrict(state.wanted)),
            ),
        ),
    decreases partials.len(),
{
    let anchor = state.anchor;
    let kept = partials.map_values(|part: Map<Biome, Coord>| part.restrict(state.wanted));
    let front = partials.drop_last();
    let kept_front = front.map_values(|part: Map<Biome, Coord>| part.restrict(state.wanted));
    let before = absorbed_all(state, front);
    run_keeps_its_aim(state, front);
    assert(kept.drop_last() =~= kept_front);
    assert(kept.last() == partials.last().restrict(state.wanted));
    assert(merged_all(anchor, kept) == merged(anchor, merged_all(anchor, kept_front), kept.last()));
    if front.len() > 0 {
        if absorbed_all(state, front.drop_last()).phase is Done {
            run_keeps_its_aim(absorbed_all(state, front.drop_last()), seq![front.last()]);
            assert(seq![front.last()].drop_last() =~= Seq::<Map<Biome, Coord>>::empty());
        }
        run_finds_the_combination(state, front);
        crate::nearest::merge_associative(
            anchor,
            state.found,
            merged_all(anchor, kept_front),
            kept.last(),
        );
    } else {
        assert(merged_all(anchor, kept_front) =~= Map::<Biome, Coord>::empty());
        assert(merged(anchor, Map::<Biome, Coord>::empty(), kept.last()) =~= kept.last());
    }
}

/// Once every biome has been found at the end of a ring, the search is over
/// at the end of the second ring after it, whatever the two rings bring.
pub proof fn search_ends_two_rings_after_the_last_find(ring: i32, first: bool, second: bool)
    requires
        0 <= ring < MAX_RING - 1,
    ensures
        ({
            let found_all = next_phase(Phase::ScanningRing { ring }, true);
            let one_more = next_phase(found_all, first);
            &&& ring_to_scan(found_all) == Some(ring + 1)
            &&& ring_to_scan(one_more) == Some(ring + 2)
            &&& next_phase(one_more, second) == Phase::Done
        }),
{
}

/// A search for the closest place of each of a set of biomes around an
/// anchor.
#[derive(Debug)]
pub struct Search {
    anchor: Coord,
    wanted: BiomeSet,
    phase: Phase,
    pending: u64,
    found: NearestMap,
}

impl View for Search {
    type V = SearchState;

    closed spec fn view(&self) -> SearchState {
        SearchState {
            anchor: self.anchor,
            wanted: self.wanted@,
            phase: self.phase,
            pending: self.pending as int,
            found: self.found@,
        }
    }
}

impl Search {
    #[verifier::type_invariant]
    spec fn well_formed(self) -> bool {
        is_valid(self@)
    }

    /// A search around `anchor` for the biomes of `wanted`.
    pub fn new(anchor: Coord, wanted: BiomeSet) -> (search: Search)
        ensures
            search@ == initial(anchor, wanted@),
            is_valid(search@),
    {
        Search {
            anchor,
            wanted,
            phase: Phase::ScanningRing { ring: 0 },
            pending: 1,
            found: NearestMap::new(),
        }
    }

    pub fn anchor(&self) -> (anchor: Coord)
        ensures
            anchor == self@.anchor,
    {
        self.anchor
    }

    pub fn wanted(&self) -> (wanted: &BiomeSet)
        ensures
            wanted@ == self@.wanted,
    {
        &self.wanted
    }

    pub fn phase(&self) -> (phase: Phase)
        ensures
            phase == self@.phase,
            is_valid(self@),
    {
        proof {
            use_type_invariant(self);
        }
        self.phase
    }

    /// How many regions of the ring at hand have not been taken in yet.
    pub fn pending(&self) -> (pending: u64)
        ensures
            pending == self@.pending,
            is_valid(self@),
    {
        proof {
            use_type_invariant(self);
        }
        self.pending
    }

    /// What has been found so far. Only biomes that are looked for are
    /// recorded.
    pub fn found(&self) -> (found: &NearestMap)
        ensures
            found@ == self@.found,
            is_valid(self@),
    {
        proof {
            use_type_invariant(self);
        }
        &self.found
    }

    pub fn is_done(&self) -> (done: bool)
        ensures
            done == (self@.phase is Done),
    {
        match self.phase {
            Phase::Done => true,
            _ => false,
        }
    }

    /// The ring that the search scans, if it is not over.
    pub fn ring(&self) -> (ring: Option<i32>)
        ensures
            match ring {
                Some(r) => ring_to_scan(self@.phase) == Some(r as int),
                None => ring_to_scan(self@.phase) is None,
            },
    {
        proof {
            use_type_invariant(self);
        }
        match self.phase {
            Phase::ScanningRing { ring } => Some(ring),
            Phase::Converging { ring, extra } => Some(ring + 1),
            Phase::Done => None,
        }
    }

    /// The regions of the ring that the search scans: the region that holds
    /// the anchor for ring 0, the ring of that radius around it for any
    /// other, and none when the search is over.
    pub fn regions_to_scan(&self) -> (regions: Vec<Coord>)
        ensures
            regions@.len() == regions_in(self@.phase),
            match ring_to_scan(self@.phase) {
                None => true,
                Some(ring) => if ring == 0 {
                    regions@ == seq![region_holding(self@.anchor)]
                } else {
                    is_ring(regions@, region_holding(self@.anchor), ring)
                },
            },
    {
        let center = region_of(self.anchor);
        match self.ring() {
            None => Vec::new(),
            Some(ring) => {
                proof {
                    use_type_invariant(self);
                }
                if ring == 0 {
                    let mut regions: Vec<Coord> = Vec::new();
                    regions.push(center);
                    assert(regions@ =~= seq![center]);
                    regions
                } else {
                    coords_at_distance(center, ring)
                }
            },
        }
    }

    /// Whether `absorb` may be called.
    pub fn can_absorb(&self) -> (yes: bool)
        ensures
            yes == has_next_ring(self@.phase),
    {
        match self.ring() {
            Some(ring) => ring != MAX_RING,
            None => true,
        }
    }

    /// Takes in what the scan of one more region of the ring at hand found,
    /// and says how to go on. No biome is lost by it, and none moves farther
    /// from the anchor.
    pub fn absorb(&mut self, partial: &NearestMap) -> (action: Action)
        requires
            has_next_ring(old(self)@.phase),
        ensures
            final(self)@ == absorbed(old(self)@, partial@),
            action == action_between(old(self)@, final(self)@),
            refines(old(self)@.anchor, old(self)@.found, final(self)@.found),
            is_valid(final(self)@),
    {
        proof {
            use_type_invariant(&*self);
        }
        if self.is_done() {
            return Action::Stop;
        }
        let kept = partial.restrict(&self.wanted);
        let both = self.found.merge(&kept, self.anchor);
        proof {
            assert(both@.dom().subset_of(self.wanted@));
        }
        self.found = both;
        if self.pending > 1 {
            self.pending = self.pending - 1;
            return Action::Continue;
        }
        let next = match self.phase {
            Phase::ScanningRing { ring } => if self.found.covers(&self.wanted) {
                Phase::Converging { ring, extra: EXTRA_RINGS }
            } else {
                Phase::ScanningRing { ring: ring + 1 }
            },
            Phase::Converging { ring, extra } => if extra > 1 {
                Phase::Converging { ring: ring + 1, extra: extra - 1 }
            } else {
                Phase::Done
            },
            Phase::Done => Phase::Done,
        };
        let (count, action) = match next {
            Phase::ScanningRing { ring } => (4 * (ring as u64), Action::Scan { ring }),
            Phase::Converging { ring, extra } => (
                4 * (ring as u64 + 1),
                Action::Scan { ring: ring + 1 },
            ),
            Phase::Done => (0, Action::Stop),
        };
        *self = Search {
            anchor: self.anchor,
            wanted: self.wanted,
            phase: next,
            pending: count,
            found: self.found,
        };
        action
    }

    /// The answer in its final order, once the search is over: one line for
    /// each biome that was looked for. A search that is not over has no
    /// answer yet.
    pub fn results(&self) -> (list: Option<Vec<Found>>)
        ensures
            list is Some <==> self@.phase is Done,
            list is Some ==> is_ranking_of(list->0@, self@.anchor, self@.found),
            list is Some ==> self@.found.dom() == self@.wanted,
    {
        proof {
            use_type_invariant(self);
            if self@.phase is Done {
                assert(self@.found.dom() =~= self@.wanted);
            }
        }
        if self.is_done() {
            Some(ranked(self.anchor, &self.found))
        } else {
            None
        }
    }
}

} // verus!
