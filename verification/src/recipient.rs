//! Recipient specifications: predicates over peer-connection identifiers.

use vstd::prelude::*;
use vstd::assert_by_contradiction;

verus! {

/// An immutable predicate over peer-connection identifiers.
///
/// The authority role uses it to choose the targets of an outbound update;
/// every receiver uses it to validate that an inbound update came from an
/// acceptable sender class (sender-side filtering is advisory only, so
/// receivers must self-filter).
pub enum RecipientSpec {
    /// Accepts every peer.
    All,
    /// Accepts no peer.
    Nobody,
    /// Accepts exactly the listed peers.
    Include(Vec<u32>),
    /// Accepts every peer except the listed ones.
    Except(Vec<u32>),
}

impl RecipientSpec {
    /// Whether this specification accepts the peer `id`.
    pub open spec fn spec_matches(self, id: u32) -> bool {
        match self {
            RecipientSpec::All => true,
            RecipientSpec::Nobody => false,
            RecipientSpec::Include(ids) => ids@.contains(id),
            RecipientSpec::Except(ids) => !ids@.contains(id),
        }
    }

    /// Whether two specifications overlap, decided case by case without
    /// enumerating the identifier space.  `Except`/`Except` and
    /// `All`/`Except` are taken as overlapping: the listed identifiers can
    /// never exhaust the space in practice.
    pub open spec fn spec_overlap(self, other: Self) -> bool {
        match (self, other) {
            (RecipientSpec::Nobody, _) => false,
            (_, RecipientSpec::Nobody) => false,
            (RecipientSpec::All, RecipientSpec::All) => true,
            (RecipientSpec::All, RecipientSpec::Include(b)) => b@.len() > 0,
            (RecipientSpec::Include(a), RecipientSpec::All) => a@.len() > 0,
            (RecipientSpec::All, RecipientSpec::Except(_)) => true,
            (RecipientSpec::Except(_), RecipientSpec::All) => true,
            (RecipientSpec::Include(a), RecipientSpec::Include(b)) =>
                exists|i: int| 0 <= i < a@.len() && b@.contains(a@[i]),
            (RecipientSpec::Include(a), RecipientSpec::Except(b)) =>
                exists|i: int| 0 <= i < a@.len() && !b@.contains(a@[i]),
            (RecipientSpec::Except(b), RecipientSpec::Include(a)) =>
                exists|i: int| 0 <= i < a@.len() && !b@.contains(a@[i]),
            (RecipientSpec::Except(_), RecipientSpec::Except(_)) => true,
        }
    }

    /// Whether this specification accepts the peer `id`.
    pub fn matches(&self, id: u32) -> (r: bool)
        ensures
            r == self.spec_matches(id),
    {
        match self {
            RecipientSpec::All => true,
            RecipientSpec::Nobody => false,
            RecipientSpec::Include(ids) => contains_id(ids, id),
            RecipientSpec::Except(ids) => !contains_id(ids, id),
        }
    }

    /// Whether some identifier is accepted by both specifications, decided
    /// by the case table of [`RecipientSpec::spec_overlap`].
    pub fn overlap(&self, other: &RecipientSpec) -> (r: bool)
        ensures
            r == self.spec_overlap(*other),
    {
        match (self, other) {
            (RecipientSpec::Nobody, _) => false,
            (_, RecipientSpec::Nobody) => false,
            (RecipientSpec::All, RecipientSpec::All) => true,
            (RecipientSpec::All, RecipientSpec::Include(b)) => b.len() > 0,
            (RecipientSpec::Include(a), RecipientSpec::All) => a.len() > 0,
            (RecipientSpec::All, RecipientSpec::Except(_)) => true,
            (RecipientSpec::Except(_), RecipientSpec::All) => true,
            (RecipientSpec::Include(a), RecipientSpec::Include(b)) => any_common(a, b),
            (RecipientSpec::Include(a), RecipientSpec::Except(b)) => any_outside(a, b),
            (RecipientSpec::Except(b), RecipientSpec::Include(a)) => any_outside(a, b),
            (RecipientSpec::Except(_), RecipientSpec::Except(_)) => true,
        }
    }
}

/// Whether the identifier list `ids` holds `id`.
fn contains_id(ids: &Vec<u32>, id: u32) -> (r: bool)
    ensures
        r == ids@.contains(id),
{
    let mut i: usize = 0;
    while i < ids.len()
        invariant
            i <= ids@.len(),
            forall|j: int| 0 <= j < i ==> ids@[j] != id,
        decreases ids@.len() - i,
    {
        if ids[i] == id {
            return true;
        }
        i += 1;
    }
    false
}

/// Whether some element of `a` also stands in `b`.
fn any_common(a: &Vec<u32>, b: &Vec<u32>) -> (r: bool)
    ensures
        r == exists|i: int| 0 <= i < a@.len() && b@.contains(a@[i]),
{
    let mut i: usize = 0;
    while i < a.len()
        invariant
            i <= a@.len(),
            forall|j: int| 0 <= j < i ==> !b@.contains(a@[j]),
        decreases a@.len() - i,
    {
        if contains_id(b, a[i]) {
            return true;
        }
        i += 1;
    }
    false
}

/// Whether some element of `a` stays outside `b`.
fn any_outside(a: &Vec<u32>, b: &Vec<u32>) -> (r: bool)
    ensures
        r == exists|i: int| 0 <= i < a@.len() && !b@.contains(a@[i]),
{
    let mut i: usize = 0;
    while i < a.len()
        invariant
            i <= a@.len(),
            forall|j: int| 0 <= j < i ==> b@.contains(a@[j]),
        decreases a@.len() - i,
    {
        if !contains_id(b, a[i]) {
            return true;
        }
        i += 1;
    }
    false
}

/// `spec_overlap` is symmetric in its two arguments.
pub proof fn lemma_overlap_symmetric(a: RecipientSpec, b: RecipientSpec)
    ensures
        a.spec_overlap(b) == b.spec_overlap(a),
{
}

/// Some identifier stays outside any list shorter than the identifier
/// space.
proof fn lemma_excluded_id_exists(s: Seq<u32>)
    requires
        s.len() < 0x1_0000_0000,
    ensures
        exists|id: u32| !s.contains(id),
{
    broadcast use vstd::set::group_set_axioms;
    broadcast use vstd::seq_lib::seq_to_set_is_finite;

    assert_by_contradiction!(exists|id: u32| !s.contains(id), {
        let si = s.map_values(|x: u32| x as int);
        si.lemma_cardinality_of_set();
        let c = vstd::set_lib::set_int_range(0, 0x1_0000_0000);
        vstd::set_lib::lemma_int_range(0, 0x1_0000_0000);
        assert forall|i: int| c.contains(i) implies si.to_set().contains(i) by {
            let x = i as u32;
            assert(s.contains(x));
            let k = choose|k: int| 0 <= k < s.len() && s[k] == x;
            assert(si[k] == i);
            assert(si.contains(i));
        }
        vstd::set_lib::lemma_len_subset(c, si.to_set());
        assert(false);
    });
}

/// Soundness of the overlap case table: overlapping specifications
/// accept a common identifier.  The listed identifiers must not exhaust
/// the space, which no real peer set does.
pub proof fn lemma_overlap_sound(a: RecipientSpec, b: RecipientSpec)
    requires
        a.spec_overlap(b),
        (a matches RecipientSpec::Include(x) ==> x@.len() < 0x8000_0000),
        (a matches RecipientSpec::Except(x) ==> x@.len() < 0x8000_0000),
        (b matches RecipientSpec::Include(x) ==> x@.len() < 0x8000_0000),
        (b matches RecipientSpec::Except(x) ==> x@.len() < 0x8000_0000),
    ensures
        exists|id: u32| a.spec_matches(id) && b.spec_matches(id),
{
    match (a, b) {
        (RecipientSpec::All, RecipientSpec::All) => {
            assert(a.spec_matches(0u32) && b.spec_matches(0u32));
        }
        (RecipientSpec::All, RecipientSpec::Include(x)) => {
            assert(a.spec_matches(x@[0]) && b.spec_matches(x@[0]));
        }
        (RecipientSpec::Include(x), RecipientSpec::All) => {
            assert(a.spec_matches(x@[0]) && b.spec_matches(x@[0]));
        }
        (RecipientSpec::All, RecipientSpec::Except(x)) => {
            lemma_excluded_id_exists(x@);
            let id = choose|id: u32| !x@.contains(id);
            assert(a.spec_matches(id) && b.spec_matches(id));
        }
        (RecipientSpec::Except(x), RecipientSpec::All) => {
            lemma_excluded_id_exists(x@);
            let id = choose|id: u32| !x@.contains(id);
            assert(a.spec_matches(id) && b.spec_matches(id));
        }
        (RecipientSpec::Include(x), RecipientSpec::Include(y)) => {
            let i = choose|i: int| 0 <= i < x@.len() && y@.contains(x@[i]);
            assert(a.spec_matches(x@[i]) && b.spec_matches(x@[i]));
        }
        (RecipientSpec::Include(x), RecipientSpec::Except(y)) => {
            let i = choose|i: int| 0 <= i < x@.len() && !y@.contains(x@[i]);
            assert(a.spec_matches(x@[i]) && b.spec_matches(x@[i]));
        }
        (RecipientSpec::Except(y), RecipientSpec::Include(x)) => {
            let i = choose|i: int| 0 <= i < x@.len() && !y@.contains(x@[i]);
            assert(a.spec_matches(x@[i]) && b.spec_matches(x@[i]));
        }
        (RecipientSpec::Except(x), RecipientSpec::Except(y)) => {
            lemma_excluded_id_exists(x@ + y@);
            let id = choose|id: u32| !(x@ + y@).contains(id);
            assert(!x@.contains(id) && !y@.contains(id)) by {
                assert(forall|j: int| 0 <= j < x@.len() ==> (x@ + y@)[j] == x@[j]);
                assert(forall|j: int|
                    0 <= j < y@.len() ==> (x@ + y@)[x@.len() + j] == y@[j]);
            }
            assert(a.spec_matches(id) && b.spec_matches(id));
        }
        _ => {}
    }
}

/// Completeness of the overlap case table: an identifier accepted by both
/// specifications makes them overlap.
pub proof fn lemma_overlap_complete(a: RecipientSpec, b: RecipientSpec, id: u32)
    requires
        a.spec_matches(id),
        b.spec_matches(id),
    ensures
        a.spec_overlap(b),
{
    match (a, b) {
        (RecipientSpec::Include(x), RecipientSpec::Include(y)) => {
            let i = choose|i: int| 0 <= i < x@.len() && x@[i] == id;
            assert(y@.contains(x@[i]));
        }
        (RecipientSpec::Include(x), RecipientSpec::Except(y)) => {
            let i = choose|i: int| 0 <= i < x@.len() && x@[i] == id;
            assert(!y@.contains(x@[i]));
        }
        (RecipientSpec::Except(y), RecipientSpec::Include(x)) => {
            let i = choose|i: int| 0 <= i < x@.len() && x@[i] == id;
            assert(!y@.contains(x@[i]));
        }
        (RecipientSpec::All, RecipientSpec::Include(x)) => {
            assert(x@.contains(id));
        }
        (RecipientSpec::Include(x), RecipientSpec::All) => {
            assert(x@.contains(id));
        }
        _ => {}
    }
}

} // verus!
