//! The scope lattice: sets of game-object categories, kept as bits of a `u64`.
use vstd::prelude::*;

verus! {

/// Number of real categories; category `i` is bit `i`.
pub const NUM_CATEGORIES: u64 = 38;

pub const CHARACTER: u64 = 0x1;
pub const LANDED_TITLE: u64 = 0x2;
pub const ACTIVITY: u64 = 0x4;
pub const SECRET: u64 = 0x8;
pub const PROVINCE: u64 = 0x10;
pub const SCHEME: u64 = 0x20;
pub const COMBAT: u64 = 0x40;
pub const COMBAT_SIDE: u64 = 0x80;
pub const TITLE_AND_VASSAL_CHANGE: u64 = 0x100;
pub const FAITH: u64 = 0x200;
pub const GREAT_HOLY_WAR: u64 = 0x400;
pub const RELIGION: u64 = 0x800;
pub const WAR: u64 = 0x1000;
pub const STORY_CYCLE: u64 = 0x2000;
pub const CASUS_BELLI: u64 = 0x4000;
pub const DYNASTY: u64 = 0x8000;
pub const DYNASTY_HOUSE: u64 = 0x1_0000;
pub const FACTION: u64 = 0x2_0000;
pub const CULTURE: u64 = 0x4_0000;
pub const ARMY: u64 = 0x8_0000;
pub const HOLY_ORDER: u64 = 0x10_0000;
pub const COUNCIL_TASK: u64 = 0x20_0000;
pub const MERCENARY_COMPANY: u64 = 0x40_0000;
pub const ARTIFACT: u64 = 0x80_0000;
pub const INSPIRATION: u64 = 0x100_0000;
pub const STRUGGLE: u64 = 0x200_0000;
pub const CHARACTER_MEMORY: u64 = 0x400_0000;
pub const TRAVEL_PLAN: u64 = 0x800_0000;
pub const ACCOLADE: u64 = 0x1000_0000;
pub const ACCOLADE_TYPE: u64 = 0x2000_0000;
pub const DECISION: u64 = 0x4000_0000;
pub const FAITH_DOCTRINE: u64 = 0x8000_0000;
pub const GOVERNMENT_TYPE: u64 = 0x1_0000_0000;
pub const VALUE: u64 = 0x2_0000_0000;
pub const BOOL: u64 = 0x4_0000_0000;
pub const FLAG: u64 = 0x8_0000_0000;
pub const COUNTRY: u64 = 0x10_0000_0000;
pub const PARTY: u64 = 0x20_0000_0000;

/// The empty set; a construct that requires it is scopeless (global).
pub const NONE: u64 = 0;
/// Every real category.
pub const ALL_BUT_NONE: u64 = 0x3f_ffff_ffff;
/// Every category. Scopeless constructs are marked by `NONE` rather than by a
/// bit of their own, so this holds the same bits as `ALL_BUT_NONE`.
pub const ALL: u64 = 0x3f_ffff_ffff;

/// Whether bit `i` of `b` is set.
pub open spec fn bit(b: u64, i: u64) -> bool {
    (b >> i) & 1 == 1
}

/// The set of categories whose bits are set in `b`, unknown bits ignored.
pub open spec fn categories(b: u64) -> Set<nat> {
    Set::new(|i: nat| i < NUM_CATEGORIES && bit(b, i as u64))
}

pub proof fn lemma_bit_ops()
    by (bit_vector)
    ensures
        forall|a: u64, b: u64, i: u64|
            i < 64 ==> (#[trigger] bit(a | b, i) <==> bit(a, i) || bit(b, i)),
        forall|a: u64, b: u64, i: u64|
            i < 64 ==> (#[trigger] bit(a & b, i) <==> bit(a, i) && bit(b, i)),
        forall|a: u64, i: u64| i < 38 ==> (#[trigger] bit(a & 0x3f_ffff_ffff, i) <==> bit(a, i)),
        forall|a: u64, i: u64| 38 <= i < 64 ==> !#[trigger] bit(a & 0x3f_ffff_ffff, i),
        forall|i: u64| i < 64 ==> !#[trigger] bit(0, i),
        forall|i: u64| i < 38 ==> #[trigger] bit(0x3f_ffff_ffff, i),
{
}

/// A set bit exists in every nonzero value.
proof fn lemma_nonzero_has_bit(x: u64) -> (i: u64)
    requires
        x != 0,
    ensures
        i < 64,
        bit(x, i),
    decreases x,
{
    if x & 1 == 1 {
        assert(x >> 0 == x) by (bit_vector);
        0
    } else {
        assert(x & 1 != 1 && x != 0 ==> (x >> 1) != 0 && (x >> 1) < x) by (bit_vector);
        let j = lemma_nonzero_has_bit(x >> 1);
        assert(j < 64 && bit(x >> 1, j) ==> j < 63 && bit(x, (j + 1) as u64)) by (bit_vector);
        (j + 1) as u64
    }
}

/// A set of game-object categories.
#[derive(Clone, Copy, Debug, PartialEq, Eq)]
pub struct Scopes {
    bits: u64,
}

impl View for Scopes {
    type V = Set<nat>;

    open spec fn view(&self) -> Set<nat> {
        categories(self.spec_bits())
    }
}

impl Scopes {
    /// The raw bits.
    pub closed spec fn spec_bits(self) -> u64 {
        self.bits
    }

    /// No bit outside the known categories is set.
    pub closed spec fn wf(self) -> bool {
        self.bits & 0x3f_ffff_ffff == self.bits
    }

    /// The set of the categories among `bits`.
    pub closed spec fn spec_from_bits_truncate(bits: u64) -> Scopes {
        Scopes { bits: bits & 0x3f_ffff_ffff }
    }

    pub proof fn lemma_from_bits_truncate(bits: u64)
        ensures
            Scopes::spec_from_bits_truncate(bits).wf(),
            Scopes::spec_from_bits_truncate(bits)@ == categories(bits),
    {
        lemma_bit_ops();
        assert(Scopes::spec_from_bits_truncate(bits)@ =~= categories(bits));
        let b = bits & 0x3f_ffff_ffff;
        assert(b & 0x3f_ffff_ffff == b) by (bit_vector)
            requires
                b == bits & 0x3f_ffff_ffff,
        ;
    }

    /// Builds a set from raw bits, silently dropping the bits of no category.
    pub fn from_bits_truncate(bits: u64) -> (r: Scopes)
        ensures
            r == Scopes::spec_from_bits_truncate(bits),
            r.wf(),
            r.spec_bits() == bits & ALL_BUT_NONE,
            r@ == categories(bits),
    {
        let r = Scopes { bits: bits & ALL_BUT_NONE };
        proof {
            lemma_bit_ops();
            assert(r@ =~= categories(bits));
            let b = bits & 0x3f_ffff_ffff;
            assert(b & 0x3f_ffff_ffff == b) by (bit_vector)
                requires
                    b == bits & 0x3f_ffff_ffff,
            ;
        }
        r
    }

    /// The raw bits.
    pub fn bits(&self) -> (r: u64)
        ensures
            r == self.spec_bits(),
    {
        self.bits
    }

    /// Whether no category is in the set.
    pub fn is_empty(&self) -> (r: bool)
        ensures
            r == (self@ == Set::<nat>::empty()),
    {
        let x = self.bits & ALL_BUT_NONE;
        proof {
            lemma_bit_ops();
            if x != 0 {
                let i = lemma_nonzero_has_bit(x);
                assert(i < 38);
                assert(self@.contains(i as nat));
            } else {
                assert forall|i: nat| !self@.contains(i) by {
                    if i < 38 {
                        assert(bit(self.bits & 0x3f_ffff_ffff, i as u64) == bit(self.bits, i as u64));
                    }
                }
                assert(self@ =~= Set::<nat>::empty());
            }
        }
        x == 0
    }

    /// The categories in either set.
    pub fn union(&self, other: &Scopes) -> (r: Scopes)
        ensures
            r.wf(),
            r@ == self@.union(other@),
    {
        let r = Scopes::from_bits_truncate(self.bits | other.bits);
        proof {
            lemma_bit_ops();
            assert(r@ =~= self@.union(other@));
        }
        r
    }

    /// The categories in both sets.
    pub fn intersection(&self, other: &Scopes) -> (r: Scopes)
        ensures
            r.wf(),
            r@ == self@.intersect(other@),
    {
        let r = Scopes::from_bits_truncate(self.bits & other.bits);
        proof {
            lemma_bit_ops();
            assert(r@ =~= self@.intersect(other@));
        }
        r
    }

    /// Whether every category of `other` is in this set.
    pub fn contains(&self, other: &Scopes) -> (r: bool)
        ensures
            r == other@.subset_of(self@),
    {
        let (a, b) = (self.bits, other.bits);
        let d = b & !a & ALL_BUT_NONE;
        proof {
            lemma_bit_ops();
            if d != 0 {
                let j = lemma_nonzero_has_bit(d);
                assert(bit(b & !a & 0x3f_ffff_ffff, j) ==> j < 38 && bit(b, j) && !bit(a, j))
                    by (bit_vector);
                assert(other@.contains(j as nat));
            } else {
                assert forall|i: nat| other@.contains(i) implies self@.contains(i) by {
                    let k = i as u64;
                    assert(k < 38 && bit(b, k) && d == b & !a & 0x3f_ffff_ffff && d == 0 ==> bit(a, k))
                        by (bit_vector);
                }
            }
        }
        d == 0
    }

    /// Whether a construct that requires `self` may be used where `context`
    /// is addressed: the two sets share a category.
    pub fn compatible(&self, context: &Scopes) -> (r: bool)
        ensures
            r == (self@.intersect(context@) != Set::<nat>::empty()),
    {
        let both = self.intersection(context);
        !both.is_empty()
    }
}

/// Two scope sets are compatible exactly when they share a category; in
/// particular the empty set is compatible with nothing, and the set of all
/// categories with every nonempty set.
pub proof fn law_compatible_iff_shared(required: Scopes, context: Scopes)
    ensures
        (required@.intersect(context@) != Set::<nat>::empty()) <==> exists|i: nat|
            required@.contains(i) && context@.contains(i),
        required.spec_bits() == NONE ==> required@ == Set::<nat>::empty(),
        required.spec_bits() == ALL_BUT_NONE ==> (context@ != Set::<nat>::empty() ==> required@.intersect(
            context@,
        ) != Set::<nat>::empty()),
{
    lemma_bit_ops();
    if !(exists|i: nat| required@.contains(i) && context@.contains(i)) {
        assert(required@.intersect(context@) =~= Set::<nat>::empty());
    }
    if required@.intersect(context@) == Set::<nat>::empty() {
        assert forall|i: nat| required@.contains(i) implies !context@.contains(i) by {
            assert(!required@.intersect(context@).contains(i));
        }
    }
    if required.spec_bits() == NONE {
        assert(required@ =~= Set::<nat>::empty());
    }
    if required.spec_bits() == ALL_BUT_NONE && required@.intersect(context@) == Set::<nat>::empty() {
        assert forall|i: nat| !context@.contains(i) by {
            if context@.contains(i) {
                assert(required@.contains(i));
                assert(required@.intersect(context@).contains(i));
            }
        }
        assert(context@ =~= Set::<nat>::empty());
    }
}

} // verus!
