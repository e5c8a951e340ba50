//! The zones of the account and the zone a host name belongs to.
use vstd::prelude::*;
use crate::label_map::{pair_views, LabelMap};
use crate::text::{contains_seq, ends_with, ends_with_seq, push_str, str_eq, to_owned_string, views};

verus! {

/// Whether `hostname` lies in the zone `zone`: it is the zone itself, ends with a
/// dot and the zone, or holds the zone followed by a dot.
pub open spec fn zone_matches(hostname: Seq<char>, zone: Seq<char>) -> bool {
    ||| hostname == zone
    ||| ends_with_seq(hostname, "."@ + zone)
    ||| contains_seq(hostname, zone + "."@)
}

/// Whether `zone` is a longest zone of `zones` that `hostname` lies in.
pub open spec fn best_zone(zones: Map<Seq<char>, Seq<char>>, hostname: Seq<char>, zone: Seq<char>) -> bool {
    &&& zones.contains_key(zone)
    &&& zone_matches(hostname, zone)
    &&& forall|z: Seq<char>| zones.contains_key(z) && zone_matches(hostname, z) ==> z.len() <= zone.len()
}

/// The page to fetch after `page`: none when the listing gave no page count or
/// `page` is the last one (the count taken as a 32-bit number).
pub open spec fn following_page(page: u32, total_pages: Option<u64>) -> Option<u32> {
    match total_pages {
        Some(t) => if page >= (t as u32) { None } else { Some((page + 1) as u32) },
        None => None,
    }
}

/// Whether a substring occurs in `s`.
fn contains_text(s: &str, p: &str) -> (r: bool)
    ensures
        r == contains_seq(s@, p@),
{
    let sv = crate::text::chars_of(s);
    let pv = crate::text::chars_of(p);
    if pv.len() > sv.len() {
        assert(!contains_seq(s@, p@));
        return false;
    }
    let mut i: usize = 0;
    while i <= sv.len() - pv.len()
        invariant
            sv@ == s@,
            pv@ == p@,
            pv.len() <= sv.len(),
            i <= sv.len() - pv.len() + 1,
            forall|k: int| 0 <= k < i ==> #[trigger] sv@.subrange(k, k + pv.len()) != pv@,
        decreases sv.len() - i,
    {
        let mut j: usize = 0;
        let mut same = true;
        while j < pv.len()
            invariant
                j <= pv.len(),
                i + pv.len() <= sv.len(),
                sv@ == s@,
                pv@ == p@,
                same == forall|m: int| 0 <= m < j ==> sv@[i + m] == pv@[m],
            decreases pv.len() - j,
        {
            if sv[i + j] != pv[j] {
                same = false;
            }
            j = j + 1;
        }
        if same {
            assert(sv@.subrange(i as int, i + pv.len()) =~= pv@);
            return true;
        }
        assert(sv@.subrange(i as int, i + pv.len()) != pv@) by {
            let m = choose|m: int| 0 <= m < pv.len() && sv@[i + m] != pv@[m];
            assert(sv@.subrange(i as int, i + pv.len())[m] == sv@[i + m]);
        }
        i = i + 1;
    }
    false
}

/// Whether `hostname` lies in the zone `zone`.
pub fn matches_zone(hostname: &str, zone: &str) -> (r: bool)
    ensures
        r == zone_matches(hostname@, zone@),
{
    if str_eq(hostname, zone) {
        return true;
    }
    let mut dotted = to_owned_string(".");
    push_str(&mut dotted, zone);
    proof { reveal_strlit("."); }
    if ends_with(hostname, dotted.as_str()) {
        return true;
    }
    let mut followed = to_owned_string(zone);
    push_str(&mut followed, ".");
    contains_text(hostname, followed.as_str())
}

/// `m` with each pair of `pairs` inserted in order, a later pair overriding an earlier
/// one of the same name.
pub open spec fn with_pairs(m: Map<Seq<char>, Seq<char>>, pairs: Seq<(Seq<char>, Seq<char>)>) -> Map<Seq<char>, Seq<char>>
    decreases pairs.len(),
{
    if pairs.len() == 0 {
        m
    } else {
        with_pairs(m, pairs.drop_last()).insert(pairs.last().0, pairs.last().1)
    }
}

/// Recording the zones of one page after another gives what recording all of them
/// at once does: after clearing the cache and recording pages `a` then `b`, it
/// holds exactly the zones of `a + b`.
pub proof fn law_zone_pages_accumulate(
    m: Map<Seq<char>, Seq<char>>,
    a: Seq<(Seq<char>, Seq<char>)>,
    b: Seq<(Seq<char>, Seq<char>)>,
)
    ensures
        with_pairs(with_pairs(m, a), b) == with_pairs(m, a + b),
    decreases b.len(),
{
    if b.len() == 0 {
        assert(a + b =~= a);
    } else {
        law_zone_pages_accumulate(m, a, b.drop_last());
        assert((a + b).drop_last() =~= a + b.drop_last());
        assert((a + b).last() == b.last());
    }
}

/// The zones of the account, by name, with their identifiers.
pub struct ZoneCache {
    zones: LabelMap,
}

impl View for ZoneCache {
    type V = Map<Seq<char>, Seq<char>>;

    closed spec fn view(&self) -> Map<Seq<char>, Seq<char>> {
        self.zones@
    }
}

impl ZoneCache {
    /// A cache with no zone.
    pub fn new() -> (r: Self)
        ensures
            r@ == Map::<Seq<char>, Seq<char>>::empty(),
    {
        ZoneCache { zones: LabelMap::new() }
    }

    /// Forgets every zone.
    pub fn clear(&mut self)
        ensures
            final(self)@ == Map::<Seq<char>, Seq<char>>::empty(),
    {
        self.zones = LabelMap::new();
    }

    /// Records the identifier of the zone `name`.
    pub fn insert(&mut self, name: String, id: String)
        ensures
            final(self)@ == old(self)@.insert(name@, id@),
    {
        self.zones.insert(name, id);
    }

    /// Records the zones of one listed page, name and identifier each, in order.
    pub fn insert_zones(&mut self, zones: Vec<(String, String)>)
        ensures
            final(self)@ == with_pairs(old(self)@, pair_views(zones@)),
    {
        let ghost start = self@;
        let ghost pv = pair_views(zones@);
        let n = zones.len();
        let mut i: usize = 0;
        while i < n
            invariant
                i <= n == zones.len() == pv.len(),
                pv == pair_views(zones@),
                self@ == with_pairs(start, pv.take(i as int)),
            decreases n - i,
        {
            let name = zones[i].0.clone();
            let id = zones[i].1.clone();
            assert(name@ == pv[i as int].0 && id@ == pv[i as int].1);
            self.insert(name, id);
            assert(pv.take(i + 1).drop_last() =~= pv.take(i as int));
            i = i + 1;
        }
        assert(pv.take(n as int) =~= pv);
    }

    /// A longest zone that `hostname` lies in, with its identifier; `None` when it
    /// lies in none. Among zones of equal length the choice is left open.
    pub fn best_match(&self, hostname: &str) -> (r: Option<(String, String)>)
        ensures
            r is None <==> forall|z: Seq<char>| self@.contains_key(z) ==> !zone_matches(hostname@, z),
            r matches Some(p) ==> best_zone(self@, hostname@, p.0@) && p.1@ == self@[p.0@],
    {
        let names = self.zones.keys();
        let mut best: Option<usize> = None;
        let mut i: usize = 0;
        while i < names.len()
            invariant
                i <= names.len(),
                forall|k: Seq<char>| self@.contains_key(k) <==> views(names@).contains(k),
                best matches Some(b) ==> b < i && zone_matches(hostname@, names@[b as int]@),
                best is None ==> forall|j: int| 0 <= j < i ==> !zone_matches(hostname@, #[trigger] names@[j]@),
                best matches Some(b) ==> forall|j: int| 0 <= j < i && zone_matches(hostname@, #[trigger] names@[j]@)
                    ==> names@[j]@.len() <= names@[b as int]@.len(),
            decreases names.len() - i,
        {
            if matches_zone(hostname, names[i].as_str()) {
                match best {
                    Some(b) => {
                        let here = crate::text::chars_of(names[i].as_str());
                        let there = crate::text::chars_of(names[b].as_str());
                        if here.len() >= there.len() {
                            best = Some(i);
                        }
                    },
                    None => {
                        best = Some(i);
                    },
                }
            }
            i = i + 1;
        }
        assert forall|j: int| 0 <= j < names@.len() implies #[trigger] views(names@)[j] == names@[j]@ by {}
        match best {
            None => {
                assert forall|z: Seq<char>| self@.contains_key(z) implies !zone_matches(hostname@, z) by {
                    let j = choose|j: int| 0 <= j < views(names@).len() && views(names@)[j] == z;
                    assert(names@[j]@ == z);
                }
                None
            },
            Some(b) => {
                let name = names[b].clone();
                assert(views(names@)[b as int] == name@);
                assert(self@.contains_key(name@));
                assert forall|z: Seq<char>| self@.contains_key(z) && zone_matches(hostname@, z) implies z.len()
                    <= name@.len() by {
                    let j = choose|j: int| 0 <= j < views(names@).len() && views(names@)[j] == z;
                    assert(names@[j]@ == z);
                }
                let id = match self.zones.get(name.as_str()) {
                    Some(id) => id,
                    None => String::new(),
                };
                Some((name, id))
            },
        }
    }
}

/// Listing the zones of the account.
pub struct ZoneManager {}

impl ZoneManager {
    pub fn new() -> (r: Self) {
        ZoneManager {}
    }

    /// The page to fetch after `page`, if any.
    pub fn next_page(page: u32, total_pages: Option<u64>) -> (r: Option<u32>)
        ensures
            r == following_page(page, total_pages),
    {
        match total_pages {
            Some(t) => {
                let last = t as u32;
                if page >= last { None } else { Some(page + 1) }
            },
            None => None,
        }
    }
}

} // verus!
