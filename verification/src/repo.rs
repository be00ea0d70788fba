//! The catalog: the packages that one source offers.

use vstd::prelude::*;
use vstd::seq_lib::to_multiset_insert;
use crate::package::{Package, PackageView};
use crate::text::{compare_text, lemma_lex_order_props, lex_order, same_text, Order};
use crate::version::{stamp_now, Timestamp};

verus! {

#[verifier::external_type_specification]
#[verifier::external_body]
pub struct ExUrl(url::Url);

/// Calls the `Display` of `url::Url`, which writes the address in its
/// serialized form. Nothing is claimed of the text.
#[verifier::external_body]
fn url_text(uri: &url::Url) -> (r: String) {
    uri.to_string()
}

/// The values of a list of packages, in order.
pub open spec fn views(s: Seq<Package>) -> Seq<PackageView> {
    s.map_values(|p: Package| p@)
}

/// Whether a package equal to `p` stands in `s`.
pub open spec fn present(s: Seq<PackageView>, p: PackageView) -> bool {
    exists|k: int| 0 <= k < s.len() && #[trigger] s[k].same(p)
}

/// Whether no two packages of `s` are equal.
pub open spec fn distinct(s: Seq<PackageView>) -> bool {
    forall|i: int, j: int| 0 <= i < j < s.len() ==> !s[i].same(s[j])
}

/// Whether no name stands twice in `names`.
pub open spec fn distinct_names(names: Seq<Seq<char>>) -> bool {
    forall|i: int, j: int| 0 <= i < j < names.len() ==> names[i] != names[j]
}

/// Whether each package is followed by one that does not order before it.
pub open spec fn sorted(s: Seq<PackageView>) -> bool {
    forall|i: int| 0 <= i < s.len() - 1 ==> (#[trigger] s[i]).order(s[i + 1]) <= 0
}

/// The store after the candidates have been offered one by one: a
/// candidate is appended unless an equal package is already there.
pub open spec fn added(store: Seq<PackageView>, input: Seq<PackageView>) -> Seq<PackageView>
    decreases input.len(),
{
    if input.len() == 0 {
        store
    } else if present(store, input[0]) {
        added(store, input.drop_first())
    } else {
        added(store.push(input[0]), input.drop_first())
    }
}

/// The candidates that were turned away because an equal package was
/// already in the store when their turn came, in the order offered.
pub open spec fn rejected(store: Seq<PackageView>, input: Seq<PackageView>) -> Seq<PackageView>
    decreases input.len(),
{
    if input.len() == 0 {
        Seq::empty()
    } else if present(store, input[0]) {
        seq![input[0]] + rejected(store, input.drop_first())
    } else {
        rejected(store.push(input[0]), input.drop_first())
    }
}

/// How many packages of `s` have the given name.
pub open spec fn count_name(s: Seq<PackageView>, name: Seq<char>) -> nat
    decreases s.len(),
{
    if s.len() == 0 {
        0
    } else {
        count_name(s.drop_first(), name) + if s[0].name == name {
            1nat
        } else {
            0nat
        }
    }
}

/// The packages that stay when each name keeps its `limit` newest: a
/// package stays when fewer than `limit` packages of its name follow it.
pub open spec fn kept(s: Seq<PackageView>, limit: nat) -> Seq<PackageView>
    decreases s.len(),
{
    if s.len() == 0 {
        Seq::empty()
    } else if count_name(s.drop_first(), s[0].name) < limit {
        seq![s[0]] + kept(s.drop_first(), limit)
    } else {
        kept(s.drop_first(), limit)
    }
}

/// The packages that leave when each name keeps its `limit` newest.
pub open spec fn evicted(s: Seq<PackageView>, limit: nat) -> Seq<PackageView>
    decreases s.len(),
{
    if s.len() == 0 {
        Seq::empty()
    } else if count_name(s.drop_first(), s[0].name) < limit {
        evicted(s.drop_first(), limit)
    } else {
        seq![s[0]] + evicted(s.drop_first(), limit)
    }
}

/// The packages of `s` with the given name, in order.
pub open spec fn named(s: Seq<PackageView>, name: Seq<char>) -> Seq<PackageView>
    decreases s.len(),
{
    if s.len() == 0 {
        Seq::empty()
    } else if s.last().name == name {
        named(s.drop_last(), name).push(s.last())
    } else {
        named(s.drop_last(), name)
    }
}

/// One copy of `p` for each of the given channels that `p` belongs to.
pub open spec fn copies(p: PackageView, channels: Seq<Seq<char>>) -> Seq<PackageView>
    decreases channels.len(),
{
    if channels.len() == 0 {
        Seq::empty()
    } else if p.channels.contains(channels.last()) {
        copies(p, channels.drop_last()).push(p)
    } else {
        copies(p, channels.drop_last())
    }
}

/// What a catalog with the given channels offers of `s`: everything where
/// it has no channels, else each package once for each of the catalog's
/// channels that it belongs to.
pub open spec fn selected(s: Seq<PackageView>, channels: Seq<Seq<char>>) -> Seq<PackageView>
    decreases s.len(),
{
    if channels.len() == 0 {
        s
    } else if s.len() == 0 {
        Seq::empty()
    } else {
        selected(s.drop_last(), channels) + copies(s.last(), channels)
    }
}

/// The position of the first package of `s` equal to `p`, or the length of
/// `s` where there is none.
pub open spec fn position(s: Seq<PackageView>, p: PackageView) -> int
    decreases s.len(),
{
    if s.len() == 0 {
        0
    } else if s[0].same(p) {
        0
    } else {
        1 + position(s.drop_first(), p)
    }
}

/// The number of packages that a name keeps when pruned to `count`: a
/// negative count sets no limit.
pub open spec fn limit_of(count: i32, len: nat) -> nat {
    if count < 0 {
        len + 1
    } else {
        count as nat
    }
}

/// Pruning leaves each name at most `limit` packages, and as many as it had
/// where that was fewer.
pub proof fn lemma_kept_count(s: Seq<PackageView>, limit: nat, name: Seq<char>)
    ensures
        count_name(kept(s, limit), name) == if count_name(s, name) < limit {
            count_name(s, name)
        } else {
            limit
        },
    decreases s.len(),
{
    if s.len() > 0 {
        let t = s.drop_first();
        lemma_kept_count(t, limit, name);
        if count_name(t, s[0].name) < limit {
            let k = seq![s[0]] + kept(t, limit);
            assert(k.drop_first() =~= kept(t, limit));
            assert(k[0] == s[0]);
        }
    }
}

/// Pruning splits the packages into those kept and those evicted: each
/// package is in exactly one of the two.
pub proof fn lemma_prune_partition(s: Seq<PackageView>, limit: nat)
    ensures
        kept(s, limit).to_multiset().add(evicted(s, limit).to_multiset()) == s.to_multiset(),
        kept(s, limit).len() + evicted(s, limit).len() == s.len(),
    decreases s.len(),
{
    broadcast use vstd::multiset::group_multiset_axioms;

    if s.len() > 0 {
        let t = s.drop_first();
        lemma_prune_partition(t, limit);
        assert(s =~= t.insert(0, s[0]));
        to_multiset_insert(t, 0, s[0]);
        if count_name(t, s[0].name) < limit {
            assert(kept(s, limit) =~= kept(t, limit).insert(0, s[0]));
            to_multiset_insert(kept(t, limit), 0, s[0]);
        } else {
            assert(evicted(s, limit) =~= evicted(t, limit).insert(0, s[0]));
            to_multiset_insert(evicted(t, limit), 0, s[0]);
        }
        assert(kept(s, limit).to_multiset().add(evicted(s, limit).to_multiset()) =~= s.to_multiset());
    } else {
        s.to_multiset_ensures();
        assert(kept(s, limit) =~= s);
        assert(evicted(s, limit) =~= s);
        assert(s.to_multiset().len() == 0);
        assert(s.to_multiset().add(s.to_multiset()) =~= s.to_multiset());
    }
}

/// Every package that pruning keeps or evicts was in the catalog, and
/// pruning a catalog without equal packages keeps it so: no evicted
/// package equals a kept one.
pub proof fn lemma_prune_distinct(s: Seq<PackageView>, limit: nat)
    requires
        distinct(s),
    ensures
        distinct(kept(s, limit)),
        forall|k: int| 0 <= k < kept(s, limit).len() ==> s.contains(#[trigger] kept(s, limit)[k]),
        forall|k: int|
            0 <= k < evicted(s, limit).len() ==> s.contains(#[trigger] evicted(s, limit)[k]),
        forall|i: int, j: int|
            0 <= i < kept(s, limit).len() && 0 <= j < evicted(s, limit).len() ==> !(
            #[trigger] kept(s, limit)[i]).same(#[trigger] evicted(s, limit)[j]),
    decreases s.len(),
{
    if s.len() > 0 {
        let t = s.drop_first();
        assert forall|i: int, j: int| 0 <= i < j < t.len() implies !t[i].same(t[j]) by {
            assert(t[i] == s[i + 1] && t[j] == s[j + 1]);
        }
        lemma_prune_distinct(t, limit);
        let kt = kept(t, limit);
        let et = evicted(t, limit);
        assert forall|e: PackageView| t.contains(e) implies s.contains(e) && !s[0].same(e) by {
            let m = choose|m: int| 0 <= m < t.len() && t[m] == e;
            assert(s[m + 1] == e);
        }
        let ks = kept(s, limit);
        let es = evicted(s, limit);
        assert(s.contains(s[0]));
        if count_name(t, s[0].name) < limit {
            assert(ks =~= seq![s[0]] + kt);
            assert(es == et);
            assert forall|k: int| 0 <= k < ks.len() implies s.contains(#[trigger] ks[k]) by {
                if k > 0 {
                    assert(ks[k] == kt[k - 1]);
                    assert(t.contains(kt[k - 1]));
                }
            }
            assert forall|i: int, j: int| 0 <= i < j < ks.len() implies !ks[i].same(ks[j]) by {
                assert(ks[j] == kt[j - 1]);
                assert(t.contains(kt[j - 1]));
                if i > 0 {
                    assert(ks[i] == kt[i - 1]);
                }
            }
            assert forall|i: int, j: int| 0 <= i < ks.len() && 0 <= j < es.len() implies !(
            #[trigger] ks[i]).same(#[trigger] es[j]) by {
                assert(t.contains(et[j]));
                if i > 0 {
                    assert(ks[i] == kt[i - 1]);
                }
            }
        } else {
            assert(es =~= seq![s[0]] + et);
            assert(ks == kt);
            assert forall|k: int| 0 <= k < es.len() implies s.contains(#[trigger] es[k]) by {
                if k > 0 {
                    assert(es[k] == et[k - 1]);
                    assert(t.contains(et[k - 1]));
                }
            }
            assert forall|i: int, j: int| 0 <= i < ks.len() && 0 <= j < es.len() implies !(
            #[trigger] ks[i]).same(#[trigger] es[j]) by {
                assert(t.contains(kt[i]));
                if j > 0 {
                    assert(es[j] == et[j - 1]);
                }
            }
        }
    }
}

/// Offering candidates never stores two equal packages, and every
/// candidate is accounted for: it was appended to the store or it is among
/// the rejected.
pub proof fn lemma_added_distinct(store: Seq<PackageView>, input: Seq<PackageView>)
    requires
        distinct(store),
    ensures
        distinct(added(store, input)),
        added(store, input).len() + rejected(store, input).len() == store.len() + input.len(),
        forall|k: int| 0 <= k < input.len() ==> present(added(store, input), #[trigger] input[k]),
        forall|k: int| 0 <= k < store.len() ==> added(store, input)[k] == store[k],
        store.len() <= added(store, input).len(),
    decreases input.len(),
{
    if input.len() > 0 {
        let rest = input.drop_first();
        let next = if present(store, input[0]) {
            store
        } else {
            store.push(input[0])
        };
        lemma_added_distinct(next, rest);
        let out = added(store, input);
        assert(out == added(next, rest));
        assert forall|k: int| 0 <= k < store.len() implies out[k] == store[k] by {
            assert(next[k] == store[k]);
        }
        assert forall|k: int| 0 <= k < input.len() implies present(out, #[trigger] input[k]) by {
            if k == 0 {
                if present(store, input[0]) {
                    let m = choose|m: int| 0 <= m < store.len() && #[trigger] store[m].same(input[0]);
                    assert(out[m].same(input[0]));
                } else {
                    let m = store.len() as int;
                    assert(next[m] == input[0]);
                    assert(out[m].same(input[0]));
                }
            } else {
                assert(rest[k - 1] == input[k]);
            }
        }
    }
}

/// Whether the order is transitive on the packages of `s`.
pub open spec fn transitive_on(s: Seq<PackageView>) -> bool {
    forall|i: int, j: int, k: int|
        0 <= i < s.len() && 0 <= j < s.len() && 0 <= k < s.len() && #[trigger] s[i].order(s[j])
            <= 0 && #[trigger] s[j].order(s[k]) <= 0 ==> s[i].order(s[k]) <= 0
}

/// Where the order is transitive on the packages at hand, a sorted list is
/// in order throughout: no package orders after one that stands later.
pub proof fn lemma_sorted_throughout(s: Seq<PackageView>, i: int, j: int)
    requires
        sorted(s),
        transitive_on(s),
        0 <= i < j < s.len(),
    ensures
        s[i].order(s[j]) <= 0,
    decreases j - i,
{
    if i + 1 < j {
        lemma_sorted_throughout(s, i, j - 1);
        assert(s[j - 1].order(s[j - 1 + 1]) <= 0);
        assert(s[i].order(s[j - 1]) <= 0 && s[j - 1].order(s[j]) <= 0);
    }
}

/// A source of packages: its address, its rank among the sources, and the
/// packages it offers, no two of them equal.
#[derive(Clone, Debug)]
pub struct Repo {
    pub uri: String,
    /// Precedence among the sources: the lower, the higher.
    pub priority: u32,
    pub enabled: bool,
    pub updated: Timestamp,
    pub packages: Vec<Package>,
    pub channels: Vec<String>,
}

/// Sorts packages by [`PackageView::order`]: the result holds the same
/// packages, and none is followed by one that orders before it.
pub fn sort_packages(input: &Vec<Package>) -> (r: Vec<Package>)
    ensures
        views(r@).to_multiset() == views(input@).to_multiset(),
        sorted(views(r@)),
        r@.len() == input@.len(),
{
    let mut out: Vec<Package> = Vec::new();
    let mut i: usize = 0;
    assert(views(out@) =~= views(input@).subrange(0, 0));
    while i < input.len()
        invariant
            i <= input.len(),
            out@.len() == i,
            views(out@).to_multiset() == views(input@).subrange(0, i as int).to_multiset(),
            sorted(views(out@)),
        decreases input.len() - i,
    {
        let p = input[i].duplicate();
        let mut pos: usize = out.len();
        while pos > 0 && p.compare(&out[pos - 1]) == Order::Less
            invariant
                pos <= out.len(),
                pos < out.len() ==> p@.order(out@[pos as int]@) < 0,
            decreases pos,
        {
            pos = pos - 1;
        }
        let ghost before = views(out@);
        out.insert(pos, p);
        proof {
            let after = views(out@);
            assert(after =~= before.insert(pos as int, p@));
            let prefix = views(input@).subrange(0, i as int);
            let longer = views(input@).subrange(0, i + 1);
            assert(longer =~= prefix.insert(i as int, p@));
            to_multiset_insert(before, pos as int, p@);
            to_multiset_insert(prefix, i as int, p@);
            assert forall|k: int| 0 <= k < after.len() - 1 implies (#[trigger] after[k]).order(
                after[k + 1],
            ) <= 0 by {
                if k + 1 < pos {
                    assert(after[k] == before[k] && after[k + 1] == before[k + 1]);
                } else if k + 1 == pos {
                    assert(after[k] == before[k]);
                } else if k == pos {
                    assert(after[k + 1] == before[k]);
                } else {
                    assert(after[k] == before[k - 1] && after[k + 1] == before[k]);
                }
            }
        }
        i = i + 1;
    }
    assert(views(input@).subrange(0, i as int) =~= views(input@));
    out
}

impl Repo {
    /// The values of the packages in the catalog, oldest first.
    pub open spec fn contents_view(self) -> Seq<PackageView> {
        views(self.packages@)
    }

    /// The names of the catalog's channels.
    pub open spec fn channels_view(self) -> Seq<Seq<char>> {
        self.channels@.map_values(|c: String| c@)
    }

    /// A catalog is well formed when no two of its packages are equal and
    /// no channel is named twice.
    pub open spec fn wf(self) -> bool {
        distinct(self.contents_view()) && distinct_names(self.channels_view())
    }

    /// An empty catalog without channels at the given address, last
    /// updated at `updated`.
    pub fn with_address(uri: String, priority: u32, enabled: bool, updated: Timestamp) -> (r: Repo)
        ensures
            r.uri == uri,
            r.priority == priority,
            r.enabled == enabled,
            r.updated == updated,
            r.packages@.len() == 0,
            r.channels@.len() == 0,
            r.wf(),
    {
        Repo { uri, priority, enabled, updated, packages: Vec::new(), channels: Vec::new() }
    }

    /// An empty catalog without channels, stamped with the current time.
    /// Its address is the text that the URL is written as.
    pub fn new(uri: url::Url, priority: u32, enabled: bool) -> (r: Repo)
        ensures
            r.priority == priority,
            r.enabled == enabled,
            r.packages@.len() == 0,
            r.channels@.len() == 0,
            r.wf(),
    {
        Repo::with_address(url_text(&uri), priority, enabled, stamp_now())
    }

    fn position_of(&self, package: &Package) -> (r: usize)
        ensures
            r == position(self.contents_view(), package@),
            r <= self.packages@.len(),
            r < self.packages@.len() <==> present(self.contents_view(), package@),
            r < self.packages@.len() ==> self.contents_view()[r as int].same(package@),
            forall|k: int| 0 <= k < r ==> !(#[trigger] self.contents_view()[k]).same(package@),
    {
        let ghost s = self.contents_view();
        let mut i: usize = 0;
        assert(s.subrange(0, s.len() as int) =~= s);
        while i < self.packages.len()
            invariant
                i <= self.packages.len(),
                s == self.contents_view(),
                position(s, package@) == i + position(s.subrange(i as int, s.len() as int), package@),
                forall|k: int| 0 <= k < i ==> !(#[trigger] s[k]).same(package@),
            decreases self.packages.len() - i,
        {
            let ghost rest = s.subrange(i as int, s.len() as int);
            assert(rest[0] == s[i as int]);
            if self.packages[i].same(package) {
                return i;
            }
            assert(rest.drop_first() =~= s.subrange(i + 1, s.len() as int));
            i = i + 1;
        }
        i
    }

    /// Offers the candidates one by one. A candidate is stored unless an
    /// equal package is already in the catalog; those turned away come
    /// back, sorted.
    pub fn add(&mut self, packages: &[Package]) -> (r: Vec<Package>)
        requires
            old(self).wf(),
        ensures
            final(self).wf(),
            final(self).contents_view() == added(old(self).contents_view(), views(packages@)),
            views(r@).to_multiset() == rejected(
                old(self).contents_view(),
                views(packages@),
            ).to_multiset(),
            sorted(views(r@)),
            final(self).uri == old(self).uri,
            final(self).priority == old(self).priority,
            final(self).enabled == old(self).enabled,
            final(self).updated == old(self).updated,
            final(self).channels == old(self).channels,
    {
        let mut rejects: Vec<Package> = Vec::new();
        let ghost start = self.contents_view();
        let ghost input = views(packages@);
        let mut i: usize = 0;
        assert(input.subrange(0, input.len() as int) =~= input);
        assert(views(rejects@) =~= Seq::empty());
        while i < packages.len()
            invariant
                i <= packages.len(),
                input == views(packages@),
                self.wf(),
                added(start, input) == added(
                    self.contents_view(),
                    input.subrange(i as int, input.len() as int),
                ),
                rejected(start, input) == views(rejects@) + rejected(
                    self.contents_view(),
                    input.subrange(i as int, input.len() as int),
                ),
                self.uri == old(self).uri,
                self.priority == old(self).priority,
                self.enabled == old(self).enabled,
                self.updated == old(self).updated,
                self.channels == old(self).channels,
            decreases packages.len() - i,
        {
            let ghost rest = input.subrange(i as int, input.len() as int);
            let ghost store = self.contents_view();
            assert(rest[0] == packages@[i as int]@);
            assert(rest.drop_first() =~= input.subrange(i + 1, input.len() as int));
            let at = self.position_of(&packages[i]);
            if at == self.packages.len() {
                self.packages.push(packages[i].duplicate());
                assert(self.contents_view() =~= store.push(rest[0]));
            } else {
                let ghost seen = views(rejects@);
                rejects.push(packages[i].duplicate());
                assert(views(rejects@) =~= seen.push(rest[0]));
                assert(views(rejects@) + rejected(store, rest.drop_first()) =~= seen + (seq![
                    rest[0],
                ] + rejected(store, rest.drop_first())));
            }
            i = i + 1;
        }
        assert(views(rejects@) + Seq::<PackageView>::empty() =~= views(rejects@));
        sort_packages(&rejects)
    }

    /// Stores each package unless an equal one is already in the catalog;
    /// those are dropped.
    pub fn load(&mut self, packages: Vec<Package>)
        requires
            old(self).wf(),
        ensures
            final(self).wf(),
            final(self).contents_view() == added(old(self).contents_view(), views(packages@)),
            final(self).uri == old(self).uri,
            final(self).priority == old(self).priority,
            final(self).enabled == old(self).enabled,
            final(self).updated == old(self).updated,
            final(self).channels == old(self).channels,
    {
        let _ = self.add(packages.as_slice());
    }

    /// Takes the package equal to `package` out of the catalog, if there is
    /// one.
    pub fn remove(&mut self, package: &Package)
        requires
            old(self).wf(),
        ensures
            final(self).wf(),
            !present(final(self).contents_view(), package@),
            final(self).contents_view() == (if present(old(self).contents_view(), package@) {
                old(self).contents_view().remove(position(old(self).contents_view(), package@))
            } else {
                old(self).contents_view()
            }),
            final(self).uri == old(self).uri,
            final(self).priority == old(self).priority,
            final(self).enabled == old(self).enabled,
            final(self).updated == old(self).updated,
            final(self).channels == old(self).channels,
    {
        let at = self.position_of(package);
        if at < self.packages.len() {
            let ghost before = self.contents_view();
            let _ = self.packages.remove(at);
            proof {
                let after = self.contents_view();
                assert(after =~= before.remove(at as int));
                assert forall|k: int| 0 <= k < after.len() implies !(#[trigger] after[k]).same(
                    package@,
                ) by {
                    if k < at {
                        assert(after[k] == before[k]);
                    } else {
                        assert(after[k] == before[k + 1]);
                        assert(!before[at as int].same(before[k + 1]));
                    }
                }
                assert forall|i: int, j: int| 0 <= i < j < after.len() implies !after[i].same(
                    after[j],
                ) by {
                    let a = if i < at { i } else { i + 1 };
                    let b = if j < at { j } else { j + 1 };
                    assert(after[i] == before[a] && after[j] == before[b]);
                }
            }
        }
    }

    /// Whether a package equal to `package` is in the catalog.
    pub fn contains(self, package: &Package) -> (r: bool)
        ensures
            r == present(self.contents_view(), package@),
    {
        self.position_of(package) < self.packages.len()
    }

    /// The packages of the given name, oldest first.
    pub fn contents_for_name(&self, name: String) -> (r: Vec<Package>)
        ensures
            views(r@) == named(self.contents_view(), name@),
    {
        let mut out: Vec<Package> = Vec::new();
        let ghost s = self.contents_view();
        let mut i: usize = 0;
        assert(views(out@) =~= named(s.subrange(0, 0), name@));
        while i < self.packages.len()
            invariant
                i <= self.packages.len(),
                s == self.contents_view(),
                views(out@) == named(s.subrange(0, i as int), name@),
            decreases self.packages.len() - i,
        {
            let ghost next = s.subrange(0, i + 1);
            assert(next.drop_last() =~= s.subrange(0, i as int));
            assert(next.last() == s[i as int]);
            if same_text(self.packages[i].name.as_str(), name.as_str()) {
                let ghost seen = views(out@);
                out.push(self.packages[i].duplicate());
                assert(views(out@) =~= seen.push(s[i as int]));
            }
            i = i + 1;
        }
        assert(s.subrange(0, i as int) =~= s);
        out
    }

    fn later_of_name(&self, from: usize, name: &str) -> (r: usize)
        requires
            from <= self.packages@.len(),
        ensures
            r == count_name(
                self.contents_view().subrange(from as int, self.packages@.len() as int),
                name@,
            ),
            r <= self.packages@.len() - from,
    {
        let ghost s = self.contents_view();
        let n: usize = self.packages.len();
        let mut i: usize = n;
        let mut found: usize = 0;
        while i > from
            invariant
                from <= i <= n,
                n == self.packages@.len(),
                s == self.contents_view(),
                found == count_name(s.subrange(i as int, n as int), name@),
                found <= n - i,
            decreases i,
        {
            i = i - 1;
            let ghost rest = s.subrange(i as int, n as int);
            assert(rest.drop_first() =~= s.subrange(i + 1, n as int));
            assert(rest[0] == s[i as int]);
            if same_text(self.packages[i].name.as_str(), name) {
                found = found + 1;
            }
        }
        found
    }

    /// Keeps of each name the `count` packages that were stored last and
    /// evicts the older ones; a negative `count` evicts nothing. The evicted
    /// packages come back oldest first, or `None` where there are none.
    pub fn prune(&mut self, count: i32) -> (r: Option<Vec<Package>>)
        requires
            old(self).wf(),
        ensures
            final(self).wf(),
            final(self).contents_view() == kept(
                old(self).contents_view(),
                limit_of(count, old(self).packages@.len()),
            ),
            match r {
                None => evicted(
                    old(self).contents_view(),
                    limit_of(count, old(self).packages@.len()),
                ).len() == 0,
                Some(gone) => gone@.len() > 0 && views(gone@) == evicted(
                    old(self).contents_view(),
                    limit_of(count, old(self).packages@.len()),
                ),
            },
            forall|name: Seq<char>|
                count_name(#[trigger] final(self).contents_view(), name) <= limit_of(
                    count,
                    old(self).packages@.len(),
                ),
            final(self).uri == old(self).uri,
            final(self).priority == old(self).priority,
            final(self).enabled == old(self).enabled,
            final(self).updated == old(self).updated,
            final(self).channels == old(self).channels,
    {
        let n: usize = self.packages.len();
        let ghost s = self.contents_view();
        let ghost limit = limit_of(count, n as nat);
        let mut stay: Vec<Package> = Vec::new();
        let mut gone: Vec<Package> = Vec::new();
        let mut i: usize = 0;
        assert(s.subrange(0, n as int) =~= s);
        assert(views(stay@) + kept(s, limit) =~= kept(s, limit));
        assert(views(gone@) + evicted(s, limit) =~= evicted(s, limit));
        while i < n
            invariant
                i <= n,
                n == self.packages@.len(),
                s == self.contents_view(),
                limit == limit_of(count, n as nat),
                *self == *old(self),
                kept(s, limit) == views(stay@) + kept(s.subrange(i as int, n as int), limit),
                evicted(s, limit) == views(gone@) + evicted(s.subrange(i as int, n as int), limit),
            decreases n - i,
        {
            let ghost rest = s.subrange(i as int, n as int);
            assert(rest.drop_first() =~= s.subrange(i + 1, n as int));
            assert(rest[0] == s[i as int]);
            let later = self.later_of_name(i + 1, self.packages[i].name.as_str());
            let ghost tail_kept = kept(rest.drop_first(), limit);
            let ghost tail_gone = evicted(rest.drop_first(), limit);
            if count < 0 || later < count as usize {
                let ghost seen = views(stay@);
                stay.push(self.packages[i].duplicate());
                assert(views(stay@) =~= seen.push(rest[0]));
                assert(views(stay@) + tail_kept =~= seen + (seq![rest[0]] + tail_kept));
            } else {
                let ghost seen = views(gone@);
                gone.push(self.packages[i].duplicate());
                assert(views(gone@) =~= seen.push(rest[0]));
                assert(views(gone@) + tail_gone =~= seen + (seq![rest[0]] + tail_gone));
            }
            i = i + 1;
        }
        proof {
            assert(views(stay@) + Seq::<PackageView>::empty() =~= views(stay@));
            assert(views(gone@) + Seq::<PackageView>::empty() =~= views(gone@));
            lemma_prune_distinct(s, limit);
            assert forall|name: Seq<char>| count_name(kept(s, limit), name) <= limit by {
                lemma_kept_count(s, limit, name);
            }
        }
        self.packages = stay;
        if gone.len() == 0 {
            return None;
        }
        Some(gone)
    }

    fn in_channel(package: &Package, channel: &str) -> (r: bool)
        ensures
            r == package@.channels.contains(channel@),
    {
        let mut i: usize = 0;
        while i < package.channels.len()
            invariant
                i <= package.channels.len(),
                forall|k: int| 0 <= k < i ==> package@.channels[k] != channel@,
            decreases package.channels.len() - i,
        {
            if same_text(package.channels[i].as_str(), channel) {
                assert(package@.channels[i as int] == channel@);
                return true;
            }
            i = i + 1;
        }
        false
    }

    /// What the catalog offers, sorted: every package where the catalog has
    /// no channels, else each package once for each of the catalog's
    /// channels that it belongs to.
    pub fn contents(self) -> (r: Vec<Package>)
        ensures
            views(r@).to_multiset() == selected(
                self.contents_view(),
                self.channels_view(),
            ).to_multiset(),
            sorted(views(r@)),
    {
        let mut filtered: Vec<Package> = Vec::new();
        let ghost s = self.contents_view();
        let ghost chans = self.channels_view();
        let n: usize = self.packages.len();
        let m: usize = self.channels.len();
        let mut i: usize = 0;
        assert(views(filtered@) =~= selected(s.subrange(0, 0), chans));
        while i < n
            invariant
                i <= n,
                n == self.packages@.len(),
                m == self.channels@.len(),
                s == self.contents_view(),
                chans == self.channels_view(),
                views(filtered@) == selected(s.subrange(0, i as int), chans),
            decreases n - i,
        {
            let ghost next = s.subrange(0, i + 1);
            let ghost seen = views(filtered@);
            assert(next.drop_last() =~= s.subrange(0, i as int));
            assert(next.last() == s[i as int]);
            if m > 0 {
                let mut j: usize = 0;
                assert(seen + copies(s[i as int], chans.subrange(0, 0)) =~= seen);
                while j < m
                    invariant
                        j <= m,
                        i < n,
                        n == self.packages@.len(),
                        m == self.channels@.len(),
                        s == self.contents_view(),
                        chans == self.channels_view(),
                        views(filtered@) == seen + copies(s[i as int], chans.subrange(0, j as int)),
                    decreases m - j,
                {
                    let ghost upto = chans.subrange(0, j + 1);
                    let ghost had = copies(s[i as int], chans.subrange(0, j as int));
                    assert(upto.drop_last() =~= chans.subrange(0, j as int));
                    assert(upto.last() == self.channels@[j as int]@);
                    if Repo::in_channel(&self.packages[i], self.channels[j].as_str()) {
                        let ghost old_views = views(filtered@);
                        filtered.push(self.packages[i].duplicate());
                        assert(views(filtered@) =~= old_views.push(s[i as int]));
                        assert(views(filtered@) =~= seen + had.push(s[i as int]));
                    }
                    j = j + 1;
                }
                assert(chans.subrange(0, m as int) =~= chans);
            } else {
                filtered.push(self.packages[i].duplicate());
                assert(views(filtered@) =~= seen.push(s[i as int]));
                assert(next =~= s.subrange(0, i as int).push(s[i as int]));
            }
            i = i + 1;
        }
        assert(s.subrange(0, n as int) =~= s);
        sort_packages(&filtered)
    }

    /// The order of two sources: the one with the numerically higher
    /// priority comes first; among equal priorities the addresses decide.
    pub open spec fn order(self, other: Repo) -> int {
        if self.priority > other.priority {
            -1
        } else if self.priority < other.priority {
            1
        } else {
            lex_order(self.uri@, other.uri@)
        }
    }

    /// Orders two sources.
    pub fn compare(&self, other: &Repo) -> (r: Order)
        ensures
            r.sign() == self.order(*other),
            r.sign() == -other.order(*self),
    {
        proof {
            lemma_lex_order_props(self.uri@, other.uri@);
        }
        if self.priority > other.priority {
            return Order::Less;
        }
        if self.priority < other.priority {
            return Order::Greater;
        }
        compare_text(self.uri.as_str(), other.uri.as_str())
    }

    /// Two sources are the same when address and priority agree.
    pub fn same(&self, other: &Repo) -> (r: bool)
        ensures
            r == (self.uri@ == other.uri@ && self.priority == other.priority),
    {
        same_text(self.uri.as_str(), other.uri.as_str()) && self.priority == other.priority
    }
}

impl PartialEq for Repo {
    /// Two sources are the same when address and priority agree.
    fn eq(&self, other: &Repo) -> (r: bool) {
        self.same(other)
    }
}

impl vstd::std_specs::cmp::PartialEqSpecImpl for Repo {
    open spec fn obeys_eq_spec() -> bool {
        true
    }

    open spec fn eq_spec(&self, other: &Repo) -> bool {
        self.uri@ == other.uri@ && self.priority == other.priority
    }
}

} // verus!
