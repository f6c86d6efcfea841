//! The natal chart store: an in-memory table of charts keyed by (name, birth date).
//!
//! The table keeps charts in the order they were first saved; saving a chart whose key is
//! already present replaces that entry in place. Lookups by name alone therefore return the
//! earliest-saved chart with that name. Persisting the table is left to the owner of the
//! store, which writes it out in full after every change.
use vstd::prelude::*;

use crate::natal_chart::NatalChart;

verus! {

/// A stored chart's identity and place, for listing.
#[derive(Debug, Clone, PartialEq, Eq)]
pub struct ChartInfo {
    pub name: String,
    pub birth_date: String,
    pub birth_location: String,
}

/// Whether a chart has the key (name, birth date).
pub open spec fn has_key(c: NatalChart, name: Seq<char>, birth_date: Seq<char>) -> bool {
    c.name@ == name && c.birth_date@ == birth_date
}

/// Whether two charts have the same key.
pub open spec fn same_key(a: NatalChart, b: NatalChart) -> bool {
    has_key(a, b.name@, b.birth_date@)
}

/// Whether no two entries of a table share a key.
pub open spec fn keys_unique(s: Seq<NatalChart>) -> bool {
    forall|i: int, j: int|
        0 <= i < s.len() && 0 <= j < s.len() && i != j ==> !same_key(#[trigger] s[i], #[trigger] s[j])
}

/// Whether entry `i` of a table has the key.
pub open spec fn key_at(s: Seq<NatalChart>, i: int, name: Seq<char>, birth_date: Seq<char>) -> bool {
    0 <= i < s.len() && has_key(s[i], name, birth_date)
}

/// The chart a table holds under a key.
pub open spec fn exact(s: Seq<NatalChart>, name: Seq<char>, birth_date: Seq<char>) -> Option<NatalChart> {
    if exists|i: int| key_at(s, i, name, birth_date) {
        Some(s[choose|i: int| key_at(s, i, name, birth_date)])
    } else {
        None
    }
}

/// The table after saving a chart: the entry with its key is replaced, or the chart is
/// appended when no entry has its key.
pub open spec fn saved(s: Seq<NatalChart>, c: NatalChart) -> Seq<NatalChart> {
    if exists|i: int| key_at(s, i, c.name@, c.birth_date@) {
        s.update(choose|i: int| key_at(s, i, c.name@, c.birth_date@), c)
    } else {
        s.push(c)
    }
}

/// The table after deleting the entry with a key, if there is one.
pub open spec fn removed(s: Seq<NatalChart>, name: Seq<char>, birth_date: Seq<char>) -> Seq<NatalChart> {
    if exists|i: int| key_at(s, i, name, birth_date) {
        s.remove(choose|i: int| key_at(s, i, name, birth_date))
    } else {
        s
    }
}

/// The table after saving each chart of a list in turn.
pub open spec fn saved_all(charts: Seq<NatalChart>) -> Seq<NatalChart>
    decreases charts.len(),
{
    if charts.len() == 0 {
        Seq::empty()
    } else {
        saved(saved_all(charts.drop_last()), charts.last())
    }
}

/// Whether entry `i` is the first entry of a table with the name.
pub open spec fn first_named(s: Seq<NatalChart>, name: Seq<char>, i: int) -> bool {
    &&& 0 <= i < s.len()
    &&& s[i].name@ == name
    &&& forall|j: int| 0 <= j < i ==> s[j].name@ != name
}

/// The table after deleting the first entry with a name, if there is one.
pub open spec fn removed_named(s: Seq<NatalChart>, name: Seq<char>) -> Seq<NatalChart> {
    if exists|i: int| first_named(s, name, i) {
        s.remove(choose|i: int| first_named(s, name, i))
    } else {
        s
    }
}

/// Whether `needle` occurs in `hay` as a contiguous run of characters.
pub open spec fn is_substring(needle: Seq<char>, hay: Seq<char>) -> bool {
    exists|i: int| 0 <= i && i + needle.len() <= hay.len() && #[trigger] hay.subrange(i, i + needle.len()) == needle
}

/// The lower-case form of a text, as Rust's `str::to_lowercase` gives it.
pub uninterp spec fn lower_of(s: Seq<char>) -> Seq<char>;

/// The charts whose lower-cased name contains the lower-cased query, in table order.
pub open spec fn matching(s: Seq<NatalChart>, folded_query: Seq<char>) -> Seq<NatalChart>
    decreases s.len(),
{
    if s.len() == 0 {
        Seq::empty()
    } else {
        let m = matching(s.drop_last(), folded_query);
        if is_substring(folded_query, lower_of(s.last().name@)) {
            m.push(s.last())
        } else {
            m
        }
    }
}

/// Whether a listing entry shows a chart.
pub open spec fn describes(info: ChartInfo, c: NatalChart) -> bool {
    &&& info.name == c.name
    &&& info.birth_date == c.birth_date
    &&& info.birth_location == c.birth_location
}

/// Relies on `str::to_lowercase`: its result depends on the characters of the text alone.
#[verifier::external_body]
fn lowercase(s: &str) -> (r: String)
    ensures
        r@ == lower_of(s@),
{
    s.to_lowercase()
}

/// Whether `needle` occurs in `hay`. Used on lower-cased texts, it is the name filter of
/// `Storage::search_charts`.
pub fn name_matches(needle: &str, hay: &str) -> (r: bool)
    ensures
        r == is_substring(needle@, hay@),
{
    let n = needle.unicode_len();
    let h = hay.unicode_len();
    if n > h {
        return false;
    }
    let mut i: usize = 0;
    while i <= h - n
        invariant
            n == needle@.len(),
            h == hay@.len(),
            n <= h,
            0 <= i <= h - n + 1,
            forall|k: int| 0 <= k < i ==> #[trigger] hay@.subrange(k, k + n) != needle@,
        decreases h - n + 1 - i,
    {
        let mut j: usize = 0;
        let mut same = true;
        while j < n
            invariant
                n == needle@.len(),
                h == hay@.len(),
                i + n <= h,
                0 <= j <= n,
                same == (forall|m: int| 0 <= m < j ==> hay@[i + m] == needle@[m]),
            decreases n - j,
        {
            if hay.get_char(i + j) != needle.get_char(j) {
                same = false;
            }
            j = j + 1;
        }
        if same {
            assert(hay@.subrange(i as int, i + n) =~= needle@);
            return true;
        }
        proof {
            if hay@.subrange(i as int, i + n) == needle@ {
                assert forall|m: int| 0 <= m < n implies hay@[i + m] == needle@[m] by {
                    assert(hay@.subrange(i as int, i + n)[m] == hay@[i + m]);
                }
            }
        }
        i = i + 1;
    }
    proof {
        assert forall|k: int| 0 <= k && k + needle@.len() <= hay@.len() implies #[trigger] hay@.subrange(
            k,
            k + needle@.len(),
        ) != needle@ by {
            assert(k < i);
        }
    }
    false
}

/// The chart table.
pub struct Storage {
    charts: Vec<NatalChart>,
}

impl View for Storage {
    type V = Seq<NatalChart>;

    closed spec fn view(&self) -> Seq<NatalChart> {
        self.charts@
    }
}

impl Storage {
    /// Whether no two charts of the table share a key.
    pub open spec fn wf(&self) -> bool {
        keys_unique(self@)
    }

    /// An empty table.
    pub fn new() -> (r: Storage)
        ensures
            r.wf(),
            r@ == Seq::<NatalChart>::empty(),
    {
        Storage { charts: Vec::new() }
    }

    /// A table holding the charts of a list, each saved in turn, so that of two charts with
    /// one key the later stays.
    pub fn from_charts(charts: Vec<NatalChart>) -> (r: Storage)
        ensures
            r.wf(),
            r@ == saved_all(charts@),
    {
        let mut store = Storage::new();
        let mut rest = charts;
        let ghost all = rest@;
        let n = rest.len();
        let mut i: usize = 0;
        while rest.len() > 0
            invariant
                store.wf(),
                n == all.len(),
                0 <= i <= all.len(),
                rest@ == all.subrange(i as int, all.len() as int),
                store@ == saved_all(all.take(i as int)),
            decreases rest@.len(),
        {
            let c = rest.remove(0);
            proof {
                assert(all.take(i + 1).drop_last() =~= all.take(i as int));
                assert(all.take(i + 1).last() == all[i as int]);
                assert(rest@ =~= all.subrange(i + 1, all.len() as int));
            }
            store.save_chart(c);
            i = i + 1;
        }
        assert(i == all.len());
        assert(all.take(all.len() as int) =~= all);
        store
    }

    /// The charts, in table order.
    pub fn charts(&self) -> (r: &Vec<NatalChart>)
        ensures
            r@ == self@,
    {
        &self.charts
    }

    /// The number of charts.
    pub fn len(&self) -> (r: usize)
        ensures
            r == self@.len(),
    {
        self.charts.len()
    }

    fn index_exact(&self, name: &String, birth_date: &String) -> (r: Option<usize>)
        ensures
            match r {
                Some(i) => key_at(self@, i as int, name@, birth_date@),
                None => forall|i: int| !key_at(self@, i, name@, birth_date@),
            },
    {
        let mut i: usize = 0;
        while i < self.charts.len()
            invariant
                0 <= i <= self.charts@.len(),
                forall|k: int| 0 <= k < i ==> !key_at(self@, k, name@, birth_date@),
            decreases self.charts.len() - i,
        {
            if self.charts[i].name == *name && self.charts[i].birth_date == *birth_date {
                return Some(i);
            }
            i = i + 1;
        }
        None
    }

    fn index_named(&self, name: &String) -> (r: Option<usize>)
        ensures
            match r {
                Some(i) => first_named(self@, name@, i as int),
                None => forall|i: int| 0 <= i < self@.len() ==> self@[i].name@ != name@,
            },
    {
        let mut i: usize = 0;
        while i < self.charts.len()
            invariant
                0 <= i <= self.charts@.len(),
                forall|k: int| 0 <= k < i ==> self@[k].name@ != name@,
            decreases self.charts.len() - i,
        {
            if self.charts[i].name == *name {
                return Some(i);
            }
            i = i + 1;
        }
        None
    }

    /// Saves a chart under its key (name, birth date), replacing the chart stored under that
    /// key if there is one.
    pub fn save_chart(&mut self, chart: NatalChart)
        requires
            old(self).wf(),
        ensures
            final(self).wf(),
            final(self)@ == saved(old(self)@, chart),
    {
        let ghost s = self@;
        match self.index_exact(&chart.name, &chart.birth_date) {
            Some(i) => {
                proof {
                    lemma_key_index_unique(s, i as int, chart.name@, chart.birth_date@);
                    lemma_saved_unique(s, chart);
                }
                self.charts.set(i, chart);
            },
            None => {
                proof {
                    lemma_saved_unique(s, chart);
                }
                self.charts.push(chart);
            },
        }
    }

    /// The first chart in table order with the name.
    pub fn get_chart(&self, name: &str) -> (r: Option<&NatalChart>)
        ensures
            match r {
                Some(c) => exists|i: int| first_named(self@, name@, i) && *c == self@[i],
                None => forall|i: int| 0 <= i < self@.len() ==> self@[i].name@ != name@,
            },
    {
        let name = String::from_str(name);
        match self.index_named(&name) {
            Some(i) => Some(&self.charts[i]),
            None => None,
        }
    }

    /// The chart stored under the key (name, birth date).
    pub fn get_chart_exact(&self, name: &str, birth_date: &str) -> (r: Option<&NatalChart>)
        requires
            self.wf(),
        ensures
            match r {
                Some(c) => exact(self@, name@, birth_date@) == Some(*c),
                None => exact(self@, name@, birth_date@).is_none(),
            },
    {
        let name = String::from_str(name);
        let birth_date = String::from_str(birth_date);
        match self.index_exact(&name, &birth_date) {
            Some(i) => {
                proof {
                    lemma_key_index_unique(self@, i as int, name@, birth_date@);
                }
                Some(&self.charts[i])
            },
            None => None,
        }
    }

    /// The first chart in table order, if any.
    pub fn get_default_chart(&self) -> (r: Option<&NatalChart>)
        ensures
            match r {
                Some(c) => self@.len() > 0 && *c == self@[0],
                None => self@.len() == 0,
            },
    {
        if self.charts.len() > 0 {
            Some(&self.charts[0])
        } else {
            None
        }
    }

    /// Name, birth date and place of every chart, in table order.
    pub fn list_charts(&self) -> (r: Vec<ChartInfo>)
        ensures
            r@.len() == self@.len(),
            forall|i: int| 0 <= i < r@.len() ==> describes(#[trigger] r@[i], self@[i]),
    {
        let mut r: Vec<ChartInfo> = Vec::new();
        let mut i: usize = 0;
        while i < self.charts.len()
            invariant
                0 <= i <= self.charts@.len(),
                r@.len() == i,
                forall|k: int| 0 <= k < i ==> describes(#[trigger] r@[k], self@[k]),
            decreases self.charts.len() - i,
        {
            let c = &self.charts[i];
            r.push(
                ChartInfo {
                    name: c.name.clone(),
                    birth_date: c.birth_date.clone(),
                    birth_location: c.birth_location.clone(),
                },
            );
            i = i + 1;
        }
        r
    }

    /// The name of every chart, in table order.
    pub fn list_chart_names(&self) -> (r: Vec<String>)
        ensures
            r@.len() == self@.len(),
            forall|i: int| 0 <= i < r@.len() ==> #[trigger] r@[i] == self@[i].name,
    {
        let mut r: Vec<String> = Vec::new();
        let mut i: usize = 0;
        while i < self.charts.len()
            invariant
                0 <= i <= self.charts@.len(),
                r@.len() == i,
                forall|k: int| 0 <= k < i ==> #[trigger] r@[k] == self@[k].name,
            decreases self.charts.len() - i,
        {
            r.push(self.charts[i].name.clone());
            i = i + 1;
        }
        r
    }

    /// The charts whose name contains the query, ignoring case, in table order.
    pub fn search_charts(&self, query: &str) -> (r: Vec<ChartInfo>)
        ensures
            r@.len() == matching(self@, lower_of(query@)).len(),
            forall|i: int| 0 <= i < r@.len() ==> describes(
                #[trigger] r@[i],
                matching(self@, lower_of(query@))[i],
            ),
    {
        let query_lower = lowercase(query);
        let ghost q = lower_of(query@);
        let mut r: Vec<ChartInfo> = Vec::new();
        let mut i: usize = 0;
        while i < self.charts.len()
            invariant
                0 <= i <= self.charts@.len(),
                query_lower@ == q,
                r@.len() == matching(self@.take(i as int), q).len(),
                forall|k: int| 0 <= k < r@.len() ==> describes(
                    #[trigger] r@[k],
                    matching(self@.take(i as int), q)[k],
                ),
            decreases self.charts.len() - i,
        {
            let c = &self.charts[i];
            let name_lower = lowercase(c.name.as_str());
            proof {
                assert(self@.take(i + 1).drop_last() =~= self@.take(i as int));
                assert(self@.take(i + 1).last() == self@[i as int]);
            }
            if name_matches(query_lower.as_str(), name_lower.as_str()) {
                r.push(
                    ChartInfo {
                        name: c.name.clone(),
                        birth_date: c.birth_date.clone(),
                        birth_location: c.birth_location.clone(),
                    },
                );
            }
            i = i + 1;
        }
        assert(self@.take(self@.len() as int) =~= self@);
        r
    }

    /// Deletes the first chart in table order with the name; whether one was deleted.
    pub fn delete_chart(&mut self, name: &str) -> (r: bool)
        requires
            old(self).wf(),
        ensures
            final(self).wf(),
            r == exists|i: int| 0 <= i < old(self)@.len() && old(self)@[i].name@ == name@,
            final(self)@ == removed_named(old(self)@, name@),
    {
        let name = String::from_str(name);
        let ghost s = self@;
        match self.index_named(&name) {
            Some(i) => {
                proof {
                    lemma_first_named_unique(s, name@, i as int);
                    lemma_remove_keeps_unique(s, i as int);
                }
                self.charts.remove(i);
                true
            },
            None => {
                proof {
                    assert(!exists|i: int| first_named(s, name@, i));
                }
                false
            },
        }
    }

    /// Deletes the chart stored under the key (name, birth date); whether one was deleted.
    pub fn delete_chart_exact(&mut self, name: &str, birth_date: &str) -> (r: bool)
        requires
            old(self).wf(),
        ensures
            final(self).wf(),
            r == exact(old(self)@, name@, birth_date@).is_some(),
            final(self)@ == removed(old(self)@, name@, birth_date@),
    {
        let name = String::from_str(name);
        let birth_date = String::from_str(birth_date);
        let ghost s = self@;
        match self.index_exact(&name, &birth_date) {
            Some(i) => {
                proof {
                    lemma_key_index_unique(s, i as int, name@, birth_date@);
                    lemma_remove_keeps_unique(s, i as int);
                }
                self.charts.remove(i);
                true
            },
            None => false,
        }
    }
}

proof fn lemma_key_index_unique(s: Seq<NatalChart>, i: int, name: Seq<char>, birth_date: Seq<char>)
    requires
        keys_unique(s),
        key_at(s, i, name, birth_date),
    ensures
        (choose|j: int| key_at(s, j, name, birth_date)) == i,
        exact(s, name, birth_date) == Some(s[i]),
{
    let j = choose|j: int| key_at(s, j, name, birth_date);
    assert(key_at(s, j, name, birth_date));
    if j != i {
        assert(same_key(s[i], s[j]));
    }
}

proof fn lemma_first_named_unique(s: Seq<NatalChart>, name: Seq<char>, i: int)
    requires
        first_named(s, name, i),
    ensures
        (choose|j: int| first_named(s, name, j)) == i,
{
    let j = choose|j: int| first_named(s, name, j);
    assert(first_named(s, name, j));
    if j < i {
        assert(s[j].name@ != name);
    } else if j > i {
        assert(s[i].name@ != name);
    }
}

proof fn lemma_remove_keeps_unique(s: Seq<NatalChart>, i: int)
    requires
        keys_unique(s),
        0 <= i < s.len(),
    ensures
        keys_unique(s.remove(i)),
{
    let t = s.remove(i);
    assert forall|a: int, b: int| 0 <= a < t.len() && 0 <= b < t.len() && a != b implies !same_key(
        #[trigger] t[a],
        #[trigger] t[b],
    ) by {
        let a0 = if a < i { a } else { a + 1 };
        let b0 = if b < i { b } else { b + 1 };
        assert(t[a] == s[a0]);
        assert(t[b] == s[b0]);
    }
}

proof fn lemma_saved_unique(s: Seq<NatalChart>, c: NatalChart)
    requires
        keys_unique(s),
    ensures
        keys_unique(saved(s, c)),
{
    let t = saved(s, c);
    if exists|i: int| key_at(s, i, c.name@, c.birth_date@) {
        let k = choose|i: int| key_at(s, i, c.name@, c.birth_date@);
        assert forall|a: int, b: int| 0 <= a < t.len() && 0 <= b < t.len() && a != b implies !same_key(
            #[trigger] t[a],
            #[trigger] t[b],
        ) by {
            if a == k {
                assert(!same_key(s[k], s[b]));
            } else if b == k {
                assert(!same_key(s[a], s[k]));
            }
        }
    } else {
        assert forall|a: int, b: int| 0 <= a < t.len() && 0 <= b < t.len() && a != b implies !same_key(
            #[trigger] t[a],
            #[trigger] t[b],
        ) by {
            if a == s.len() {
                assert(!key_at(s, b, c.name@, c.birth_date@));
            } else if b == s.len() {
                assert(!key_at(s, a, c.name@, c.birth_date@));
            }
        }
    }
}

proof fn lemma_exact_absent(s: Seq<NatalChart>, name: Seq<char>, birth_date: Seq<char>)
    requires
        forall|i: int| !key_at(s, i, name, birth_date),
    ensures
        exact(s, name, birth_date).is_none(),
{
}

proof fn lemma_saved_shape(s: Seq<NatalChart>, c: NatalChart)
    requires
        keys_unique(s),
    ensures
        keys_unique(saved(s, c)),
        exact(saved(s, c), c.name@, c.birth_date@) == Some(c),
        saved(s, c).len() == s.len() + (if exact(s, c.name@, c.birth_date@).is_some() {
            0int
        } else {
            1int
        }),
        forall|i: int| 0 <= i < s.len() && !same_key(s[i], c) ==> saved(s, c)[i] == s[i],
        forall|i: int| 0 <= i < saved(s, c).len() && !same_key(#[trigger] saved(s, c)[i], c) ==> i < s.len() && saved(s, c)[i] == s[i],
{
    lemma_saved_unique(s, c);
    let t = saved(s, c);
    if exists|i: int| key_at(s, i, c.name@, c.birth_date@) {
        let k = choose|i: int| key_at(s, i, c.name@, c.birth_date@);
        assert(key_at(t, k, c.name@, c.birth_date@));
        lemma_key_index_unique(t, k, c.name@, c.birth_date@);
        assert forall|i: int| 0 <= i < s.len() && !same_key(s[i], c) implies t[i] == s[i] by {
            if i == k {
                assert(same_key(s[i], c));
            }
        }
    } else {
        let k = s.len() as int;
        assert(key_at(t, k, c.name@, c.birth_date@));
        lemma_key_index_unique(t, k, c.name@, c.birth_date@);
        lemma_exact_absent(s, c.name@, c.birth_date@);
    }
}

proof fn lemma_saved_other(s: Seq<NatalChart>, c: NatalChart, name: Seq<char>, birth_date: Seq<char>)
    requires
        keys_unique(s),
        !has_key(c, name, birth_date),
    ensures
        exact(saved(s, c), name, birth_date) == exact(s, name, birth_date),
{
    lemma_saved_shape(s, c);
    let t = saved(s, c);
    if exists|i: int| key_at(s, i, name, birth_date) {
        let j = choose|i: int| key_at(s, i, name, birth_date);
        lemma_key_index_unique(s, j, name, birth_date);
        assert(!same_key(s[j], c));
        assert(key_at(t, j, name, birth_date));
        lemma_key_index_unique(t, j, name, birth_date);
    } else {
        assert forall|i: int| !key_at(t, i, name, birth_date) by {
            if key_at(t, i, name, birth_date) {
                assert(!same_key(t[i], c));
                assert(key_at(s, i, name, birth_date));
            }
        }
        lemma_exact_absent(t, name, birth_date);
    }
}

proof fn lemma_removed_shape(s: Seq<NatalChart>, name: Seq<char>, birth_date: Seq<char>, n2: Seq<char>, d2: Seq<char>)
    requires
        keys_unique(s),
    ensures
        keys_unique(removed(s, name, birth_date)),
        exact(removed(s, name, birth_date), name, birth_date).is_none(),
        !(n2 == name && d2 == birth_date) ==> exact(removed(s, name, birth_date), n2, d2) == exact(s, n2, d2),
{
    let u = removed(s, name, birth_date);
    if exists|i: int| key_at(s, i, name, birth_date) {
        let k = choose|i: int| key_at(s, i, name, birth_date);
        lemma_remove_keeps_unique(s, k);
        assert forall|i: int| !key_at(u, i, name, birth_date) by {
            if key_at(u, i, name, birth_date) {
                let i0 = if i < k { i } else { i + 1 };
                assert(u[i] == s[i0]);
                assert(same_key(s[i0], s[k]));
            }
        }
        lemma_exact_absent(u, name, birth_date);
        if !(n2 == name && d2 == birth_date) {
            if exists|i: int| key_at(s, i, n2, d2) {
                let j = choose|i: int| key_at(s, i, n2, d2);
                lemma_key_index_unique(s, j, n2, d2);
                assert(j != k);
                let j1 = if j < k { j } else { j - 1 };
                assert(u[j1] == s[j]);
                assert(key_at(u, j1, n2, d2));
                lemma_key_index_unique(u, j1, n2, d2);
            } else {
                assert forall|i: int| !key_at(u, i, n2, d2) by {
                    if key_at(u, i, n2, d2) {
                        let i0 = if i < k { i } else { i + 1 };
                        assert(u[i] == s[i0]);
                        assert(key_at(s, i0, n2, d2));
                    }
                }
                lemma_exact_absent(u, n2, d2);
            }
        }
    }
}

/// Round trip: after a chart is saved, looking up its key (name, birth date) gives back that
/// chart, equal in every field, and no two entries share a key.
pub proof fn lemma_save_then_get_exact(s: Seq<NatalChart>, chart: NatalChart)
    requires
        keys_unique(s),
    ensures
        keys_unique(saved(s, chart)),
        exact(saved(s, chart), chart.name@, chart.birth_date@) == Some(chart),
{
    lemma_saved_shape(s, chart);
}

/// Composite-key isolation: two charts with one name and different birth dates are two
/// entries. After both are saved each is found under its own key, the table has grown by two
/// when neither key was stored before, and deleting one by its key leaves the other in
/// place.
pub proof fn lemma_composite_key_isolation(s: Seq<NatalChart>, a: NatalChart, b: NatalChart)
    requires
        keys_unique(s),
        a.name@ == b.name@,
        a.birth_date@ != b.birth_date@,
    ensures
        ({
            let t = saved(saved(s, a), b);
            let u = removed(t, a.name@, a.birth_date@);
            &&& keys_unique(t)
            &&& exact(t, a.name@, a.birth_date@) == Some(a)
            &&& exact(t, b.name@, b.birth_date@) == Some(b)
            &&& (exact(s, a.name@, a.birth_date@).is_none() && exact(s, b.name@, b.birth_date@).is_none())
                ==> t.len() == s.len() + 2
            &&& keys_unique(u)
            &&& exact(u, a.name@, a.birth_date@).is_none()
            &&& exact(u, b.name@, b.birth_date@) == Some(b)
        }),
{
    let t1 = saved(s, a);
    lemma_saved_shape(s, a);
    lemma_saved_shape(t1, b);
    lemma_saved_other(t1, b, a.name@, a.birth_date@);
    lemma_saved_other(s, a, b.name@, b.birth_date@);
    let t = saved(t1, b);
    lemma_removed_shape(t, a.name@, a.birth_date@, b.name@, b.birth_date@);
}

/// Overwrite: saving a second chart under a key that is already stored replaces the entry.
/// The table keeps its size, keeps its keys unique, and holds the second chart under the
/// key.
pub proof fn lemma_overwrite_keeps_count(s: Seq<NatalChart>, first: NatalChart, second: NatalChart)
    requires
        keys_unique(s),
        same_key(first, second),
    ensures
        ({
            let t1 = saved(s, first);
            let t2 = saved(t1, second);
            &&& keys_unique(t2)
            &&& t2.len() == t1.len()
            &&& exact(t2, second.name@, second.birth_date@) == Some(second)
        }),
{
    let t1 = saved(s, first);
    lemma_saved_shape(s, first);
    lemma_saved_shape(t1, second);
}

} // verus!
