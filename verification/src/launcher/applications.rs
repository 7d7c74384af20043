//! The applications plugin: one entry per desktop entry, ranked by how often
//! it was launched in the last weeks.
use vstd::prelude::*;
use crate::launcher::{LaunchItem, PluginReturn};
use crate::text::{owned, str_eq};
use crate::transfer::{Identifier, PluginName};

verus! {

/// An action of a desktop entry (a sub-entry such as "New Window").
#[derive(Debug)]
pub struct DesktopAction {
    pub id: String,
    pub name: String,
    pub exec_line: String,
}

/// A desktop entry, as read from a `.desktop` file.
#[derive(Debug)]
pub struct DesktopEntry {
    pub name: String,
    pub keywords: Vec<String>,
    pub icon: Option<String>,
    pub exec_line: String,
    /// Working directory to run in.
    pub exec_path: Option<String>,
    /// Run inside a terminal.
    pub terminal: bool,
    /// The command shown as details.
    pub exec_search: String,
    pub type_search: Option<String>,
    /// Path of the desktop file; identifies the entry.
    pub source: String,
    pub actions: Vec<DesktopAction>,
}

/// How often each desktop file was launched, keyed by its path.
#[derive(Debug)]
pub struct RunCounts {
    entries: Vec<(String, u64)>,
}

/// No path occurs twice.
pub open spec fn keys_distinct(s: Seq<(String, u64)>) -> bool {
    forall|i: int, j: int| 0 <= i < j < s.len() ==> s[i].0@ != s[j].0@
}

/// The count stored under `k` (0 when absent).
pub open spec fn count_in(s: Seq<(String, u64)>, k: Seq<char>) -> u64
    decreases s.len(),
{
    if s.len() == 0 {
        0
    } else if s.last().0@ == k {
        s.last().1
    } else {
        count_in(s.drop_last(), k)
    }
}

proof fn lemma_count_at(s: Seq<(String, u64)>, i: int)
    requires
        keys_distinct(s),
        0 <= i < s.len(),
    ensures
        count_in(s, s[i].0@) == s[i].1,
    decreases s.len(),
{
    if i < s.len() - 1 {
        lemma_count_at(s.drop_last(), i);
    }
}

proof fn lemma_count_absent(s: Seq<(String, u64)>, k: Seq<char>)
    requires
        forall|i: int| 0 <= i < s.len() ==> s[i].0@ != k,
    ensures
        count_in(s, k) == 0,
    decreases s.len(),
{
    if s.len() > 0 {
        lemma_count_absent(s.drop_last(), k);
    }
}

/// Entries under other keys do not matter to the count under `k`.
proof fn lemma_count_same(s: Seq<(String, u64)>, t: Seq<(String, u64)>, k: Seq<char>)
    requires
        s.len() == t.len(),
        forall|i: int| 0 <= i < s.len() ==> (s[i].0@ == k <==> t[i].0@ == k),
        forall|i: int| 0 <= i < s.len() && s[i].0@ == k ==> s[i].1 == t[i].1,
    ensures
        count_in(s, k) == count_in(t, k),
    decreases s.len(),
{
    if s.len() > 0 {
        lemma_count_same(s.drop_last(), t.drop_last(), k);
    }
}

impl RunCounts {
    /// The count of the desktop file at path `k`.
    pub closed spec fn count(&self, k: Seq<char>) -> u64 {
        count_in(self.entries@, k)
    }

    pub closed spec fn wf(&self) -> bool {
        keys_distinct(self.entries@)
    }

    /// No launches recorded.
    pub fn new() -> (r: Self)
        ensures
            r.wf(),
            forall|k: Seq<char>| r.count(k) == 0,
    {
        RunCounts { entries: Vec::new() }
    }

    fn find(&self, path: &str) -> (r: Option<usize>)
        ensures
            r matches Some(i) ==> i < self.entries@.len() && self.entries@[i as int].0@ == path@,
            r is None ==> forall|i: int|
                0 <= i < self.entries@.len() ==> self.entries@[i].0@ != path@,
    {
        let mut i: usize = 0;
        while i < self.entries.len()
            invariant
                i <= self.entries@.len(),
                forall|j: int| 0 <= j < i ==> self.entries@[j].0@ != path@,
            decreases self.entries.len() - i,
        {
            if str_eq(self.entries[i].0.as_str(), path) {
                return Some(i);
            }
            i += 1;
        }
        None
    }

    /// How often the desktop file at `path` was launched.
    pub fn get(&self, path: &str) -> (r: u64)
        requires
            self.wf(),
        ensures
            r == self.count(path@),
    {
        match self.find(path) {
            Some(i) => {
                proof {
                    lemma_count_at(self.entries@, i as int);
                }
                self.entries[i].1
            },
            None => {
                proof {
                    lemma_count_absent(self.entries@, path@);
                }
                0
            },
        }
    }

    /// Adds `n` launches of the desktop file at `path`.
    pub fn add(&mut self, path: &str, n: u64)
        requires
            old(self).wf(),
            old(self).count(path@) + n <= u64::MAX,
        ensures
            final(self).wf(),
            forall|k: Seq<char>|
                #![trigger final(self).count(k)]
                final(self).count(k) == old(self).count(k) + (if k == path@ {
                    n
                } else {
                    0
                }),
    {
        let ghost s = self.entries@;
        match self.find(path) {
            Some(i) => {
                proof {
                    lemma_count_at(s, i as int);
                }
                let key = self.entries[i].0.clone();
                let total = self.entries[i].1 + n;
                self.entries.set(i, (key, total));
                proof {
                    let t = self.entries@;
                    assert(t == s.update(i as int, (key, total)));
                    assert(keys_distinct(t));
                    lemma_count_at(t, i as int);
                    assert forall|k: Seq<char>| k != path@ implies count_in(t, k) == count_in(s, k) by {
                        lemma_count_same(s, t, k);
                    }
                }
            },
            None => {
                proof {
                    lemma_count_absent(s, path@);
                }
                self.entries.push((owned(path), n));
                proof {
                    let t = self.entries@;
                    assert(t.drop_last() =~= s);
                    assert(keys_distinct(t));
                }
            },
        }
    }
}

/// The rank bonus of a desktop file launched `runs` times: ln(runs - 2) /
/// 0.025, truncated and clamped to 0..=60 (no bonus below four launches, the
/// full bonus from seven).
pub open spec fn run_bonus(runs: u64) -> u64 {
    if runs <= 3 {
        0
    } else if runs == 4 {
        27
    } else if runs == 5 {
        43
    } else if runs == 6 {
        55
    } else {
        60
    }
}

/// The rank bonus of a desktop file launched `runs` times.
pub fn bonus_score(runs: u64) -> (r: u64)
    ensures
        r == run_bonus(runs),
        r <= 60,
{
    if runs <= 3 {
        0
    } else if runs == 4 {
        27
    } else if runs == 5 {
        43
    } else if runs == 6 {
        55
    } else {
        60
    }
}

/// The sub-entry of action `a` of entry `e`.
pub open spec fn action_item(e: DesktopEntry, a: DesktopAction, it: LaunchItem) -> bool {
    &&& it.name == a.name
    &&& it.keywords@ == e.keywords@
    &&& it.icon == e.icon
    &&& it.details == e.exec_search
    &&& it.details_long == Some(a.exec_line)
    &&& it.bonus_score == 0
    &&& it.iden == Identifier {
        plugin: PluginName::Applications,
        data: Some(e.source),
        data_additional: Some(a.id),
    }
    &&& !it.takes_args
    &&& it.children.len() == 0
}

/// The entry of desktop entry `e` with rank bonus `bonus`, its actions as
/// sub-entries.
pub open spec fn entry_item(e: DesktopEntry, bonus: u64, it: LaunchItem) -> bool {
    &&& it.name == e.name
    &&& it.keywords@ == e.keywords@
    &&& it.icon == e.icon
    &&& it.details == e.exec_search
    &&& it.details_long == e.type_search
    &&& it.bonus_score == bonus
    &&& it.iden == Identifier {
        plugin: PluginName::Applications,
        data: Some(e.source),
        data_additional: None,
    }
    &&& !it.takes_args
    &&& it.children.len() == e.actions.len()
    &&& forall|j: int|
        0 <= j < e.actions.len() ==> action_item(e, e.actions[j], #[trigger] it.children[j])
}

fn copy_strings(v: &Vec<String>) -> (r: Vec<String>)
    ensures
        r@ == v@,
{
    let mut out: Vec<String> = Vec::new();
    let mut i: usize = 0;
    while i < v.len()
        invariant
            i <= v.len(),
            out@ == v@.take(i as int),
        decreases v.len() - i,
    {
        out.push(v[i].clone());
        i += 1;
        assert(out@ =~= v@.take(i as int));
    }
    assert(v@.take(i as int) =~= v@);
    out
}

fn copy_opt(o: &Option<String>) -> (r: Option<String>)
    ensures
        r == *o,
{
    match o {
        Some(s) => Some(s.clone()),
        None => None,
    }
}

fn action_to_item(e: &DesktopEntry, a: &DesktopAction) -> (r: LaunchItem)
    ensures
        action_item(*e, *a, r),
{
    LaunchItem {
        name: a.name.clone(),
        keywords: copy_strings(&e.keywords),
        icon: copy_opt(&e.icon),
        details: e.exec_search.clone(),
        details_long: Some(a.exec_line.clone()),
        bonus_score: 0,
        iden: Identifier::data_additional(
            PluginName::Applications,
            e.source.clone(),
            a.id.clone(),
        ),
        takes_args: false,
        children: Vec::new(),
    }
}

/// The launcher entry of a desktop entry with rank bonus `bonus`.
pub fn from_desktop_entry(e: &DesktopEntry, bonus: u64) -> (r: LaunchItem)
    ensures
        entry_item(*e, bonus, r),
{
    let mut children: Vec<LaunchItem> = Vec::new();
    let mut j: usize = 0;
    while j < e.actions.len()
        invariant
            j <= e.actions.len(),
            children.len() == j,
            forall|k: int| 0 <= k < j ==> action_item(*e, e.actions[k], #[trigger] children[k]),
        decreases e.actions.len() - j,
    {
        children.push(action_to_item(e, &e.actions[j]));
        j += 1;
    }
    LaunchItem {
        name: e.name.clone(),
        keywords: copy_strings(&e.keywords),
        icon: copy_opt(&e.icon),
        details: e.exec_search.clone(),
        details_long: copy_opt(&e.type_search),
        bonus_score: bonus,
        iden: Identifier::data(PluginName::Applications, e.source.clone()),
        takes_args: false,
        children,
    }
}

/// The rank bonus of each entry.
pub open spec fn bonuses(entries: Seq<DesktopEntry>, runs: RunCounts) -> Seq<u64> {
    Seq::new(entries.len(), |i: int| run_bonus(runs.count(entries[i].source@)))
}

/// Indices `i < n` with `b[i] == k`, in increasing order.
pub open spec fn indices_with(b: Seq<u64>, k: u64, n: nat) -> Seq<int>
    decreases n,
{
    if n == 0 {
        Seq::empty()
    } else {
        let r = indices_with(b, k, (n - 1) as nat);
        if b[n - 1] == k {
            r.push(n - 1)
        } else {
            r
        }
    }
}

/// Indices of `b` grouped by value, from 60 down to `k`, each group in
/// increasing order.
pub open spec fn ranked_from(b: Seq<u64>, k: int) -> Seq<int>
    decreases 61 - k,
{
    if k > 60 || k < 0 {
        Seq::empty()
    } else {
        ranked_from(b, k + 1) + indices_with(b, k as u64, b.len())
    }
}

/// The launch order: by rank bonus (at most 60), highest first, entries of
/// equal bonus in the order given (a stable sort by descending bonus).
pub open spec fn ranked(b: Seq<u64>) -> Seq<int> {
    ranked_from(b, 0)
}

proof fn lemma_indices_with(b: Seq<u64>, k: u64, n: nat)
    requires
        n <= b.len(),
    ensures
        forall|j: int|
            0 <= j < indices_with(b, k, n).len() ==> 0 <= #[trigger] indices_with(b, k, n)[j] < n
                && b[indices_with(b, k, n)[j]] == k,
        forall|j: int, l: int|
            0 <= j < l < indices_with(b, k, n).len() ==> #[trigger] indices_with(b, k, n)[j]
                < #[trigger] indices_with(b, k, n)[l],
        forall|i: int| 0 <= i < n && b[i] == k ==> #[trigger] indices_with(b, k, n).contains(i),
    decreases n,
{
    if n > 0 {
        lemma_indices_with(b, k, (n - 1) as nat);
        let r = indices_with(b, k, (n - 1) as nat);
        if b[n - 1] == k {
            assert forall|i: int| 0 <= i < n && b[i] == k implies #[trigger] r.push(n - 1).contains(i) by {
                if i < n - 1 {
                    assert(r.contains(i));
                    let w = choose|w: int| 0 <= w < r.len() && r[w] == i;
                    assert(r.push(n - 1)[w] == i);
                } else {
                    assert(r.push(n - 1)[r.len() as int] == i);
                }
            }
        }
    }
}

proof fn lemma_ranked_from(b: Seq<u64>, k: int)
    requires
        0 <= k <= 61,
        forall|i: int| 0 <= i < b.len() ==> b[i] <= 60,
    ensures
        ({
            let r = ranked_from(b, k);
            &&& forall|j: int| 0 <= j < r.len() ==> 0 <= #[trigger] r[j] < b.len() && b[r[j]] >= k
            &&& forall|j: int, l: int|
                0 <= j < l < r.len() ==> b[#[trigger] r[j]] >= b[#[trigger] r[l]] && (b[r[j]]
                    == b[r[l]] ==> r[j] < r[l])
            &&& forall|i: int| 0 <= i < b.len() && b[i] >= k ==> #[trigger] r.contains(i)
        }),
    decreases 61 - k,
{
    if k <= 60 {
        lemma_ranked_from(b, k + 1);
        lemma_indices_with(b, k as u64, b.len());
        let p = ranked_from(b, k + 1);
        let q = indices_with(b, k as u64, b.len());
        let r = p + q;
        assert(ranked_from(b, k) == r);
        assert forall|j: int, l: int| 0 <= j < l < r.len() implies b[#[trigger] r[j]] >= b[#[trigger] r[l]]
            && (b[r[j]] == b[r[l]] ==> r[j] < r[l]) by {
            if l < p.len() {
                assert(r[j] == p[j] && r[l] == p[l]);
            } else if j >= p.len() {
                assert(r[j] == q[j - p.len()] && r[l] == q[l - p.len()]);
            } else {
                assert(r[j] == p[j] && r[l] == q[l - p.len()]);
            }
        }
        assert forall|i: int| 0 <= i < b.len() && b[i] >= k implies #[trigger] r.contains(i) by {
            if b[i] == k {
                assert(q.contains(i));
                let w = choose|w: int| 0 <= w < q.len() && q[w] == i;
                assert(r[p.len() + w] == i);
            } else {
                assert(p.contains(i));
                let w = choose|w: int| 0 <= w < p.len() && p[w] == i;
                assert(r[w] == i);
            }
        }
        assert forall|j: int| 0 <= j < r.len() implies 0 <= #[trigger] r[j] < b.len() && b[r[j]] >= k by {
            if j < p.len() {
                assert(r[j] == p[j]);
            } else {
                assert(r[j] == q[j - p.len()]);
            }
        }
    }
}

/// The launch order ranks every entry exactly once, by descending bonus,
/// entries of equal bonus in the order given.
pub proof fn law_ranking_is_stable_descending_permutation(b: Seq<u64>)
    requires
        forall|i: int| 0 <= i < b.len() ==> b[i] <= 60,
    ensures
        ({
            let r = ranked(b);
            &&& forall|j: int| 0 <= j < r.len() ==> 0 <= #[trigger] r[j] < b.len()
            &&& forall|i: int| 0 <= i < b.len() ==> #[trigger] r.contains(i)
            &&& r.no_duplicates()
            &&& forall|j: int, l: int|
                0 <= j < l < r.len() ==> b[#[trigger] r[j]] >= b[#[trigger] r[l]]
            &&& forall|j: int, l: int|
                0 <= j < l < r.len() && b[r[j]] == b[r[l]] ==> #[trigger] r[j] < #[trigger] r[l]
        }),
{
    lemma_ranked_from(b, 0);
    let r = ranked(b);
    assert forall|j: int, l: int| 0 <= j < r.len() && 0 <= l < r.len() && j != l implies r[j] != r[l] by {
        if j < l {
            assert(b[r[j]] >= b[r[l]]);
        } else {
            assert(b[r[l]] >= b[r[j]]);
        }
    }
}

/// `out` holds the entries at the indices `order`, in that order.
pub open spec fn items_at(
    out: Seq<LaunchItem>,
    entries: Seq<DesktopEntry>,
    b: Seq<u64>,
    order: Seq<int>,
) -> bool {
    &&& out.len() == order.len()
    &&& forall|j: int|
        0 <= j < out.len() ==> 0 <= #[trigger] order[j] < entries.len() && entry_item(
            entries[order[j]],
            b[order[j]],
            out[j],
        )
}

/// The entries of the desktop files, ranked by how often they were launched.
pub fn get_launch_items(entries: &Vec<DesktopEntry>, runs: &RunCounts) -> (r: Vec<LaunchItem>)
    requires
        runs.wf(),
    ensures
        items_at(r@, entries@, bonuses(entries@, *runs), ranked(bonuses(entries@, *runs))),
{
    let n = entries.len();
    let ghost b = bonuses(entries@, *runs);
    let mut bonus: Vec<u64> = Vec::new();
    let mut i: usize = 0;
    while i < n
        invariant
            n == entries.len(),
            i <= n,
            bonus.len() == i,
            forall|j: int| 0 <= j < i ==> bonus[j] == b[j],
            runs.wf(),
            b == bonuses(entries@, *runs),
        decreases n - i,
    {
        let r = runs.get(entries[i].source.as_str());
        bonus.push(bonus_score(r));
        i += 1;
    }
    assert(bonus@ =~= b);
    let mut out: Vec<LaunchItem> = Vec::new();
    let mut k: u64 = 61;
    while k > 0
        invariant
            k <= 61,
            n == entries.len(),
            bonus@ == b,
            b.len() == n,
            items_at(out@, entries@, b, ranked_from(b, k as int)),
        decreases k,
    {
        k -= 1;
        let mut i: usize = 0;
        while i < n
            invariant
                k <= 60,
                i <= n,
                n == entries.len(),
                bonus@ == b,
                b.len() == n,
                items_at(out@, entries@, b, ranked_from(b, k + 1) + indices_with(b, k, i as nat)),
            decreases n - i,
        {
            let ghost before = ranked_from(b, k + 1) + indices_with(b, k, i as nat);
            if bonus[i] == k {
                let item = from_desktop_entry(&entries[i], bonus[i]);
                out.push(item);
                proof {
                    assert(ranked_from(b, k + 1) + indices_with(b, k, (i + 1) as nat) =~= before.push(
                        i as int,
                    ));
                }
            } else {
                proof {
                    assert(ranked_from(b, k + 1) + indices_with(b, k, (i + 1) as nat) =~= before);
                }
            }
            i += 1;
        }
        proof {
            assert(ranked_from(b, k as int) == ranked_from(b, k + 1) + indices_with(b, k, n as nat));
        }
    }
    out
}

/// What launching a desktop entry runs.
#[derive(Debug)]
pub struct AppLaunch {
    pub exec_line: String,
    pub exec_path: Option<String>,
    pub terminal: bool,
    /// The desktop file whose launch is counted.
    pub source: String,
}

/// `i` is the first entry whose desktop file is `data`.
pub open spec fn first_source(entries: Seq<DesktopEntry>, data: Seq<char>, i: int) -> bool {
    0 <= i < entries.len() && entries[i].source@ == data && forall|j: int|
        0 <= j < i ==> entries[j].source@ != data
}

/// `j` is the first action of `e` with id `id`.
pub open spec fn first_action(e: DesktopEntry, id: Seq<char>, j: int) -> bool {
    0 <= j < e.actions.len() && e.actions[j].id@ == id && forall|l: int|
        0 <= l < j ==> e.actions[l].id@ != id
}

/// The launch of entry `e`, running `exec`.
pub open spec fn launch_of(e: DesktopEntry, exec: String, l: AppLaunch) -> bool {
    l.exec_line == exec && l.exec_path == e.exec_path && l.terminal == e.terminal && l.source
        == e.source
}

fn find_entry(entries: &Vec<DesktopEntry>, d: &str) -> (r: Option<usize>)
    ensures
        r matches Some(i) ==> first_source(entries@, d@, i as int),
        r is None ==> forall|i: int| 0 <= i < entries.len() ==> entries@[i].source@ != d@,
{
    let mut i: usize = 0;
    while i < entries.len()
        invariant
            i <= entries.len(),
            forall|j: int| 0 <= j < i ==> entries@[j].source@ != d@,
        decreases entries.len() - i,
    {
        if str_eq(entries[i].source.as_str(), d) {
            return Some(i);
        }
        i += 1;
    }
    None
}

fn find_action(e: &DesktopEntry, a: &str) -> (r: Option<usize>)
    ensures
        r matches Some(j) ==> first_action(*e, a@, j as int),
        r is None ==> forall|j: int| 0 <= j < e.actions.len() ==> e.actions@[j].id@ != a@,
{
    let mut j: usize = 0;
    while j < e.actions.len()
        invariant
            j <= e.actions.len(),
            forall|l: int| 0 <= l < j ==> e.actions@[l].id@ != a@,
        decreases e.actions.len() - j,
    {
        if str_eq(e.actions[j].id.as_str(), a) {
            return Some(j);
        }
        j += 1;
    }
    None
}

/// Launches the entry whose desktop file is `data`, or its action
/// `data_additional`. Nothing runs when the entry or the action is unknown;
/// a run is counted for the entry's desktop file.
pub fn launch_option(
    data: Option<&str>,
    data_additional: Option<&str>,
    entries: &Vec<DesktopEntry>,
) -> (r: (PluginReturn, Option<AppLaunch>))
    ensures
        r.0.show_animation == r.1 is Some,
        r.1 is Some <==> (data matches Some(d) && exists|i: int|
            first_source(entries@, d@, i) && (data_additional matches Some(a) ==> exists|j: int|
                first_action(entries@[i], a@, j))),
        forall|i: int|
            data matches Some(d) && first_source(entries@, d@, i) && r.1 is Some ==> (match data_additional {
                None => launch_of(entries@[i], entries@[i].exec_line, r.1->0),
                Some(a) => forall|j: int|
                    first_action(entries@[i], a@, j) ==> launch_of(
                        entries@[i],
                        entries@[i].actions[j].exec_line,
                        r.1->0,
                    ),
            }),
{
    let d = match data {
        Some(d) => d,
        None => {
            return (PluginReturn { show_animation: false }, None);
        },
    };
    let i = match find_entry(entries, d) {
        Some(i) => i,
        None => {
            return (PluginReturn { show_animation: false }, None);
        },
    };
    let e = &entries[i];
    let exec = match data_additional {
        Some(a) => match find_action(e, a) {
            Some(j) => e.actions[j].exec_line.clone(),
            None => {
                return (PluginReturn { show_animation: false }, None);
            },
        },
        None => e.exec_line.clone(),
    };
    (
        PluginReturn { show_animation: true },
        Some(
            AppLaunch {
                exec_line: exec,
                exec_path: copy_opt(&e.exec_path),
                terminal: e.terminal,
                source: e.source.clone(),
            },
        ),
    )
}

} // verus!
