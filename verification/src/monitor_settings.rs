use vstd::prelude::*;

use crate::shared_types::MonitorOption;
use crate::text::{
    compare_str, decimal_seq, lemma_seq_lt_transitive, lemma_seq_order_basics, push_decimal,
    seq_lt, string_from_chars, trim_seq, trimmed_chars, lemma_not_blank,
};

verus! {

/// A monitor as plain values.
pub struct MonitorView {
    pub name: Seq<char>,
    pub x: i32,
    pub y: i32,
    pub width: u32,
    pub height: u32,
}

/// A monitor: its name, its top-left corner and its size (each side at least 1).
#[derive(Clone, Debug)]
pub struct MonitorDescriptor {
    name: String,
    position_x: i32,
    position_y: i32,
    width: u32,
    height: u32,
}

impl View for MonitorDescriptor {
    type V = MonitorView;

    closed spec fn view(&self) -> MonitorView {
        MonitorView {
            name: self.name@,
            x: self.position_x,
            y: self.position_y,
            width: self.width,
            height: self.height,
        }
    }
}

pub open spec fn views(s: Seq<MonitorDescriptor>) -> Seq<MonitorView> {
    s.map_values(|m: MonitorDescriptor| m@)
}

impl MonitorDescriptor {
    pub fn new(name: String, position_x: i32, position_y: i32, width: u32, height: u32) -> (r: Self)
        ensures
            r@ == (MonitorView {
                name: name@,
                x: position_x,
                y: position_y,
                width: if width < 1 {
                    1
                } else {
                    width
                },
                height: if height < 1 {
                    1
                } else {
                    height
                },
            }),
    {
        Self {
            name,
            position_x,
            position_y,
            width: if width < 1 {
                1
            } else {
                width
            },
            height: if height < 1 {
                1
            } else {
                height
            },
        }
    }

    pub fn name(&self) -> (r: &str)
        ensures
            r@ == self@.name,
    {
        self.name.as_str()
    }

    pub fn position_x(&self) -> (r: i32)
        ensures
            r == self@.x,
    {
        self.position_x
    }

    pub fn position_y(&self) -> (r: i32)
        ensures
            r == self@.y,
    {
        self.position_y
    }

    pub fn width(&self) -> (r: u32)
        ensures
            r == self@.width,
    {
        self.width
    }

    pub fn height(&self) -> (r: u32)
        ensures
            r == self@.height,
    {
        self.height
    }

    fn copy(&self) -> (r: Self)
        ensures
            r@ == self@,
    {
        Self {
            name: self.name.clone(),
            position_x: self.position_x,
            position_y: self.position_y,
            width: self.width,
            height: self.height,
        }
    }

    fn set_name(&mut self, name: String)
        ensures
            final(self)@ == (MonitorView { name: name@, ..old(self)@ }),
    {
        self.name = name;
    }
}

/// `a` sorts strictly before `b`: by left edge, then top edge, then name.
pub open spec fn monitor_before(a: MonitorView, b: MonitorView) -> bool {
    ||| a.x < b.x
    ||| a.x == b.x && a.y < b.y
    ||| a.x == b.x && a.y == b.y && seq_lt(a.name, b.name)
}

/// No monitor sorts before one that precedes it.
pub open spec fn monitors_sorted(s: Seq<MonitorView>) -> bool {
    forall|i: int, j: int| 0 <= i < j < s.len() ==> !monitor_before(#[trigger] s[j], #[trigger] s[i])
}

/// `e` placed into `s` before the first monitor that it sorts before.
pub open spec fn insert_monitor(s: Seq<MonitorView>, e: MonitorView) -> Seq<MonitorView>
    decreases s.len(),
{
    if s.len() == 0 {
        seq![e]
    } else if monitor_before(e, s[0]) {
        seq![e] + s
    } else {
        seq![s[0]] + insert_monitor(s.drop_first(), e)
    }
}

/// Monitors sorted by position, then name, keeping the given order among equal ones (as a
/// stable sort does).
pub open spec fn sort_monitors(s: Seq<MonitorView>) -> Seq<MonitorView>
    decreases s.len(),
{
    if s.len() == 0 {
        s
    } else {
        insert_monitor(sort_monitors(s.drop_last()), s.last())
    }
}

proof fn lemma_before_irreflexive(a: MonitorView)
    ensures
        !monitor_before(a, a),
{
    lemma_seq_order_basics(a.name, a.name);
}

proof fn lemma_before_transitive(a: MonitorView, b: MonitorView, c: MonitorView)
    requires
        monitor_before(a, b),
        monitor_before(b, c),
    ensures
        monitor_before(a, c),
{
    if a.x == b.x && b.x == c.x && a.y == b.y && b.y == c.y {
        lemma_seq_lt_transitive(a.name, b.name, c.name);
    }
}

proof fn lemma_insert_monitor_at(s: Seq<MonitorView>, e: MonitorView, p: int)
    requires
        0 <= p <= s.len(),
        forall|k: int| 0 <= k < p ==> !monitor_before(e, #[trigger] s[k]),
        p < s.len() ==> monitor_before(e, s[p]),
    ensures
        insert_monitor(s, e) == s.insert(p, e),
    decreases s.len(),
{
    if s.len() == 0 {
        assert(s.insert(p, e) =~= seq![e]);
    } else if p == 0 {
        assert(s.insert(0, e) =~= seq![e] + s);
    } else {
        assert forall|k: int| 0 <= k < p - 1 implies !monitor_before(e, #[trigger] s.drop_first()[k]) by {
            assert(s.drop_first()[k] == s[k + 1]);
        }
        lemma_insert_monitor_at(s.drop_first(), e, p - 1);
        assert(seq![s[0]] + s.drop_first().insert(p - 1, e) =~= s.insert(p, e));
    }
}

proof fn lemma_insert_monitor_sorted(s: Seq<MonitorView>, e: MonitorView, p: int)
    requires
        monitors_sorted(s),
        0 <= p <= s.len(),
        forall|k: int| 0 <= k < p ==> !monitor_before(e, #[trigger] s[k]),
        p < s.len() ==> monitor_before(e, s[p]),
    ensures
        monitors_sorted(s.insert(p, e)),
        s.insert(p, e).to_multiset() == s.to_multiset().insert(e),
{
    let t = s.insert(p, e);
    assert forall|i: int, j: int| 0 <= i < j < t.len() implies !monitor_before(#[trigger] t[j], #[trigger] t[i]) by {
        if j < p {
            assert(t[i] == s[i] && t[j] == s[j]);
        } else if j == p {
            assert(t[i] == s[i]);
        } else if i == p {
            assert(t[j] == s[j - 1]);
            if monitor_before(s[j - 1], e) {
                lemma_before_transitive(s[j - 1], e, s[p]);
                if j - 1 == p {
                    lemma_before_irreflexive(s[p]);
                }
            }
        } else if i < p {
            assert(t[i] == s[i] && t[j] == s[j - 1]);
        } else {
            assert(t[i] == s[i - 1] && t[j] == s[j - 1]);
        }
    }
    vstd::seq_lib::to_multiset_insert(s, p, e);
}

/// Index of the first monitor of `s` that `e` sorts before (`s.len()` when none).
pub open spec fn insert_position(s: Seq<MonitorView>, e: MonitorView) -> int
    decreases s.len(),
{
    if s.len() == 0 {
        0
    } else if monitor_before(e, s[0]) {
        0
    } else {
        1 + insert_position(s.drop_first(), e)
    }
}

proof fn lemma_insert_position(s: Seq<MonitorView>, e: MonitorView)
    ensures
        0 <= insert_position(s, e) <= s.len(),
        forall|k: int| 0 <= k < insert_position(s, e) ==> !monitor_before(e, #[trigger] s[k]),
        insert_position(s, e) < s.len() ==> monitor_before(e, s[insert_position(s, e)]),
    decreases s.len(),
{
    if s.len() > 0 && !monitor_before(e, s[0]) {
        lemma_insert_position(s.drop_first(), e);
        assert forall|k: int| 0 <= k < insert_position(s, e) implies !monitor_before(e, #[trigger] s[k]) by {
            if k > 0 {
                assert(s[k] == s.drop_first()[k - 1]);
            }
        }
    }
}

/// Sorting leaves a sorted arrangement of the same monitors.
pub proof fn lemma_sort_monitors(s: Seq<MonitorView>)
    ensures
        monitors_sorted(sort_monitors(s)),
        sort_monitors(s).to_multiset() == s.to_multiset(),
        sort_monitors(s).len() == s.len(),
    decreases s.len(),
{
    if s.len() > 0 {
        let prev = sort_monitors(s.drop_last());
        lemma_sort_monitors(s.drop_last());
        let e = s.last();
        let p = insert_position(prev, e);
        lemma_insert_position(prev, e);
        lemma_insert_monitor_at(prev, e, p);
        lemma_insert_monitor_sorted(prev, e, p);
        assert(s =~= s.drop_last().push(e));
        vstd::seq_lib::to_multiset_build(s.drop_last(), e);
    }
}

fn monitor_before_exec(a: &MonitorDescriptor, b: &MonitorDescriptor) -> (r: bool)
    ensures
        r == monitor_before(a@, b@),
{
    if a.position_x < b.position_x {
        true
    } else if a.position_x > b.position_x {
        false
    } else if a.position_y < b.position_y {
        true
    } else if a.position_y > b.position_y {
        false
    } else {
        compare_str(a.name.as_str(), b.name.as_str()) < 0
    }
}

fn sort_monitor_descriptors(monitors: Vec<MonitorDescriptor>) -> (r: Vec<MonitorDescriptor>)
    ensures
        views(r@) == sort_monitors(views(monitors@)),
{
    let mut out: Vec<MonitorDescriptor> = Vec::new();
    let n = monitors.len();
    for i in 0..n
        invariant
            n == monitors@.len(),
            views(out@) == sort_monitors(views(monitors@).take(i as int)),
    {
        let e = monitors[i].copy();
        let ghost sv = views(out@);
        let mut p: usize = 0;
        while p < out.len() && !monitor_before_exec(&e, &out[p])
            invariant
                p <= out@.len(),
                sv == views(out@),
                forall|k: int| 0 <= k < p ==> !monitor_before(e@, #[trigger] sv[k]),
            decreases out@.len() - p,
        {
            p = p + 1;
        }
        out.insert(p, e);
        proof {
            lemma_insert_monitor_at(sv, e@, p as int);
            assert(views(out@) =~= sv.insert(p as int, e@));
            let t = views(monitors@).take(i + 1);
            assert(t.drop_last() =~= views(monitors@).take(i as int));
            assert(t.last() == e@);
        }
    }
    assert(views(monitors@).take(n as int) =~= views(monitors@));
    out
}

/// Monitors sorted, then the nameless ones named `Monitor N` by their 1-based place.
pub open spec fn name_monitors(s: Seq<MonitorView>) -> Seq<MonitorView> {
    Seq::new(
        s.len(),
        |i: int|
            if trim_seq(s[i].name).len() == 0 {
                MonitorView { name: "Monitor "@ + decimal_seq((i + 1) as nat), ..s[i] }
            } else {
                s[i]
            },
    )
}

pub open spec fn normalize_monitors_spec(s: Seq<MonitorView>) -> Seq<MonitorView> {
    name_monitors(sort_monitors(s))
}

fn monitor_label(idx: usize) -> (r: String)
    requires
        idx < usize::MAX,
    ensures
        r@ == "Monitor "@ + decimal_seq((idx + 1) as nat),
{
    let mut v = crate::text::chars_of("Monitor ");
    push_decimal(&mut v, (idx + 1) as u64);
    string_from_chars(&v)
}

/// Sorts monitors by position and name, and names each unnamed one `Monitor N`.
pub fn normalize_monitor_descriptors(monitors: Vec<MonitorDescriptor>) -> (r: Vec<MonitorDescriptor>)
    ensures
        views(r@) == normalize_monitors_spec(views(monitors@)),
{
    let sorted = sort_monitor_descriptors(monitors);
    let ghost sv = views(sorted@);
    let mut out: Vec<MonitorDescriptor> = Vec::new();
    let n = sorted.len();
    for idx in 0..n
        invariant
            n == sorted@.len(),
            sv == views(sorted@),
            views(out@) == name_monitors(sv).take(idx as int),
    {
        let ghost before = views(out@);
        let mut m = sorted[idx].copy();
        let t = trimmed_chars(m.name.as_str());
        if t.len() == 0 {
            let label = monitor_label(idx);
            m.set_name(label);
        }
        assert(m@ == name_monitors(sv)[idx as int]);
        out.push(m);
        assert(views(out@) =~= before.push(m@));
        assert(name_monitors(sv).take(idx + 1) =~= name_monitors(sv).take(idx as int).push(name_monitors(sv)[idx as int]));
    }
    assert(name_monitors(sv).take(n as int) =~= name_monitors(sv));
    out
}


/// First index from `k` of a named monitor not yet used whose corner is `(x, y)`
/// (`named.len()` when there is none).
pub open spec fn find_same_position(named: Seq<MonitorView>, used: Seq<bool>, x: i32, y: i32, k: int) -> int
    decreases named.len() - k,
{
    if k < 0 || k >= named.len() {
        named.len() as int
    } else if !used[k] && named[k].x == x && named[k].y == y {
        k
    } else {
        find_same_position(named, used, x, y, k + 1)
    }
}

/// First index from `k` of a named monitor not yet used that has a name.
pub open spec fn find_unused_named(named: Seq<MonitorView>, used: Seq<bool>, k: int) -> int
    decreases named.len() - k,
{
    if k < 0 || k >= named.len() {
        named.len() as int
    } else if !used[k] && trim_seq(named[k].name).len() > 0 {
        k
    } else {
        find_unused_named(named, used, k + 1)
    }
}

/// Matching state: runtime monitors, which of them got a name, which named monitors are used.
pub struct MatchState {
    pub runtime: Seq<MonitorView>,
    pub runtime_named: Seq<bool>,
    pub named_used: Seq<bool>,
}

/// Runtime monitor `ri` takes the name of the first unused named monitor at its corner.
pub open spec fn match_by_position(st: MatchState, named: Seq<MonitorView>, ri: int) -> MatchState {
    let m = st.runtime[ri];
    let k = find_same_position(named, st.named_used, m.x, m.y, 0);
    if k >= named.len() {
        st
    } else if trim_seq(named[k].name).len() > 0 {
        MatchState {
            runtime: st.runtime.update(ri, MonitorView { name: named[k].name, ..m }),
            runtime_named: st.runtime_named.update(ri, true),
            named_used: st.named_used.update(k, true),
        }
    } else {
        MatchState { named_used: st.named_used.update(k, true), ..st }
    }
}

/// Runtime monitor `ri`, still unnamed, takes the name of the first unused named monitor.
pub open spec fn match_by_order(st: MatchState, named: Seq<MonitorView>, ri: int) -> MatchState {
    if st.runtime_named[ri] {
        st
    } else {
        let k = find_unused_named(named, st.named_used, 0);
        if k >= named.len() {
            st
        } else {
            MatchState {
                runtime: st.runtime.update(ri, MonitorView { name: named[k].name, ..st.runtime[ri] }),
                named_used: st.named_used.update(k, true),
                ..st
            }
        }
    }
}

pub open spec fn initial_match(runtime: Seq<MonitorView>, named: Seq<MonitorView>) -> MatchState {
    MatchState {
        runtime,
        runtime_named: Seq::new(runtime.len(), |i: int| false),
        named_used: Seq::new(named.len(), |i: int| false),
    }
}

/// The first `i` runtime monitors matched by position.
pub open spec fn position_pass(runtime: Seq<MonitorView>, named: Seq<MonitorView>, i: int) -> MatchState
    decreases i,
{
    if i <= 0 {
        initial_match(runtime, named)
    } else {
        match_by_position(position_pass(runtime, named, i - 1), named, i - 1)
    }
}

/// After `st`, the first `i` runtime monitors matched by order.
pub open spec fn order_pass(st: MatchState, named: Seq<MonitorView>, i: int) -> MatchState
    decreases i,
{
    if i <= 0 {
        st
    } else {
        match_by_order(order_pass(st, named, i - 1), named, i - 1)
    }
}

/// Monitors as the windowing runtime reports them, named after the monitors that the system
/// lists with names: first by matching corners, then (when both lists are equally long) in
/// order for those still unnamed; then sorted and numbered like any list.
pub open spec fn resolve_monitors_spec(runtime: Seq<MonitorView>, named: Seq<MonitorView>) -> Seq<MonitorView> {
    let rt = sort_monitors(runtime);
    let nm = sort_monitors(named);
    if rt.len() == 0 {
        normalize_monitors_spec(nm)
    } else if nm.len() == 0 {
        normalize_monitors_spec(rt)
    } else {
        let first = position_pass(rt, nm, rt.len() as int);
        let second = if rt.len() == nm.len() {
            order_pass(first, nm, rt.len() as int)
        } else {
            first
        };
        normalize_monitors_spec(second.runtime)
    }
}

proof fn lemma_position_pass_lengths(runtime: Seq<MonitorView>, named: Seq<MonitorView>, i: int)
    requires
        0 <= i <= runtime.len(),
    ensures
        position_pass(runtime, named, i).runtime.len() == runtime.len(),
        position_pass(runtime, named, i).runtime_named.len() == runtime.len(),
        position_pass(runtime, named, i).named_used.len() == named.len(),
    decreases i,
{
    if i > 0 {
        lemma_position_pass_lengths(runtime, named, i - 1);
        lemma_find_same_position_range(named, position_pass(runtime, named, i - 1).named_used,
            position_pass(runtime, named, i - 1).runtime[i - 1].x, position_pass(runtime, named, i - 1).runtime[i - 1].y, 0);
    }
}

proof fn lemma_order_pass_lengths(st: MatchState, named: Seq<MonitorView>, i: int)
    requires
        0 <= i <= st.runtime.len(),
        st.runtime_named.len() == st.runtime.len(),
        st.named_used.len() == named.len(),
    ensures
        order_pass(st, named, i).runtime.len() == st.runtime.len(),
        order_pass(st, named, i).runtime_named.len() == st.runtime.len(),
        order_pass(st, named, i).named_used.len() == named.len(),
    decreases i,
{
    if i > 0 {
        lemma_order_pass_lengths(st, named, i - 1);
        lemma_find_unused_named_range(named, order_pass(st, named, i - 1).named_used, 0);
    }
}

proof fn lemma_find_same_position_range(named: Seq<MonitorView>, used: Seq<bool>, x: i32, y: i32, k: int)
    ensures
        0 <= find_same_position(named, used, x, y, k) <= named.len(),
    decreases named.len() - k,
{
    if 0 <= k < named.len() {
        lemma_find_same_position_range(named, used, x, y, k + 1);
    }
}

proof fn lemma_find_unused_named_range(named: Seq<MonitorView>, used: Seq<bool>, k: int)
    ensures
        0 <= find_unused_named(named, used, k) <= named.len(),
    decreases named.len() - k,
{
    if 0 <= k < named.len() {
        lemma_find_unused_named_range(named, used, k + 1);
    }
}

/// Index in `named` of the first unused monitor at `(x, y)`.
fn find_same_position_exec(named: &Vec<MonitorDescriptor>, used: &Vec<bool>, x: i32, y: i32) -> (r: usize)
    requires
        used@.len() == named@.len(),
    ensures
        r as int == find_same_position(views(named@), used@, x, y, 0),
{
    let ghost nv = views(named@);
    let mut k: usize = 0;
    while k < named.len()
        invariant
            k <= named@.len(),
            nv == views(named@),
            used@.len() == named@.len(),
            find_same_position(nv, used@, x, y, 0) == find_same_position(nv, used@, x, y, k as int),
        decreases named@.len() - k,
    {
        if !used[k] && named[k].position_x == x && named[k].position_y == y {
            return k;
        }
        k = k + 1;
    }
    k
}

/// Index in `named` of the first unused monitor with a name.
fn find_unused_named_exec(named: &Vec<MonitorDescriptor>, used: &Vec<bool>) -> (r: usize)
    requires
        used@.len() == named@.len(),
    ensures
        r as int == find_unused_named(views(named@), used@, 0),
{
    let ghost nv = views(named@);
    let mut k: usize = 0;
    while k < named.len()
        invariant
            k <= named@.len(),
            nv == views(named@),
            used@.len() == named@.len(),
            find_unused_named(nv, used@, 0) == find_unused_named(nv, used@, k as int),
        decreases named@.len() - k,
    {
        let t = trimmed_chars(named[k].name.as_str());
        if !used[k] && t.len() > 0 {
            return k;
        }
        k = k + 1;
    }
    k
}

fn false_flags(n: usize) -> (r: Vec<bool>)
    ensures
        r@ == Seq::new(n as nat, |i: int| false),
{
    let mut r: Vec<bool> = Vec::new();
    for i in 0..n
        invariant
            r@ == Seq::new(i as nat, |j: int| false),
    {
        r.push(false);
        assert(r@ =~= Seq::new((i + 1) as nat, |j: int| false));
    }
    r
}

/// Names the monitors that the windowing runtime reports after those that the system lists
/// (see [`resolve_monitors_spec`]).
pub fn resolve_monitor_descriptors(
    runtime_monitors: Vec<MonitorDescriptor>,
    named_monitors: Vec<MonitorDescriptor>,
) -> (r: Vec<MonitorDescriptor>)
    ensures
        views(r@) == resolve_monitors_spec(views(runtime_monitors@), views(named_monitors@)),
{
    let ghost rt0 = views(runtime_monitors@);
    let ghost nm0 = views(named_monitors@);
    let mut runtime = sort_monitor_descriptors(runtime_monitors);
    let named = sort_monitor_descriptors(named_monitors);
    proof {
        lemma_sort_monitors(rt0);
        lemma_sort_monitors(nm0);
    }
    if runtime.len() == 0 {
        return normalize_monitor_descriptors(named);
    }
    if named.len() == 0 {
        return normalize_monitor_descriptors(runtime);
    }
    let ghost rt = views(runtime@);
    let ghost nm = views(named@);
    let n = runtime.len();
    let mut runtime_named = false_flags(n);
    let mut named_used = false_flags(named.len());
    for ri in 0..n
        invariant
            n == runtime@.len(),
            rt == sort_monitors(rt0),
            nm == views(named@),
            rt.len() == n,
            named_used@.len() == named@.len(),
            runtime_named@.len() == n,
            position_pass(rt, nm, ri as int) == (MatchState {
                runtime: views(runtime@),
                runtime_named: runtime_named@,
                named_used: named_used@,
            }),
    {
        proof {
            lemma_position_pass_lengths(rt, nm, ri as int);
        }
        let ghost st = position_pass(rt, nm, ri as int);
        let x = runtime[ri].position_x;
        let y = runtime[ri].position_y;
        let k = find_same_position_exec(&named, &named_used, x, y);
        if k < named.len() {
            let t = trimmed_chars(named[k].name.as_str());
            if t.len() > 0 {
                let name = named[k].name.clone();
                let mut m = runtime[ri].copy();
                m.set_name(name);
                runtime.set(ri, m);
                runtime_named.set(ri, true);
            }
            named_used.set(k, true);
        }
        proof {
            let next = match_by_position(st, nm, ri as int);
            assert(views(runtime@) =~= next.runtime);
            assert(runtime_named@ =~= next.runtime_named);
            assert(named_used@ =~= next.named_used);
        }
    }
    let ghost first = position_pass(rt, nm, n as int);
    if n == named.len() {
        for ri in 0..n
            invariant
                n == runtime@.len(),
                n == named@.len(),
                nm == views(named@),
                named_used@.len() == named@.len(),
                runtime_named@.len() == n,
                first.runtime_named.len() == n,
                first.named_used.len() == n,
                first.runtime.len() == n,
                order_pass(first, nm, ri as int) == (MatchState {
                    runtime: views(runtime@),
                    runtime_named: runtime_named@,
                    named_used: named_used@,
                }),
        {
            proof {
                lemma_order_pass_lengths(first, nm, ri as int);
            }
            let ghost st = order_pass(first, nm, ri as int);
            if !runtime_named[ri] {
                let k = find_unused_named_exec(&named, &named_used);
                if k < named.len() {
                    let name = named[k].name.clone();
                    let mut m = runtime[ri].copy();
                    m.set_name(name);
                    runtime.set(ri, m);
                    named_used.set(k, true);
                }
            }
            proof {
                let next = match_by_order(st, nm, ri as int);
                assert(views(runtime@) =~= next.runtime);
                assert(runtime_named@ =~= next.runtime_named);
                assert(named_used@ =~= next.named_used);
            }
        }
    }
    normalize_monitor_descriptors(runtime)
}


/// 0-based index of the requested 1-based monitor (0 counts as 1), at most the last one;
/// nothing when there are no monitors.
pub open spec fn selected_monitor_spec(requested_monitor: usize, monitor_count: usize) -> Option<usize> {
    if monitor_count == 0 {
        None
    } else if requested_monitor <= 1 {
        Some(0)
    } else if requested_monitor - 1 < monitor_count - 1 {
        Some((requested_monitor - 1) as usize)
    } else {
        Some((monitor_count - 1) as usize)
    }
}

pub fn selected_monitor_index(requested_monitor: usize, monitor_count: usize) -> (r: Option<usize>)
    ensures
        r == selected_monitor_spec(requested_monitor, monitor_count),
{
    if monitor_count == 0 {
        return None;
    }
    let requested = if requested_monitor < 1 {
        1
    } else {
        requested_monitor
    };
    let index = requested - 1;
    Some(
        if index < monitor_count - 1 {
            index
        } else {
            monitor_count - 1
        },
    )
}

pub fn selected_monitor_descriptor(monitors: &[MonitorDescriptor], requested_monitor: usize) -> (r: Option<&MonitorDescriptor>)
    ensures
        match selected_monitor_spec(requested_monitor, monitors@.len() as usize) {
            Some(i) => r matches Some(m) && *m == monitors@[i as int],
            None => r is None,
        },
{
    match selected_monitor_index(requested_monitor, monitors.len()) {
        Some(i) => Some(&monitors[i]),
        None => None,
    }
}

/// The picker label of the monitor at 0-based place `i`: `N - name`.
pub open spec fn monitor_catalog_label(i: int, name: Seq<char>) -> Seq<char> {
    decimal_seq((i + 1) as nat) + " - "@ + name
}

/// One picker entry per monitor, numbered from 1.
pub fn monitor_catalog_from_descriptors(monitors: &[MonitorDescriptor]) -> (r: Vec<MonitorOption>)
    ensures
        r@.len() == monitors@.len(),
        forall|i: int|
            0 <= i < r@.len() ==> (#[trigger] r@[i]).index == i + 1 && r@[i].label@
                == monitor_catalog_label(i, monitors@[i]@.name),
{
    let mut r: Vec<MonitorOption> = Vec::new();
    let n = monitors.len();
    for idx in 0..n
        invariant
            n == monitors@.len(),
            r@.len() == idx,
            forall|i: int|
                0 <= i < idx ==> (#[trigger] r@[i]).index == i + 1 && r@[i].label@
                    == monitor_catalog_label(i, monitors@[i]@.name),
    {
        let mut v: Vec<char> = Vec::new();
        push_decimal(&mut v, (idx + 1) as u64);
        let sep = crate::text::chars_of(" - ");
        let name = crate::text::chars_of(monitors[idx].name());
        let ghost head = v@;
        for k in 0..sep.len()
            invariant
                v@ == head + sep@.subrange(0, k as int),
        {
            v.push(sep[k]);
            assert(v@ =~= head + sep@.subrange(0, k + 1));
        }
        assert(sep@.subrange(0, sep@.len() as int) =~= sep@);
        let ghost mid = v@;
        for k in 0..name.len()
            invariant
                v@ == mid + name@.subrange(0, k as int),
        {
            v.push(name[k]);
            assert(v@ =~= mid + name@.subrange(0, k + 1));
        }
        assert(name@.subrange(0, name@.len() as int) =~= name@);
        let label = string_from_chars(&v);
        r.push(MonitorOption { index: idx + 1, label });
    }
    r
}

/// Where a monitor is and how large it is, without its name.
pub open spec fn geometry(m: MonitorView) -> (i32, i32, u32, u32) {
    (m.x, m.y, m.width, m.height)
}

pub open spec fn geometries(s: Seq<MonitorView>) -> Seq<(i32, i32, u32, u32)> {
    s.map_values(|m: MonitorView| geometry(m))
}

proof fn lemma_sort_keeps_geometries(s: Seq<MonitorView>)
    ensures
        geometries(sort_monitors(s)).to_multiset() == geometries(s).to_multiset(),
    decreases s.len(),
{
    if s.len() > 0 {
        let prev = sort_monitors(s.drop_last());
        lemma_sort_monitors(s.drop_last());
        lemma_sort_keeps_geometries(s.drop_last());
        let e = s.last();
        let p = insert_position(prev, e);
        lemma_insert_position(prev, e);
        lemma_insert_monitor_at(prev, e, p);
        assert(geometries(prev.insert(p, e)) =~= geometries(prev).insert(p, geometry(e)));
        vstd::seq_lib::to_multiset_insert(geometries(prev), p, geometry(e));
        assert(geometries(s) =~= geometries(s.drop_last()).push(geometry(e)));
        vstd::seq_lib::to_multiset_build(geometries(s.drop_last()), geometry(e));
    }
}

proof fn lemma_sort_sorted_fixed(s: Seq<MonitorView>)
    requires
        monitors_sorted(s),
    ensures
        sort_monitors(s) == s,
    decreases s.len(),
{
    if s.len() > 0 {
        let d = s.drop_last();
        assert(monitors_sorted(d)) by {
            assert forall|i: int, j: int| 0 <= i < j < d.len() implies !monitor_before(#[trigger] d[j], #[trigger] d[i]) by {
                assert(d[i] == s[i] && d[j] == s[j]);
            }
        }
        lemma_sort_sorted_fixed(d);
        let e = s.last();
        assert forall|k: int| 0 <= k < d.len() implies !monitor_before(e, #[trigger] d[k]) by {
            assert(d[k] == s[k]);
        }
        lemma_insert_monitor_at(d, e, d.len() as int);
        assert(d.insert(d.len() as int, e) =~= s);
    }
}

proof fn lemma_position_pass_geometries(runtime: Seq<MonitorView>, named: Seq<MonitorView>, i: int)
    requires
        0 <= i <= runtime.len(),
    ensures
        geometries(position_pass(runtime, named, i).runtime) == geometries(runtime),
    decreases i,
{
    lemma_position_pass_lengths(runtime, named, i);
    if i > 0 {
        lemma_position_pass_geometries(runtime, named, i - 1);
        lemma_position_pass_lengths(runtime, named, i - 1);
        let st = position_pass(runtime, named, i - 1);
        assert(geometries(position_pass(runtime, named, i).runtime) =~= geometries(st.runtime));
    }
}

proof fn lemma_order_pass_geometries(st: MatchState, named: Seq<MonitorView>, i: int)
    requires
        0 <= i <= st.runtime.len(),
        st.runtime_named.len() == st.runtime.len(),
        st.named_used.len() == named.len(),
    ensures
        geometries(order_pass(st, named, i).runtime) == geometries(st.runtime),
    decreases i,
{
    lemma_order_pass_lengths(st, named, i);
    if i > 0 {
        lemma_order_pass_geometries(st, named, i - 1);
        lemma_order_pass_lengths(st, named, i - 1);
        let s0 = order_pass(st, named, i - 1);
        assert(geometries(order_pass(st, named, i).runtime) =~= geometries(s0.runtime));
    }
}

proof fn lemma_name_monitors(s: Seq<MonitorView>)
    ensures
        geometries(name_monitors(s)) == geometries(s),
        forall|i: int| 0 <= i < s.len() ==> trim_seq(#[trigger] name_monitors(s)[i].name).len() > 0,
{
    assert(geometries(name_monitors(s)) =~= geometries(s));
    reveal_strlit("Monitor ");
    assert forall|i: int| 0 <= i < s.len() implies trim_seq(#[trigger] name_monitors(s)[i].name).len() > 0 by {
        if trim_seq(s[i].name).len() == 0 {
            let n = "Monitor "@ + decimal_seq((i + 1) as nat);
            assert(n[0] == 'M');
            lemma_not_blank(n);
        }
    }
}

/// Resolving monitors gives: with no runtime monitors, the named ones normalized; with
/// runtime monitors but no named ones, the runtime ones normalized; with both, as many
/// monitors as the runtime reports, at the same corners and of the same sizes. Every
/// resolved monitor has a name that is not blank.
pub proof fn law_resolved_monitors(runtime: Seq<MonitorView>, named: Seq<MonitorView>)
    ensures
        runtime.len() == 0 ==> resolve_monitors_spec(runtime, named) == normalize_monitors_spec(named),
        runtime.len() > 0 && named.len() == 0 ==> resolve_monitors_spec(runtime, named)
            == normalize_monitors_spec(runtime),
        runtime.len() > 0 ==> resolve_monitors_spec(runtime, named).len() == runtime.len(),
        runtime.len() > 0 ==> geometries(resolve_monitors_spec(runtime, named)).to_multiset()
            == geometries(runtime).to_multiset(),
        forall|i: int|
            0 <= i < resolve_monitors_spec(runtime, named).len() ==> trim_seq(
                #[trigger] resolve_monitors_spec(runtime, named)[i].name,
            ).len() > 0,
{
    let rt = sort_monitors(runtime);
    let nm = sort_monitors(named);
    lemma_sort_monitors(runtime);
    lemma_sort_monitors(named);
    lemma_sort_sorted_fixed(rt);
    lemma_sort_sorted_fixed(nm);
    lemma_sort_keeps_geometries(runtime);
    let r = resolve_monitors_spec(runtime, named);
    if rt.len() == 0 {
        lemma_name_monitors(sort_monitors(nm));
    } else if nm.len() == 0 {
        lemma_name_monitors(sort_monitors(rt));
    } else {
        let first = position_pass(rt, nm, rt.len() as int);
        lemma_position_pass_lengths(rt, nm, rt.len() as int);
        lemma_position_pass_geometries(rt, nm, rt.len() as int);
        let second = if rt.len() == nm.len() {
            order_pass(first, nm, rt.len() as int)
        } else {
            first
        };
        if rt.len() == nm.len() {
            lemma_order_pass_lengths(first, nm, rt.len() as int);
            lemma_order_pass_geometries(first, nm, rt.len() as int);
        }
        assert(geometries(second.runtime) == geometries(rt));
        lemma_sort_monitors(second.runtime);
        lemma_sort_keeps_geometries(second.runtime);
        lemma_name_monitors(sort_monitors(second.runtime));
        assert(second.runtime.len() == geometries(second.runtime).len());
    }
}

} // verus!
