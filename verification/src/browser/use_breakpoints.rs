use vstd::prelude::*;

verus! {

/// Which breakpoints are active for the current window width.
#[derive(Clone, Debug, PartialEq)]
pub struct Breakpoints {
    /// Custom breakpoints, each name once, with whether it is active
    pub custom: Vec<(String, bool)>,
    /// Extra small screens (default: < 576px)
    pub xs: bool,
    /// Small screens (default: >= 576px)
    pub sm: bool,
    /// Medium screens (default: >= 768px)
    pub md: bool,
    /// Large screens (default: >= 992px)
    pub lg: bool,
    /// Extra large screens (default: >= 1200px)
    pub xl: bool,
    /// Extra extra large screens (default: >= 1400px)
    pub xxl: bool,
}

impl Default for Breakpoints {
    fn default() -> (b: Self)
        ensures
            b.custom@.len() == 0,
            !b.xs && !b.sm && !b.md && !b.lg && !b.xl && !b.xxl,
    {
        Breakpoints { custom: Vec::new(), xs: false, sm: false, md: false, lg: false, xl: false, xxl: false }
    }
}

/// Breakpoint thresholds in pixels.
#[derive(Clone, Debug, PartialEq)]
pub struct UseBreakpointsOptions {
    /// Lower bound of the extra small range (`None`: no lower bound)
    pub xs: Option<i32>,
    /// Small screen breakpoint in pixels
    pub sm: i32,
    /// Medium screen breakpoint in pixels
    pub md: i32,
    /// Large screen breakpoint in pixels
    pub lg: i32,
    /// Extra large screen breakpoint in pixels
    pub xl: i32,
    /// Extra extra large screen breakpoint in pixels
    pub xxl: i32,
    /// Custom breakpoints: names with their pixel values, taken as inserts
    /// into a map, so that a later entry for a name replaces an earlier one
    pub custom: Vec<(String, i32)>,
}

impl Default for UseBreakpointsOptions {
    fn default() -> (o: Self)
        ensures
            o.xs is None,
            o.sm == 576,
            o.md == 768,
            o.lg == 992,
            o.xl == 1200,
            o.xxl == 1400,
            o.custom@.len() == 0,
    {
        UseBreakpointsOptions { xs: None, sm: 576, md: 768, lg: 992, xl: 1200, xxl: 1400, custom: Vec::new() }
    }
}

/// Whether the extra small range holds `width`.
pub open spec fn spec_xs(o: UseBreakpointsOptions, width: i32) -> bool {
    match o.xs {
        Some(x) => width >= x && width < o.sm,
        None => width < o.sm,
    }
}

/// Whether no name occurs twice among the named entries of `entries`.
pub open spec fn names_unique<V>(entries: Seq<(String, V)>) -> bool {
    forall|i: int, j: int| 0 <= i < entries.len() && 0 <= j < entries.len() && i != j
        ==> (#[trigger] entries[i]).0@ != (#[trigger] entries[j]).0@
}

/// The custom breakpoints at a window `width` pixels wide, as a map from name
/// to whether it is active: the entries are inserted in order, so the last
/// entry for a name decides.
pub open spec fn custom_active(custom: Seq<(String, i32)>, width: i32) -> Map<Seq<char>, bool>
    decreases custom.len(),
{
    if custom.len() == 0 {
        Map::empty()
    } else {
        custom_active(custom.drop_last(), width).insert(custom.last().0@, width >= custom.last().1)
    }
}

/// Whether `entries` lists the map `m`: each key of `m` once, with its value,
/// and nothing else.
pub open spec fn lists_map(entries: Seq<(String, bool)>, m: Map<Seq<char>, bool>) -> bool {
    &&& names_unique(entries)
    &&& forall|i: int| 0 <= i < entries.len()
        ==> m.contains_key((#[trigger] entries[i]).0@) && m[entries[i].0@] == entries[i].1
    &&& forall|k: Seq<char>| #[trigger] m.contains_key(k)
        ==> exists|i: int| 0 <= i < entries.len() && (#[trigger] entries[i]).0@ == k
}

/// Whether `b` is the breakpoint state for a window `width` pixels wide under `o`.
pub open spec fn breakpoints_match(b: Breakpoints, o: UseBreakpointsOptions, width: i32) -> bool {
    &&& b.xs == spec_xs(o, width)
    &&& b.sm == (width >= o.sm && width < o.md)
    &&& b.md == (width >= o.md && width < o.lg)
    &&& b.lg == (width >= o.lg && width < o.xl)
    &&& b.xl == (width >= o.xl && width < o.xxl)
    &&& b.xxl == (width >= o.xxl)
    &&& lists_map(b.custom@, custom_active(o.custom@, width))
}

/// The position of the entry named `name` in `entries`, or `None`.
fn find_name(entries: &Vec<(String, bool)>, name: &String) -> (idx: Option<usize>)
    ensures
        match idx {
            Some(j) => j < entries@.len() && entries@[j as int].0@ == name@,
            None => forall|j: int| 0 <= j < entries@.len() ==> (#[trigger] entries@[j]).0@ != name@,
        },
{
    let n = entries.len();
    for i in 0..n
        invariant
            n == entries@.len(),
            forall|j: int| 0 <= j < i ==> (#[trigger] entries@[j]).0@ != name@,
    {
        if entries[i].0 == *name {
            return Some(i);
        }
    }
    None
}

/// Inserting `(name, active)` into a listing of `m` gives a listing of
/// `m.insert(name@, active)`.
fn insert_entry(entries: &mut Vec<(String, bool)>, name: String, active: bool, Ghost(m): Ghost<Map<Seq<char>, bool>>)
    requires
        lists_map(old(entries)@, m),
    ensures
        lists_map(final(entries)@, m.insert(name@, active)),
{
    let ghost m2 = m.insert(name@, active);
    match find_name(entries, &name) {
        Some(j) => {
            let ghost before = entries@;
            entries.set(j, (name, active));
            assert forall|i: int| 0 <= i < entries@.len() implies
                m2.contains_key((#[trigger] entries@[i]).0@) && m2[entries@[i].0@] == entries@[i].1 by {
                if i != j {
                    assert(before[i].0@ != before[j as int].0@);
                }
            }
            assert forall|k: Seq<char>| #[trigger] m2.contains_key(k)
                implies exists|i: int| 0 <= i < entries@.len() && (#[trigger] entries@[i]).0@ == k by {
                if k == name@ {
                    assert(entries@[j as int].0@ == k);
                } else {
                    assert(m.contains_key(k));
                    let i = choose|i: int| 0 <= i < before.len() && (#[trigger] before[i]).0@ == k;
                    assert(entries@[i].0@ == k);
                }
            }
        },
        None => {
            let ghost before = entries@;
            entries.push((name, active));
            assert forall|i: int| 0 <= i < entries@.len() implies
                m2.contains_key((#[trigger] entries@[i]).0@) && m2[entries@[i].0@] == entries@[i].1 by {
                if i < before.len() {
                    assert(before[i].0@ != name@);
                }
            }
            assert forall|k: Seq<char>| #[trigger] m2.contains_key(k)
                implies exists|i: int| 0 <= i < entries@.len() && (#[trigger] entries@[i]).0@ == k by {
                if k == name@ {
                    assert(entries@[before.len() as int].0@ == k);
                } else {
                    assert(m.contains_key(k));
                    let i = choose|i: int| 0 <= i < before.len() && (#[trigger] before[i]).0@ == k;
                    assert(entries@[i].0@ == k);
                }
            }
        },
    }
}

/// The breakpoints that are active at a window width of `width` pixels. Each
/// custom name appears once, with the value of its last entry in the options.
pub fn breakpoints_for_width(width: i32, options: &UseBreakpointsOptions) -> (b: Breakpoints)
    ensures
        breakpoints_match(b, *options, width),
{
    let xs = match options.xs {
        Some(xs_value) => width >= xs_value && width < options.sm,
        None => width < options.sm,
    };
    let mut custom: Vec<(String, bool)> = Vec::new();
    let n = options.custom.len();
    for i in 0..n
        invariant
            n == options.custom@.len(),
            lists_map(custom@, custom_active(options.custom@.take(i as int), width)),
    {
        let (name, value) = &options.custom[i];
        proof {
            assert(options.custom@.take(i + 1).drop_last() =~= options.custom@.take(i as int));
        }
        insert_entry(&mut custom, name.clone(), width >= *value, Ghost(custom_active(options.custom@.take(i as int), width)));
    }
    proof {
        assert(options.custom@.take(n as int) =~= options.custom@);
    }
    Breakpoints {
        custom,
        xs,
        sm: width >= options.sm && width < options.md,
        md: width >= options.md && width < options.lg,
        lg: width >= options.lg && width < options.xl,
        xl: width >= options.xl && width < options.xxl,
        xxl: width >= options.xxl,
    }
}

/// Whether the thresholds are in ascending order.
pub open spec fn thresholds_ascending(o: UseBreakpointsOptions) -> bool {
    o.sm <= o.md && o.md <= o.lg && o.lg <= o.xl && o.xl <= o.xxl
}

/// The number of the standard breakpoints that are active.
pub open spec fn active_count(b: Breakpoints) -> int {
    (if b.xs { 1int } else { 0 }) + (if b.sm { 1int } else { 0 }) + (if b.md { 1int } else { 0 })
        + (if b.lg { 1int } else { 0 }) + (if b.xl { 1int } else { 0 }) + (if b.xxl { 1int } else { 0 })
}

/// With ascending thresholds the standard ranges do not overlap: at most one
/// breakpoint is active at any width, and exactly one is when the extra small
/// range has no lower bound or the width reaches it.
pub proof fn lemma_breakpoints_partition(b: Breakpoints, o: UseBreakpointsOptions, width: i32)
    requires
        breakpoints_match(b, o, width),
        thresholds_ascending(o),
    ensures
        active_count(b) <= 1,
        (o.xs is None || width >= o.xs->0) ==> active_count(b) == 1,
{
}

/// Raising the width keeps the names of the custom breakpoints and never
/// switches one off.
proof fn lemma_custom_active_monotone(custom: Seq<(String, i32)>, w1: i32, w2: i32, k: Seq<char>)
    requires
        w1 <= w2,
    ensures
        custom_active(custom, w1).contains_key(k) == custom_active(custom, w2).contains_key(k),
        custom_active(custom, w1).contains_key(k) && custom_active(custom, w1)[k]
            ==> custom_active(custom, w2)[k],
    decreases custom.len(),
{
    if custom.len() > 0 {
        lemma_custom_active_monotone(custom.drop_last(), w1, w2, k);
    }
}

/// A custom breakpoint is active exactly when the width reaches the value of
/// its last entry, so widening the window keeps the same names and never
/// switches one off.
pub proof fn lemma_custom_monotone(o: UseBreakpointsOptions, b1: Breakpoints, w1: i32, b2: Breakpoints, w2: i32, i: int, j: int)
    requires
        breakpoints_match(b1, o, w1),
        breakpoints_match(b2, o, w2),
        w1 <= w2,
        0 <= i < b1.custom@.len(),
        0 <= j < b2.custom@.len(),
        b1.custom@[i].0@ == b2.custom@[j].0@,
    ensures
        b1.custom@[i].1 ==> b2.custom@[j].1,
{
    let k = b1.custom@[i].0@;
    lemma_custom_active_monotone(o.custom@, w1, w2, k);
    assert(custom_active(o.custom@, w1).contains_key(k));
    assert(b2.custom@[j].0@ == k);
}

} // verus!
