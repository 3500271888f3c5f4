//! The integer side of the combination search: which item combinations
//! exist, which of them reach the critical-rate cap, and the whole-number
//! totals that a combination's strength is computed from.

use vstd::prelude::*;

use crate::item::{Item, ItemOption, OptionKind};
use crate::stats::BaseStats;

verus! {

/// The critical rate a combination must reach to be considered.
pub const CRIT_RATE_CAP: i128 = 100;

/// Every element is smaller than the next.
pub open spec fn strictly_increasing(c: Seq<usize>) -> bool {
    forall|i: int, j: int| 0 <= i < j < c.len() ==> c[i] < c[j]
}

/// `c` picks `n` distinct indices below `m`, in increasing order.
pub open spec fn is_combo(c: Seq<usize>, m: nat, n: nat) -> bool {
    &&& c.len() == n
    &&& strictly_increasing(c)
    &&& forall|i: int| 0 <= i < c.len() ==> #[trigger] c[i] < m
}

/// `a` and `b` agree before position `k` and `a` is smaller at `k`.
pub open spec fn lex_lt_at(a: Seq<usize>, b: Seq<usize>, k: int) -> bool {
    &&& 0 <= k < a.len()
    &&& k < b.len()
    &&& a.subrange(0, k) == b.subrange(0, k)
    &&& a[k] < b[k]
}

/// `a` comes strictly before `b` in lexicographic order.
pub open spec fn lex_lt(a: Seq<usize>, b: Seq<usize>) -> bool {
    exists|k: int| #[trigger] lex_lt_at(a, b, k)
}

/// The lists held by a vector of vectors.
pub open spec fn lists(v: Vec<Vec<usize>>) -> Seq<Seq<usize>> {
    v@.map_values(|x: Vec<usize>| x@)
}

/// A combination that extends `prefix`, whose next index is at least `start`.
pub open spec fn extends(c: Seq<usize>, prefix: Seq<usize>, start: nat, m: nat, n: nat) -> bool {
    &&& is_combo(c, m, n)
    &&& c.subrange(0, prefix.len() as int) == prefix
    &&& prefix.len() < n ==> c[prefix.len() as int] >= start
}

proof fn lemma_extends_next(c: Seq<usize>, prefix: Seq<usize>, start: nat, m: nat, n: nat)
    requires
        extends(c, prefix, start, m, n),
        prefix.len() < n,
    ensures
        extends(c, prefix.push(c[prefix.len() as int]), (c[prefix.len() as int] + 1) as nat, m, n),
        c[prefix.len() as int] + (n - prefix.len()) <= m,
{
    let k = prefix.len() as int;
    assert(c.subrange(0, k as int + 1) =~= prefix.push(c[k]));
    // the indices after position k climb by at least one each
    assert forall|j: int| k <= j < n implies #[trigger] c[j] >= c[k] + (j - k) by {
        lemma_climb(c, k, j);
    }
    assert(c[n - 1] < m);
}

proof fn lemma_climb(c: Seq<usize>, k: int, j: int)
    requires
        strictly_increasing(c),
        0 <= k <= j < c.len(),
    ensures
        c[j] >= c[k] + (j - k),
    decreases j - k,
{
    if j > k {
        lemma_climb(c, k, j - 1);
    }
}

/// Appends to `result` every combination of `n` indices below `m` that
/// extends `combo` with indices from `start` on, in lexicographic order.
fn gen_combos(start: usize, m: usize, n: usize, combo: &mut Vec<usize>, result: &mut Vec<Vec<usize>>)
    requires
        old(combo)@.len() <= n,
        start <= m,
        strictly_increasing(old(combo)@),
        forall|i: int| 0 <= i < old(combo)@.len() ==> #[trigger] old(combo)@[i] < start,
    ensures
        final(combo)@ == old(combo)@,
        lists(*final(result)).len() >= lists(*old(result)).len(),
        lists(*final(result)).subrange(0, lists(*old(result)).len() as int) == lists(*old(result)),
        forall|j: int|
            lists(*old(result)).len() <= j < lists(*final(result)).len() ==> extends(
                #[trigger] lists(*final(result))[j],
                old(combo)@,
                start as nat,
                m as nat,
                n as nat,
            ),
        forall|c: Seq<usize>|
            extends(c, old(combo)@, start as nat, m as nat, n as nat) ==> exists|j: int|
                lists(*old(result)).len() <= j < lists(*final(result)).len() && #[trigger] lists(
                    *final(result),
                )[j] == c,
        forall|j1: int, j2: int|
            lists(*old(result)).len() <= j1 < j2 < lists(*final(result)).len() ==> lex_lt(
                #[trigger] lists(*final(result))[j1],
                #[trigger] lists(*final(result))[j2],
            ),
    decreases n - old(combo)@.len(),
{
    let ghost p = combo@;
    let ghost k = p.len();
    let ghost r0 = lists(*result);
    if combo.len() == n {
        let snapshot = combo.clone();
        result.push(snapshot);
        proof {
            assert(snapshot@ == p);
            assert(lists(*result) =~= r0.push(p));
            assert(extends(p, p, start as nat, m as nat, n as nat)) by {
                assert(p.subrange(0, k as int) =~= p);
            }
            assert forall|c: Seq<usize>| extends(c, p, start as nat, m as nat, n as nat) implies exists|
                j: int,
            | r0.len() <= j < lists(*result).len() && #[trigger] lists(*result)[j] == c by {
                assert(c =~= c.subrange(0, k as int));
                assert(lists(*result)[r0.len() as int] == c);
            }
        }
        return;
    }
    let remaining = n - combo.len();
    if remaining > m - start {
        proof {
            assert forall|c: Seq<usize>| extends(c, p, start as nat, m as nat, n as nat) implies false by {
                lemma_extends_next(c, p, start as nat, m as nat, n as nat);
            }
            assert(lists(*result) =~= r0);
        }
        return;
    }
    let top = m - remaining;
    let mut i = start;
    while i <= top
        invariant
            combo@ == p,
            p == old(combo)@,
            k == p.len(),
            k < n,
            remaining == n - k,
            top == m - remaining,
            start <= i <= top + 1,
            strictly_increasing(p),
            forall|q: int| 0 <= q < p.len() ==> #[trigger] p[q] < start,
            lists(*result).len() >= r0.len(),
            lists(*result).subrange(0, r0.len() as int) == r0,
            forall|j: int|
                r0.len() <= j < lists(*result).len() ==> extends(
                    #[trigger] lists(*result)[j],
                    p,
                    start as nat,
                    m as nat,
                    n as nat,
                ) && lists(*result)[j][k as int] < i,
            forall|c: Seq<usize>|
                extends(c, p, start as nat, m as nat, n as nat) && c[k as int] < i ==> exists|j: int|
                    r0.len() <= j < lists(*result).len() && #[trigger] lists(*result)[j] == c,
            forall|j1: int, j2: int|
                r0.len() <= j1 < j2 < lists(*result).len() ==> lex_lt(
                    #[trigger] lists(*result)[j1],
                    #[trigger] lists(*result)[j2],
                ),
        decreases top + 1 - i,
    {
        let ghost before = lists(*result);
        combo.push(i);
        proof {
            assert forall|q: int| 0 <= q < combo@.len() implies #[trigger] combo@[q] < i + 1 by {
                if q < p.len() {
                    assert(combo@[q] == p[q]);
                }
            }
            assert(strictly_increasing(combo@)) by {
                assert forall|a: int, b: int| 0 <= a < b < combo@.len() implies combo@[a]
                    < combo@[b] by {
                    if b < p.len() {
                        assert(combo@[a] == p[a] && combo@[b] == p[b]);
                    } else {
                        assert(combo@[a] == p[a]);
                    }
                }
            }
        }
        assert(combo@.len() == k + 1);
        assert(n - combo@.len() < n - p.len());
        gen_combos(i + 1, m, n, combo, result);
        let ghost pi = p.push(i as usize);
        let ghost after = lists(*result);
        combo.pop();
        proof {
            assert(combo@ =~= p);
            // the block just appended holds exactly the extensions whose
            // index at position k is i
            assert forall|j: int| before.len() <= j < after.len() implies extends(
                #[trigger] after[j],
                p,
                start as nat,
                m as nat,
                n as nat,
            ) && after[j][k as int] == i by {
                let c = after[j];
                assert(c.subrange(0, k as int + 1) == pi);
                assert(c.subrange(0, k as int) =~= c.subrange(0, k as int + 1).subrange(0, k as int));
                assert(pi.subrange(0, k as int) =~= p);
                assert(c[k as int] == c.subrange(0, k as int + 1)[k as int]);
            }
            assert forall|j: int| r0.len() <= j < after.len() implies extends(
                #[trigger] after[j],
                p,
                start as nat,
                m as nat,
                n as nat,
            ) && after[j][k as int] < i + 1 by {
                if j < before.len() {
                    assert(after[j] == after.subrange(0, before.len() as int)[j]);
                    assert(before[j] == after[j]);
                }
            }
            assert(after.subrange(0, r0.len() as int) =~= r0) by {
                assert(after.subrange(0, r0.len() as int) =~= after.subrange(
                    0,
                    before.len() as int,
                ).subrange(0, r0.len() as int));
            }
            assert forall|c: Seq<usize>|
                extends(c, p, start as nat, m as nat, n as nat) && c[k as int] < i + 1 implies exists|
                j: int,
            | r0.len() <= j < after.len() && #[trigger] after[j] == c by {
                if c[k as int] < i {
                    let j = choose|j: int| r0.len() <= j < before.len() && #[trigger] before[j] == c;
                    assert(after.subrange(0, before.len() as int)[j] == after[j]);
                } else {
                    lemma_extends_next(c, p, start as nat, m as nat, n as nat);
                }
            }
            assert forall|j1: int, j2: int| r0.len() <= j1 < j2 < after.len() implies lex_lt(
                #[trigger] after[j1],
                #[trigger] after[j2],
            ) by {
                if j2 < before.len() {
                    assert(after.subrange(0, before.len() as int)[j1] == after[j1]);
                    assert(after.subrange(0, before.len() as int)[j2] == after[j2]);
                    assert(before[j1] == after[j1] && before[j2] == after[j2]);
                } else if j1 >= before.len() {
                } else {
                    assert(after.subrange(0, before.len() as int)[j1] == after[j1]);
                    assert(before[j1] == after[j1]);
                    let a = after[j1];
                    let b = after[j2];
                    assert(a.subrange(0, k as int) == p);
                    assert(b.subrange(0, k as int) == p);
                    assert(lex_lt_at(a, b, k as int));
                }
            }
        }
        i = i + 1;
    }
    proof {
        assert forall|c: Seq<usize>| extends(c, p, start as nat, m as nat, n as nat) implies exists|
            j: int,
        | r0.len() <= j < lists(*result).len() && #[trigger] lists(*result)[j] == c by {
            lemma_extends_next(c, p, start as nat, m as nat, n as nat);
        }
    }
}

/// Every way of choosing `n` of `m` indices, each as an increasing list, in
/// lexicographic order.
pub fn combinations(m: usize, n: usize) -> (r: Vec<Vec<usize>>)
    ensures
        forall|j: int| 0 <= j < lists(r).len() ==> is_combo(#[trigger] lists(r)[j], m as nat, n as nat),
        forall|c: Seq<usize>|
            is_combo(c, m as nat, n as nat) ==> exists|j: int|
                0 <= j < lists(r).len() && #[trigger] lists(r)[j] == c,
        forall|j1: int, j2: int|
            0 <= j1 < j2 < lists(r).len() ==> lex_lt(#[trigger] lists(r)[j1], #[trigger] lists(r)[j2]),
{
    let mut result: Vec<Vec<usize>> = Vec::new();
    let mut combo: Vec<usize> = Vec::new();
    assert(lists(result) =~= Seq::<Seq<usize>>::empty());
    gen_combos(0, m, n, &mut combo, &mut result);
    proof {
        assert forall|c: Seq<usize>| is_combo(c, m as nat, n as nat) implies extends(
            c,
            Seq::<usize>::empty(),
            0,
            m as nat,
            n as nat,
        ) by {
            assert(c.subrange(0, 0) =~= Seq::<usize>::empty());
        }
    }
    result
}


/// The critical rate that one item adds.
pub open spec fn item_crit(it: Item) -> int {
    (if it.options[0].kind == OptionKind::CritRate {
        it.options[0].value as int
    } else {
        0
    }) + (if it.options[1].kind == OptionKind::CritRate {
        it.options[1].value as int
    } else {
        0
    })
}

/// The critical rate that a list of items adds.
pub open spec fn crit_total(items: Seq<Item>) -> int
    decreases items.len(),
{
    if items.len() == 0 {
        0
    } else {
        crit_total(items.drop_last()) + item_crit(items.last())
    }
}

/// The items a list of references points to.
pub open spec fn deref_items(items: Seq<&Item>) -> Seq<Item> {
    items.map_values(|r: &Item| *r)
}

proof fn lemma_crit_total_bound(items: Seq<Item>)
    ensures
        -(items.len() * 0x1_0000_0000) <= crit_total(items) <= items.len() * 0x1_0000_0000,
    decreases items.len(),
{
    if items.len() > 0 {
        lemma_crit_total_bound(items.drop_last());
    }
}

/// The critical rate of the base stats with the items' added: every
/// `CritRate` option of every item counts.
pub fn total_crit_rate(base: &BaseStats, combo_items: &[&Item]) -> (r: i128)
    ensures
        r == base.crit_rate + crit_total(deref_items(combo_items@)),
{
    let mut cr: i128 = base.crit_rate as i128;
    let mut i: usize = 0;
    let ghost all = deref_items(combo_items@);
    while i < combo_items.len()
        invariant
            i <= combo_items@.len(),
            all == deref_items(combo_items@),
            all.len() == combo_items@.len(),
            cr == base.crit_rate + crit_total(all.subrange(0, i as int)),
        decreases combo_items@.len() - i,
    {
        let item = combo_items[i];
        proof {
            assert(all.subrange(0, i + 1).drop_last() =~= all.subrange(0, i as int));
            assert(all[i as int] == *item);
            lemma_crit_total_bound(all.subrange(0, i as int));
        }
        if item.options[0].kind == OptionKind::CritRate {
            cr = cr + item.options[0].value as i128;
        }
        if item.options[1].kind == OptionKind::CritRate {
            cr = cr + item.options[1].value as i128;
        }
        i = i + 1;
    }
    assert(all.subrange(0, i as int) =~= all);
    cr
}

/// Whether a combination's critical rate reaches `CRIT_RATE_CAP`; only
/// such combinations are scored.
pub fn reaches_crit_cap(base: &BaseStats, combo_items: &[&Item]) -> (b: bool)
    ensures
        b == (base.crit_rate + crit_total(deref_items(combo_items@)) >= CRIT_RATE_CAP),
{
    total_crit_rate(base, combo_items) >= CRIT_RATE_CAP
}


/// What option `o` adds to a total of kind `k`.
pub open spec fn opt_of(o: ItemOption, k: OptionKind) -> int {
    if o.kind == k {
        o.value as int
    } else {
        0
    }
}

/// The sum of the `k` options of a list of items.
pub open spec fn kind_total(items: Seq<Item>, k: OptionKind) -> int
    decreases items.len(),
{
    if items.len() == 0 {
        0
    } else {
        kind_total(items.drop_last(), k) + opt_of(items.last().options[0], k) + opt_of(
            items.last().options[1],
            k,
        )
    }
}

pub open spec fn in_i32(v: int) -> bool {
    i32::MIN <= v <= i32::MAX
}

/// Adding item `j`'s `k` options, one after the other, to `start` and the
/// `k` options before it stays within `i32`.
pub open spec fn step_fits_i32(start: int, items: Seq<Item>, k: OptionKind, j: int) -> bool {
    let before = start + kind_total(items.take(j), k);
    let mid = before + opt_of(items[j].options[0], k);
    in_i32(mid) && in_i32(mid + opt_of(items[j].options[1], k))
}

/// Summing the `k` options onto `start`, one option at a time, never
/// leaves `i32`.
pub open spec fn sum_fits_i32(start: int, items: Seq<Item>, k: OptionKind) -> bool {
    forall|j: int| 0 <= j < items.len() ==> #[trigger] step_fits_i32(start, items, k, j)
}

/// `start` plus every `k` option of the items, or `None` where a partial
/// sum leaves `i32`.
fn kind_sum(start: i32, items: &[&Item], k: OptionKind) -> (r: Option<i32>)
    ensures
        r == (if sum_fits_i32(start as int, deref_items(items@), k) {
            Some((start + kind_total(deref_items(items@), k)) as i32)
        } else {
            None
        }),
        r is Some ==> r->0 == start + kind_total(deref_items(items@), k),
{
    let ghost all = deref_items(items@);
    let mut acc: i32 = start;
    let mut i: usize = 0;
    while i < items.len()
        invariant
            i <= items@.len(),
            all == deref_items(items@),
            all.len() == items@.len(),
            acc == start + kind_total(all.take(i as int), k),
            forall|j: int| 0 <= j < i ==> #[trigger] step_fits_i32(start as int, all, k, j),
        decreases items@.len() - i,
    {
        let item = items[i];
        proof {
            assert(all[i as int] == *item);
            assert(all.take(i + 1).drop_last() =~= all.take(i as int));
        }
        let mut next: i64 = acc as i64;
        if item.options[0].kind == k {
            next = next + item.options[0].value as i64;
        }
        if next < i32::MIN as i64 || next > i32::MAX as i64 {
            proof {
                assert(!step_fits_i32(start as int, all, k, i as int));
            }
            return None;
        }
        if item.options[1].kind == k {
            next = next + item.options[1].value as i64;
        }
        if next < i32::MIN as i64 || next > i32::MAX as i64 {
            proof {
                assert(!step_fits_i32(start as int, all, k, i as int));
            }
            return None;
        }
        proof {
            assert(step_fits_i32(start as int, all, k, i as int));
        }
        acc = next as i32;
        i = i + 1;
    }
    assert(all.take(i as int) =~= all);
    Some(acc)
}

/// The whole-number inputs of a combination's strength.
#[derive(Debug, Clone, Copy, PartialEq, Eq, Structural)]
pub struct StrengthTotals {
    /// Effective base magic plus every `Magic` option.
    pub magic: i32,
    /// Every `MagicPercent` option.
    pub magic_percent: i32,
    /// Base critical damage plus every `CritDamage` option.
    pub crit_damage: i32,
    /// Total cooldown reduction, clamped to the strength table's steps 0 to 9.
    pub cooldown_step: usize,
    /// Total mastery, counted up to 100.
    pub mastery: i32,
}

/// A value clamped to the steps 0 to 9.
pub open spec fn clamp_step(v: int) -> int {
    if v < 0 {
        0
    } else if v > 9 {
        9
    } else {
        v
    }
}

/// The totals are summed in `i32`, one option at a time, starting from the
/// base stats; this holds where no partial sum leaves `i32`.
pub open spec fn totals_fit(base: BaseStats, items: Seq<Item>) -> bool {
    &&& in_i32(base.magic_base + base.magic_equip)
    &&& in_i32(base.effective_magic_spec())
    &&& sum_fits_i32(base.effective_magic_spec(), items, OptionKind::Magic)
    &&& sum_fits_i32(0, items, OptionKind::MagicPercent)
    &&& sum_fits_i32(base.crit_damage as int, items, OptionKind::CritDamage)
    &&& sum_fits_i32(base.cooldown_reduction as int, items, OptionKind::CooldownReduction)
    &&& sum_fits_i32(base.mastery as int, items, OptionKind::Mastery)
}

/// The totals of a combination, from the base stats and every option of
/// its items (critical rate aside, which only decides eligibility).
pub open spec fn totals_spec(base: BaseStats, items: Seq<Item>) -> StrengthTotals {
    let mastery = base.mastery + kind_total(items, OptionKind::Mastery);
    StrengthTotals {
        magic: (base.effective_magic_spec() + kind_total(items, OptionKind::Magic)) as i32,
        magic_percent: kind_total(items, OptionKind::MagicPercent) as i32,
        crit_damage: (base.crit_damage + kind_total(items, OptionKind::CritDamage)) as i32,
        cooldown_step: clamp_step(
            base.cooldown_reduction + kind_total(items, OptionKind::CooldownReduction),
        ) as usize,
        mastery: (if mastery <= 100 {
            mastery
        } else {
            100
        }) as i32,
    }
}

/// The totals a combination's strength is computed from, or `None` where
/// summing them in `i32` would overflow.
pub fn strength_totals(base: &BaseStats, combo_items: &[&Item]) -> (r: Option<StrengthTotals>)
    ensures
        r == (if totals_fit(*base, deref_items(combo_items@)) {
            Some(totals_spec(*base, deref_items(combo_items@)))
        } else {
            None
        }),
{
    let partial: i64 = base.magic_base as i64 + base.magic_equip as i64;
    if partial < i32::MIN as i64 || partial > i32::MAX as i64 {
        return None;
    }
    let eff: i64 = partial - base.magic_crystal as i64;
    if eff < i32::MIN as i64 || eff > i32::MAX as i64 {
        return None;
    }
    let magic = match kind_sum(eff as i32, combo_items, OptionKind::Magic) {
        Some(v) => v,
        None => return None,
    };
    let magic_percent = match kind_sum(0, combo_items, OptionKind::MagicPercent) {
        Some(v) => v,
        None => return None,
    };
    let crit_damage = match kind_sum(base.crit_damage, combo_items, OptionKind::CritDamage) {
        Some(v) => v,
        None => return None,
    };
    let cool = match kind_sum(base.cooldown_reduction, combo_items, OptionKind::CooldownReduction) {
        Some(v) => v,
        None => return None,
    };
    let mastery = match kind_sum(base.mastery, combo_items, OptionKind::Mastery) {
        Some(v) => v,
        None => return None,
    };
    let cooldown_step: usize = if cool < 0 {
        0
    } else if cool > 9 {
        9
    } else {
        cool as usize
    };
    let mastery = if mastery <= 100 {
        mastery
    } else {
        100
    };
    Some(StrengthTotals { magic, magic_percent, crit_damage, cooldown_step, mastery })
}

} // verus!
