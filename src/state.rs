//! The cursor over one level of the menu: the highlighted index and the
//! number of entries at that level.
use vstd::arithmetic::div_mod::{lemma_fundamental_div_mod, lemma_fundamental_div_mod_converse_mod};
use vstd::prelude::*;

verus! {

/// Index after one step down over `n` entries: the next one, wrapping to 0
/// past the end.
pub open spec fn step_down(h: nat, n: nat) -> nat {
    if h + 1 >= n {
        0
    } else {
        h + 1
    }
}

/// Index after one step up over `n` entries: the previous one, wrapping to
/// the last entry from 0; nothing moves when there are no entries.
pub open spec fn step_up(h: nat, n: nat) -> nat {
    if n == 0 {
        h
    } else if h == 0 {
        (n - 1) as nat
    } else {
        (h - 1) as nat
    }
}

/// Index after `k` steps down.
pub open spec fn steps_down(h: nat, n: nat, k: nat) -> nat
    decreases k,
{
    if k == 0 {
        h
    } else {
        step_down(steps_down(h, n, (k - 1) as nat), n)
    }
}

/// Index after `k` steps up.
pub open spec fn steps_up(h: nat, n: nat, k: nat) -> nat
    decreases k,
{
    if k == 0 {
        h
    } else {
        step_up(steps_up(h, n, (k - 1) as nat), n)
    }
}

/// Index after one step down that passes over sections: steps on while
/// the entry reached is a section, at most `fuel` further steps.
pub open spec fn skip_down(sections: Seq<bool>, h: nat, fuel: nat) -> nat
    decreases fuel,
{
    let d = step_down(h, sections.len());
    if fuel == 0 || !sections[d as int] {
        d
    } else {
        skip_down(sections, d, (fuel - 1) as nat)
    }
}

/// Index after one step up that passes over sections.
pub open spec fn skip_up(sections: Seq<bool>, h: nat, fuel: nat) -> nat
    decreases fuel,
{
    let d = step_up(h, sections.len());
    if fuel == 0 || !sections[d as int] {
        d
    } else {
        skip_up(sections, d, (fuel - 1) as nat)
    }
}

/// Where "down" leaves the cursor over a level whose section entries are
/// marked in `sections`: the next entry that is not a section, wrapping.
pub open spec fn navigate_down_index(sections: Seq<bool>, h: nat) -> nat {
    if sections.len() == 0 {
        h
    } else {
        skip_down(sections, h, (sections.len() - 1) as nat)
    }
}

/// Where "up" leaves the cursor: the previous entry that is not a section,
/// wrapping.
pub open spec fn navigate_up_index(sections: Seq<bool>, h: nat) -> nat {
    if sections.len() == 0 {
        h
    } else {
        skip_up(sections, h, (sections.len() - 1) as nat)
    }
}

proof fn lemma_steps_down_mod(h: nat, n: nat, k: nat)
    requires
        h < n,
    ensures
        steps_down(h, n, k) == ((h + k) as int) % (n as int),
    decreases k,
{
    if k == 0 {
        lemma_fundamental_div_mod_converse_mod(h as int, n as int, 0, h as int);
    } else {
        lemma_steps_down_mod(h, n, (k - 1) as nat);
        let x = ((h + k - 1) as int) % (n as int);
        let q = ((h + k - 1) as int) / (n as int);
        lemma_fundamental_div_mod((h + k - 1) as int, n as int);
        if x + 1 >= n {
            assert(h + k == (q + 1) * n + 0) by (nonlinear_arith)
                requires
                    h + k - 1 == q * n + x,
                    x == n - 1,
            ;
            lemma_fundamental_div_mod_converse_mod((h + k) as int, n as int, q + 1, 0);
        } else {
            lemma_fundamental_div_mod_converse_mod((h + k) as int, n as int, q, x + 1);
        }
    }
}

proof fn lemma_steps_up_mod(h: nat, n: nat, k: nat)
    requires
        h < n,
    ensures
        steps_up(h, n, k) == ((h - k) as int) % (n as int),
    decreases k,
{
    if k == 0 {
        lemma_fundamental_div_mod_converse_mod(h as int, n as int, 0, h as int);
    } else {
        lemma_steps_up_mod(h, n, (k - 1) as nat);
        let x = ((h - (k - 1)) as int) % (n as int);
        let q = ((h - (k - 1)) as int) / (n as int);
        lemma_fundamental_div_mod((h - (k - 1)) as int, n as int);
        if x == 0 {
            assert(h - k == (q - 1) * n + (n - 1)) by (nonlinear_arith)
                requires
                    h - (k - 1) == q * n + x,
                    x == 0,
            ;
            lemma_fundamental_div_mod_converse_mod((h - k) as int, n as int, q - 1, n - 1);
        } else {
            lemma_fundamental_div_mod_converse_mod((h - k) as int, n as int, q, x - 1);
        }
    }
}

/// Stepping down once per entry brings the cursor back to where it started.
pub proof fn lemma_move_down_cycle(h: nat, n: nat)
    requires
        h < n,
    ensures
        steps_down(h, n, n) == h,
{
    lemma_steps_down_mod(h, n, n);
    lemma_fundamental_div_mod_converse_mod((h + n) as int, n as int, 1, h as int);
}

/// Stepping up undoes stepping down, and stepping down undoes stepping up,
/// from any index of a non-empty level.
pub proof fn lemma_move_up_inverts_move_down(h: nat, n: nat)
    requires
        h < n,
    ensures
        step_up(step_down(h, n), n) == h,
        step_down(step_up(h, n), n) == h,
{
}

/// Every index of a level is reached by some number of steps down, from 1
/// up to the number of entries.
proof fn lemma_steps_down_reach(h: nat, n: nat, j: nat) -> (k: nat)
    requires
        h < n,
        j < n,
    ensures
        1 <= k <= n,
        steps_down(h, n, k) == j,
{
    let k: nat = if j > h { (j - h) as nat } else { (j + n - h) as nat };
    lemma_steps_down_mod(h, n, k);
    if j > h {
        lemma_fundamental_div_mod_converse_mod((h + k) as int, n as int, 0, j as int);
    } else {
        lemma_fundamental_div_mod_converse_mod((h + k) as int, n as int, 1, j as int);
    }
    k
}

/// Every index of a level is reached by some number of steps up, from 1 up
/// to the number of entries.
proof fn lemma_steps_up_reach(h: nat, n: nat, j: nat) -> (k: nat)
    requires
        h < n,
        j < n,
    ensures
        1 <= k <= n,
        steps_up(h, n, k) == j,
{
    let k: nat = if j < h { (h - j) as nat } else { (h + n - j) as nat };
    lemma_steps_up_mod(h, n, k);
    if j < h {
        lemma_fundamental_div_mod_converse_mod((h - k) as int, n as int, 0, j as int);
    } else {
        lemma_fundamental_div_mod_converse_mod((h - k) as int, n as int, -1, j as int);
    }
    k
}

/// A skipping step either stops on an entry that is not a section, or every
/// entry that it passed, the last one included, is a section.
proof fn lemma_skip_down_passes(sections: Seq<bool>, h: nat, fuel: nat)
    requires
        h < sections.len(),
    ensures
        skip_down(sections, h, fuel) < sections.len(),
        !sections[skip_down(sections, h, fuel) as int] || forall|k: nat|
            1 <= k <= fuel + 1 ==> #[trigger] sections[steps_down(h, sections.len(), k) as int],
    decreases fuel,
{
    let n = sections.len();
    let d = step_down(h, n);
    assert(steps_down(h, n, 0) == h);
    assert(steps_down(h, n, 1) == step_down(steps_down(h, n, 0), n));
    if fuel == 0 || !sections[d as int] {
    } else {
        lemma_skip_down_passes(sections, d, (fuel - 1) as nat);
        if sections[skip_down(sections, h, fuel) as int] {
            assert forall|k: nat| 1 <= k <= fuel + 1 implies #[trigger] sections[steps_down(
                h,
                n,
                k,
            ) as int] by {
                if k >= 2 {
                    lemma_steps_down_shift(h, n, (k - 1) as nat);
                    assert(sections[steps_down(d, n, (k - 1) as nat) as int]);
                }
            }
        }
    }
}

proof fn lemma_steps_down_shift(h: nat, n: nat, k: nat)
    ensures
        steps_down(step_down(h, n), n, k) == steps_down(h, n, k + 1),
    decreases k,
{
    assert(steps_down(h, n, 0) == h);
    assert(steps_down(h, n, k + 1) == step_down(steps_down(h, n, k), n));
    if k > 0 {
        lemma_steps_down_shift(h, n, (k - 1) as nat);
        assert(steps_down(step_down(h, n), n, k) == step_down(
            steps_down(step_down(h, n), n, (k - 1) as nat),
            n,
        ));
    }
}

proof fn lemma_steps_up_shift(h: nat, n: nat, k: nat)
    ensures
        steps_up(step_up(h, n), n, k) == steps_up(h, n, k + 1),
    decreases k,
{
    assert(steps_up(h, n, 0) == h);
    assert(steps_up(h, n, k + 1) == step_up(steps_up(h, n, k), n));
    if k > 0 {
        lemma_steps_up_shift(h, n, (k - 1) as nat);
        assert(steps_up(step_up(h, n), n, k) == step_up(
            steps_up(step_up(h, n), n, (k - 1) as nat),
            n,
        ));
    }
}

proof fn lemma_skip_up_passes(sections: Seq<bool>, h: nat, fuel: nat)
    requires
        h < sections.len(),
    ensures
        skip_up(sections, h, fuel) < sections.len(),
        !sections[skip_up(sections, h, fuel) as int] || forall|k: nat|
            1 <= k <= fuel + 1 ==> #[trigger] sections[steps_up(h, sections.len(), k) as int],
    decreases fuel,
{
    let n = sections.len();
    let d = step_up(h, n);
    assert(steps_up(h, n, 0) == h);
    assert(steps_up(h, n, 1) == step_up(steps_up(h, n, 0), n));
    if fuel == 0 || !sections[d as int] {
    } else {
        lemma_skip_up_passes(sections, d, (fuel - 1) as nat);
        if sections[skip_up(sections, h, fuel) as int] {
            assert forall|k: nat| 1 <= k <= fuel + 1 implies #[trigger] sections[steps_up(
                h,
                n,
                k,
            ) as int] by {
                if k >= 2 {
                    lemma_steps_up_shift(h, n, (k - 1) as nat);
                    assert(sections[steps_up(d, n, (k - 1) as nat) as int]);
                }
            }
        }
    }
}

/// On a level with at least one entry that is not a section, moving up or
/// down from any entry never leaves the cursor on a section.
pub proof fn lemma_navigation_avoids_sections(sections: Seq<bool>, h: nat)
    requires
        h < sections.len(),
        exists|i: int| 0 <= i < sections.len() && !sections[i],
    ensures
        navigate_down_index(sections, h) < sections.len(),
        !sections[navigate_down_index(sections, h) as int],
        navigate_up_index(sections, h) < sections.len(),
        !sections[navigate_up_index(sections, h) as int],
{
    let n = sections.len();
    let i = choose|i: int| 0 <= i < sections.len() && !sections[i];
    lemma_skip_down_passes(sections, h, (n - 1) as nat);
    let kd = lemma_steps_down_reach(h, n, i as nat);
    lemma_skip_up_passes(sections, h, (n - 1) as nat);
    let ku = lemma_steps_up_reach(h, n, i as nat);
}

/// Highlighted index and entry count of the active level.
pub struct MenuState {
    highlighted_item: usize,
    item_count: usize,
}

impl MenuState {
    /// The highlighted index.
    pub closed spec fn cursor(&self) -> nat {
        self.highlighted_item as nat
    }

    /// The number of entries at the active level.
    pub closed spec fn count(&self) -> nat {
        self.item_count as nat
    }

    /// A cursor at 0 over no entries.
    pub fn new() -> (r: Self)
        ensures
            r.cursor() == 0,
            r.count() == 0,
    {
        MenuState { highlighted_item: 0, item_count: 0 }
    }

    /// Records the number of entries at the active level; the cursor stays.
    pub fn update_item_count(&mut self, item_count: usize)
        ensures
            final(self).count() == item_count,
            final(self).cursor() == old(self).cursor(),
    {
        self.item_count = item_count;
    }

    /// Moves the cursor one entry down, wrapping to the first entry.
    pub fn move_down(&mut self)
        ensures
            final(self).cursor() == step_down(old(self).cursor(), old(self).count()),
            final(self).count() == old(self).count(),
    {
        if self.highlighted_item >= self.item_count || self.item_count - self.highlighted_item
            == 1 {
            self.highlighted_item = 0;
        } else {
            self.highlighted_item = self.highlighted_item + 1;
        }
    }

    /// Moves the cursor one entry up, wrapping to the last entry; does
    /// nothing on an empty level.
    pub fn move_up(&mut self)
        ensures
            final(self).cursor() == step_up(old(self).cursor(), old(self).count()),
            final(self).count() == old(self).count(),
    {
        if self.item_count == 0 {
        } else if self.highlighted_item == 0 {
            self.highlighted_item = self.item_count - 1;
        } else {
            self.highlighted_item = self.highlighted_item - 1;
        }
    }

    /// The highlighted index.
    pub fn highlighted_item(&self) -> (r: usize)
        ensures
            r == self.cursor(),
    {
        self.highlighted_item
    }

    /// The number of entries at the active level.
    pub fn item_count(&self) -> (r: usize)
        ensures
            r == self.count(),
    {
        self.item_count
    }
}

} // verus!
