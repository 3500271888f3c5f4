//! The character's base stats.

use vstd::prelude::*;

verus! {

/// The stored names of the stat fields, in field-index order.
pub const FIELD_NAMES: [&'static str; 7] = [
    "마력(기본 수치, 기본)",
    "마력(기본 수치, 장비 아이템)",
    "마력(몽환의 결정)",
    "크리티컬 확률",
    "크리티컬 데미지",
    "재사용 대기시간 감소",
    "숙련도",
];

/// The number of stat fields.
pub const FIELD_COUNT: usize = 7;

#[derive(Debug, Clone, Copy, PartialEq, Eq, Structural)]
pub struct BaseStats {
    pub magic_base: i32,
    pub magic_equip: i32,
    /// Magic that the currently equipped crystals contribute; the optimizer
    /// leaves it out of the base.
    pub magic_crystal: i32,
    pub crit_rate: i32,
    pub crit_damage: i32,
    pub cooldown_reduction: i32,
    pub mastery: i32,
}

impl BaseStats {
    /// The field at index `idx` (0 for an index past the last field).
    pub open spec fn field(self, idx: int) -> i32 {
        if idx == 0 {
            self.magic_base
        } else if idx == 1 {
            self.magic_equip
        } else if idx == 2 {
            self.magic_crystal
        } else if idx == 3 {
            self.crit_rate
        } else if idx == 4 {
            self.crit_damage
        } else if idx == 5 {
            self.cooldown_reduction
        } else if idx == 6 {
            self.mastery
        } else {
            0
        }
    }

    /// The stats with field `idx` set to `val` (unchanged for an index past
    /// the last field).
    pub open spec fn with_field(self, idx: int, val: i32) -> BaseStats {
        if idx == 0 {
            BaseStats { magic_base: val, ..self }
        } else if idx == 1 {
            BaseStats { magic_equip: val, ..self }
        } else if idx == 2 {
            BaseStats { magic_crystal: val, ..self }
        } else if idx == 3 {
            BaseStats { crit_rate: val, ..self }
        } else if idx == 4 {
            BaseStats { crit_damage: val, ..self }
        } else if idx == 5 {
            BaseStats { cooldown_reduction: val, ..self }
        } else if idx == 6 {
            BaseStats { mastery: val, ..self }
        } else {
            self
        }
    }

    /// Base magic without the crystals' share.
    pub open spec fn effective_magic_spec(self) -> int {
        self.magic_base + self.magic_equip - self.magic_crystal
    }

    /// Base magic without what the currently equipped crystals contribute.
    pub fn effective_magic(&self) -> (m: i32)
        requires
            i32::MIN <= self.magic_base + self.magic_equip <= i32::MAX,
            i32::MIN <= self.effective_magic_spec() <= i32::MAX,
        ensures
            m == self.effective_magic_spec(),
    {
        self.magic_base + self.magic_equip - self.magic_crystal
    }

    pub fn get(&self, idx: usize) -> (v: i32)
        ensures
            v == self.field(idx as int),
    {
        match idx {
            0 => self.magic_base,
            1 => self.magic_equip,
            2 => self.magic_crystal,
            3 => self.crit_rate,
            4 => self.crit_damage,
            5 => self.cooldown_reduction,
            6 => self.mastery,
            _ => 0,
        }
    }

    pub fn set(&mut self, idx: usize, val: i32)
        ensures
            *final(self) == old(self).with_field(idx as int, val),
    {
        match idx {
            0 => self.magic_base = val,
            1 => self.magic_equip = val,
            2 => self.magic_crystal = val,
            3 => self.crit_rate = val,
            4 => self.crit_damage = val,
            5 => self.cooldown_reduction = val,
            6 => self.mastery = val,
            _ => {},
        }
    }
}

impl Default for BaseStats {
    fn default() -> (s: Self)
        ensures
            forall|j: int| #[trigger] s.field(j) == 0,
    {
        BaseStats {
            magic_base: 0,
            magic_equip: 0,
            magic_crystal: 0,
            crit_rate: 0,
            crit_damage: 0,
            cooldown_reduction: 0,
            mastery: 0,
        }
    }
}

/// A field written by `set` reads back through `get`, every other field
/// keeps its value, and an index past the last field changes nothing.
pub proof fn lemma_get_after_set(s: BaseStats, idx: int, val: i32, j: int)
    ensures
        s.with_field(idx, val).field(j) == if j == idx && 0 <= idx < FIELD_COUNT {
            val
        } else {
            s.field(j)
        },
        !(0 <= idx < FIELD_COUNT) ==> s.with_field(idx, val) == s,
{
}

} // verus!
