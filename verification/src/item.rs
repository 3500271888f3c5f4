//! Item options and items.

use vstd::prelude::*;

use crate::text::str_eq;

verus! {

/// The six kinds of option an item can carry.
#[derive(Debug, Clone, Copy, PartialEq, Eq, Structural)]
pub enum OptionKind {
    Magic,
    MagicPercent,
    Mastery,
    CritRate,
    CritDamage,
    CooldownReduction,
}

/// The Korean display name of each kind, as a sequence of characters.
pub open spec fn kind_name(k: OptionKind) -> Seq<char> {
    match k {
        OptionKind::Magic => "마력"@,
        OptionKind::MagicPercent => "마력%"@,
        OptionKind::Mastery => "숙련도"@,
        OptionKind::CritRate => "크리티컬 확률"@,
        OptionKind::CritDamage => "크리티컬 데미지"@,
        OptionKind::CooldownReduction => "재사용 대기시간 감소"@,
    }
}

/// The order in which kinds are offered for selection.
pub open spec fn all_kinds() -> Seq<OptionKind> {
    seq![
        OptionKind::Magic,
        OptionKind::MagicPercent,
        OptionKind::CritRate,
        OptionKind::CritDamage,
        OptionKind::CooldownReduction,
        OptionKind::Mastery,
    ]
}

/// The position of a kind in selection order.
pub open spec fn kind_index(k: OptionKind) -> usize {
    match k {
        OptionKind::Magic => 0,
        OptionKind::MagicPercent => 1,
        OptionKind::CritRate => 2,
        OptionKind::CritDamage => 3,
        OptionKind::CooldownReduction => 4,
        OptionKind::Mastery => 5,
    }
}

impl OptionKind {
    /// Every kind, in selection order.
    pub const ALL: [OptionKind; 6] = [
        OptionKind::Magic,
        OptionKind::MagicPercent,
        OptionKind::CritRate,
        OptionKind::CritDamage,
        OptionKind::CooldownReduction,
        OptionKind::Mastery,
    ];

    pub fn display_name(self) -> (name: &'static str)
        ensures
            name@ == kind_name(self),
    {
        match self {
            OptionKind::Magic => "마력",
            OptionKind::MagicPercent => "마력%",
            OptionKind::Mastery => "숙련도",
            OptionKind::CritRate => "크리티컬 확률",
            OptionKind::CritDamage => "크리티컬 데미지",
            OptionKind::CooldownReduction => "재사용 대기시간 감소",
        }
    }

    pub fn index_in_all(self) -> (i: usize)
        ensures
            i == kind_index(self),
            i < 6,
            all_kinds()[i as int] == self,
    {
        match self {
            OptionKind::Magic => 0,
            OptionKind::MagicPercent => 1,
            OptionKind::CritRate => 2,
            OptionKind::CritDamage => 3,
            OptionKind::CooldownReduction => 4,
            OptionKind::Mastery => 5,
        }
    }
}

/// The kind whose display name is `name`, if any.
pub open spec fn kind_named(name: Seq<char>) -> Option<OptionKind> {
    if name == kind_name(OptionKind::Magic) {
        Some(OptionKind::Magic)
    } else if name == kind_name(OptionKind::MagicPercent) {
        Some(OptionKind::MagicPercent)
    } else if name == kind_name(OptionKind::Mastery) {
        Some(OptionKind::Mastery)
    } else if name == kind_name(OptionKind::CritRate) {
        Some(OptionKind::CritRate)
    } else if name == kind_name(OptionKind::CritDamage) {
        Some(OptionKind::CritDamage)
    } else if name == kind_name(OptionKind::CooldownReduction) {
        Some(OptionKind::CooldownReduction)
    } else {
        None
    }
}

impl OptionKind {
    pub fn from_korean(s: &str) -> (k: Option<Self>)
        ensures
            k == kind_named(s@),
    {
        if str_eq(s, "마력") {
            Some(OptionKind::Magic)
        } else if str_eq(s, "마력%") {
            Some(OptionKind::MagicPercent)
        } else if str_eq(s, "숙련도") {
            Some(OptionKind::Mastery)
        } else if str_eq(s, "크리티컬 확률") {
            Some(OptionKind::CritRate)
        } else if str_eq(s, "크리티컬 데미지") {
            Some(OptionKind::CritDamage)
        } else if str_eq(s, "재사용 대기시간 감소") {
            Some(OptionKind::CooldownReduction)
        } else {
            None
        }
    }
}

/// `ALL` holds the kinds in selection order.
pub proof fn lemma_all_kinds()
    ensures
        OptionKind::ALL@ == all_kinds(),
{
}

/// No two kinds share a display name, so a name read back gives the kind it
/// was written from.
pub proof fn lemma_kind_name_roundtrip(k: OptionKind)
    ensures
        kind_named(kind_name(k)) == Some(k),
{
    reveal_strlit("마력");
    reveal_strlit("마력%");
    reveal_strlit("숙련도");
    reveal_strlit("크리티컬 확률");
    reveal_strlit("크리티컬 데미지");
    reveal_strlit("재사용 대기시간 감소");
    let names = seq![
        kind_name(OptionKind::Magic),
        kind_name(OptionKind::MagicPercent),
        kind_name(OptionKind::Mastery),
        kind_name(OptionKind::CritRate),
        kind_name(OptionKind::CritDamage),
        kind_name(OptionKind::CooldownReduction),
    ];
    assert(names[0].len() == 2);
    assert(names[1].len() == 3);
    assert(names[2].len() == 3);
    assert(names[3].len() == 7);
    assert(names[4].len() == 8);
    assert(names[5].len() == 11);
    assert(names[1][0] != names[2][0]);
}

/// One option of an item: its kind and its value.
#[derive(Debug, Clone, Copy, PartialEq, Eq, Structural)]
pub struct ItemOption {
    pub kind: OptionKind,
    pub value: i32,
}

/// An item carries exactly two options.
#[derive(Debug, Clone, Copy, PartialEq, Eq)]
pub struct Item {
    pub options: [ItemOption; 2],
}

/// Why a stored item could not be read.
#[derive(Debug, Clone, Copy, PartialEq, Eq, Structural)]
pub enum ItemError {
    /// An option key names no known kind.
    UnknownKind,
    /// The item did not hold exactly two options; the count found.
    WrongCount(usize),
}

impl ItemOption {
    /// Reads one stored option entry: a kind name and its value.
    pub fn from_entry(key: &str, value: i32) -> (r: Result<ItemOption, ItemError>)
        ensures
            match kind_named(key@) {
                Some(k) => r == Ok::<ItemOption, ItemError>(ItemOption { kind: k, value }),
                None => r == Err::<ItemOption, ItemError>(ItemError::UnknownKind),
            },
    {
        match OptionKind::from_korean(key) {
            Some(kind) => Ok(ItemOption { kind, value }),
            None => Err(ItemError::UnknownKind),
        }
    }
}

impl Item {
    /// Builds an item from the options read for it, which must be exactly two.
    pub fn from_options(opts: Vec<ItemOption>) -> (r: Result<Item, ItemError>)
        ensures
            opts@.len() == 2 ==> r == Ok::<Item, ItemError>(Item { options: [opts@[0], opts@[1]] }),
            opts@.len() != 2 ==> r == Err::<Item, ItemError>(ItemError::WrongCount(opts@.len() as usize)),
    {
        if opts.len() != 2 {
            return Err(ItemError::WrongCount(opts.len()));
        }
        Ok(Item { options: [opts[0], opts[1]] })
    }
}

} // verus!
