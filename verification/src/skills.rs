//! One point-in-time measurement of a player's skills, the fixed catalog of
//! selectable skills, and the decoding of a measurement from a raw record.

use crate::error::ErrorKind;
use vstd::prelude::*;
use vstd::string::StringExecFns;

verus! {

/// The number of selectable skills.
pub const CATALOG_SIZE: usize = 24;

/// The catalog index of the skill that is always charted for comparison.
pub const COMPARISON_SKILL: usize = 22;

/// The largest value that a skill other than the first may hold.
pub const SKILL_MAX: u64 = 0xffff_ffff;

/// One measurement of every tracked skill.
///
/// `overall` spans 64 bits; every other skill fits 32 bits. `ehp_bits` is the
/// efficiency score as the bit pattern of an IEEE 754 single-precision number.
#[derive(Debug, Clone, Copy, PartialEq, Eq, Structural, Hash)]
pub struct Skills {
    pub overall: u64,
    pub attack: u32,
    pub defence: u32,
    pub strength: u32,
    pub hitpoints: u32,
    pub ranged: u32,
    pub prayer: u32,
    pub magic: u32,
    pub cooking: u32,
    pub woodcutting: u32,
    pub fletching: u32,
    pub fishing: u32,
    pub firemaking: u32,
    pub crafting: u32,
    pub smithing: u32,
    pub mining: u32,
    pub herblore: u32,
    pub agility: u32,
    pub thieving: u32,
    pub slayer: u32,
    pub farming: u32,
    pub runecraft: u32,
    pub hunter: u32,
    pub construction: u32,
    pub ehp_bits: u32,
}

/// The name of the skill at `index` of the catalog, which is also the key of
/// that skill in a raw record. Index 0 is the overall total.
pub open spec fn skill_name_spec(index: int) -> Seq<char> {
    if index == 0 {
        "Overall"@
    } else if index == 1 {
        "Attack"@
    } else if index == 2 {
        "Defence"@
    } else if index == 3 {
        "Strength"@
    } else if index == 4 {
        "Hitpoints"@
    } else if index == 5 {
        "Ranged"@
    } else if index == 6 {
        "Prayer"@
    } else if index == 7 {
        "Magic"@
    } else if index == 8 {
        "Cooking"@
    } else if index == 9 {
        "Woodcutting"@
    } else if index == 10 {
        "Fletching"@
    } else if index == 11 {
        "Fishing"@
    } else if index == 12 {
        "Firemaking"@
    } else if index == 13 {
        "Crafting"@
    } else if index == 14 {
        "Smithing"@
    } else if index == 15 {
        "Mining"@
    } else if index == 16 {
        "Herblore"@
    } else if index == 17 {
        "Agility"@
    } else if index == 18 {
        "Thieving"@
    } else if index == 19 {
        "Slayer"@
    } else if index == 20 {
        "Farming"@
    } else if index == 21 {
        "Runecraft"@
    } else if index == 22 {
        "Hunter"@
    } else {
        "Construction"@
    }
}

/// The key of the efficiency score in a raw record.
pub open spec fn efficiency_key() -> Seq<char> {
    "Ehp"@
}

/// The name of the skill at `index` of the catalog, which must be in it.
pub(crate) fn name_at(index: usize) -> (name: &'static str)
    requires
        index < CATALOG_SIZE,
    ensures
        name@ == skill_name_spec(index as int),
{
    match index {
        0 => "Overall",
        1 => "Attack",
        2 => "Defence",
        3 => "Strength",
        4 => "Hitpoints",
        5 => "Ranged",
        6 => "Prayer",
        7 => "Magic",
        8 => "Cooking",
        9 => "Woodcutting",
        10 => "Fletching",
        11 => "Fishing",
        12 => "Firemaking",
        13 => "Crafting",
        14 => "Smithing",
        15 => "Mining",
        16 => "Herblore",
        17 => "Agility",
        18 => "Thieving",
        19 => "Slayer",
        20 => "Farming",
        21 => "Runecraft",
        22 => "Hunter",
        _ => "Construction",
    }
}

/// The name of the skill at `index` of the catalog. An index outside the
/// catalog is an error.
pub fn skill_name(index: usize) -> (name: Result<&'static str, ErrorKind>)
    ensures
        match name {
            Ok(n) => index < CATALOG_SIZE && n@ == skill_name_spec(index as int),
            Err(e) => index >= CATALOG_SIZE && e == ErrorKind::SelectionError,
        },
{
    if index < CATALOG_SIZE {
        Ok(name_at(index))
    } else {
        Err(ErrorKind::SelectionError)
    }
}

/// The whole catalog, in its fixed order.
pub fn skill_names() -> (names: Vec<String>)
    ensures
        names@.len() == CATALOG_SIZE,
        forall|i: int| 0 <= i < CATALOG_SIZE ==> (#[trigger] names@[i])@ == skill_name_spec(i),
{
    let mut names: Vec<String> = Vec::new();
    let mut index: usize = 0;
    while index < CATALOG_SIZE
        invariant
            index <= CATALOG_SIZE,
            names@.len() == index,
            forall|i: int| 0 <= i < index ==> (#[trigger] names@[i])@ == skill_name_spec(i),
        decreases CATALOG_SIZE - index,
    {
        names.push(String::from_str(name_at(index)));
        index += 1;
    }
    names
}

impl Skills {
    /// The value of the skill at `index` of the catalog; meaningful for an
    /// index below `CATALOG_SIZE`.
    pub open spec fn value_spec(self, index: int) -> u64 {
        if index == 0 {
            self.overall
        } else if index == 1 {
            self.attack as u64
        } else if index == 2 {
            self.defence as u64
        } else if index == 3 {
            self.strength as u64
        } else if index == 4 {
            self.hitpoints as u64
        } else if index == 5 {
            self.ranged as u64
        } else if index == 6 {
            self.prayer as u64
        } else if index == 7 {
            self.magic as u64
        } else if index == 8 {
            self.cooking as u64
        } else if index == 9 {
            self.woodcutting as u64
        } else if index == 10 {
            self.fletching as u64
        } else if index == 11 {
            self.fishing as u64
        } else if index == 12 {
            self.firemaking as u64
        } else if index == 13 {
            self.crafting as u64
        } else if index == 14 {
            self.smithing as u64
        } else if index == 15 {
            self.mining as u64
        } else if index == 16 {
            self.herblore as u64
        } else if index == 17 {
            self.agility as u64
        } else if index == 18 {
            self.thieving as u64
        } else if index == 19 {
            self.slayer as u64
        } else if index == 20 {
            self.farming as u64
        } else if index == 21 {
            self.runecraft as u64
        } else if index == 22 {
            self.hunter as u64
        } else {
            self.construction as u64
        }
    }

    /// The value of the skill at `index` of the catalog, which must be in it.
    pub(crate) fn value_at(&self, index: usize) -> (value: u64)
        requires
            index < CATALOG_SIZE,
        ensures
            value == self.value_spec(index as int),
    {
        match index {
            0 => self.overall,
            1 => self.attack as u64,
            2 => self.defence as u64,
            3 => self.strength as u64,
            4 => self.hitpoints as u64,
            5 => self.ranged as u64,
            6 => self.prayer as u64,
            7 => self.magic as u64,
            8 => self.cooking as u64,
            9 => self.woodcutting as u64,
            10 => self.fletching as u64,
            11 => self.fishing as u64,
            12 => self.firemaking as u64,
            13 => self.crafting as u64,
            14 => self.smithing as u64,
            15 => self.mining as u64,
            16 => self.herblore as u64,
            17 => self.agility as u64,
            18 => self.thieving as u64,
            19 => self.slayer as u64,
            20 => self.farming as u64,
            21 => self.runecraft as u64,
            22 => self.hunter as u64,
            _ => self.construction as u64,
        }
    }

    /// The value of the skill at `index` of the catalog. An index outside the
    /// catalog is an error, never another skill's value.
    pub fn value(&self, index: usize) -> (value: Result<u64, ErrorKind>)
        ensures
            match value {
                Ok(v) => index < CATALOG_SIZE && v == self.value_spec(index as int),
                Err(e) => index >= CATALOG_SIZE && e == ErrorKind::SelectionError,
            },
    {
        if index < CATALOG_SIZE {
            Ok(self.value_at(index))
        } else {
            Err(ErrorKind::SelectionError)
        }
    }
}

/// A value of a raw record, as far as decoding reads it.
#[derive(Debug, Clone, Copy, PartialEq, Eq, Structural)]
pub enum RawValue {
    /// A number. `whole` holds it where it is a whole number from 0 to
    /// 2^64 - 1. `bits` is the single-precision number nearest to it, as that
    /// number's bit pattern.
    Number { whole: Option<u64>, bits: u32 },
    /// Anything that is not a number.
    Other,
}

/// One keyed value of a raw record.
#[derive(Debug, Clone, PartialEq, Eq)]
pub struct RawField {
    pub name: String,
    pub value: RawValue,
}

/// Whether `fields[i]` is named `name` and is the only field so named.
pub open spec fn is_sole_field(fields: Seq<RawField>, name: Seq<char>, i: int) -> bool {
    &&& 0 <= i < fields.len()
    &&& fields[i].name@ == name
    &&& forall|j: int| 0 <= j < fields.len() && (#[trigger] fields[j]).name@ == name ==> j == i
}

/// The value that a record holds under `name`: that of the one field so named.
/// A record with no such field, or with several, holds none.
pub open spec fn field_value(fields: Seq<RawField>, name: Seq<char>) -> Option<RawValue> {
    if exists|i: int| is_sole_field(fields, name, i) {
        Some(fields[choose|i: int| is_sole_field(fields, name, i)].value)
    } else {
        None
    }
}

/// The value that a record gives the skill at `index` of the catalog: a whole
/// number under the skill's name, within 32 bits unless the skill is the first.
pub open spec fn level_spec(fields: Seq<RawField>, index: int) -> Option<u64> {
    match field_value(fields, skill_name_spec(index)) {
        Some(RawValue::Number { whole: Some(v), bits }) => if index == 0 || v <= SKILL_MAX {
            Some(v)
        } else {
            None
        },
        _ => None,
    }
}

/// The efficiency score that a record gives: any number under its key.
pub open spec fn efficiency_spec(fields: Seq<RawField>) -> Option<u32> {
    match field_value(fields, efficiency_key()) {
        Some(RawValue::Number { whole, bits }) => Some(bits),
        _ => None,
    }
}

/// Whether a record gives every skill of the catalog and the efficiency score.
pub open spec fn is_complete(fields: Seq<RawField>) -> bool {
    &&& forall|i: int| 0 <= i < CATALOG_SIZE ==> (#[trigger] level_spec(fields, i)) is Some
    &&& efficiency_spec(fields) is Some
}

/// A record without a field under the name of some skill of the catalog does
/// not decode: the skill is not taken to be zero.
pub proof fn lemma_missing_skill_is_malformed(fields: Seq<RawField>, index: int)
    requires
        0 <= index < CATALOG_SIZE,
        forall|i: int| 0 <= i < fields.len() ==> (#[trigger] fields[i]).name@ != skill_name_spec(index),
    ensures
        Skills::decode_spec(fields) is None,
{
    assert(level_spec(fields, index) is None);
}

/// A record that decodes gives every skill of the catalog the value that
/// stands under the skill's name.
pub proof fn lemma_decoded_values(fields: Seq<RawField>, index: int)
    requires
        0 <= index < CATALOG_SIZE,
        Skills::decode_spec(fields) is Some,
    ensures
        Some(Skills::decode_spec(fields).unwrap().value_spec(index)) == level_spec(fields, index),
{
    assert(level_spec(fields, index) is Some);
}

/// Looks a name up in a record.
fn find_field(fields: &Vec<RawField>, name: &str) -> (value: Option<RawValue>)
    ensures
        value == field_value(fields@, name@),
{
    let wanted = String::from_str(name);
    let mut found: Option<usize> = None;
    let mut i: usize = 0;
    while i < fields.len()
        invariant
            i <= fields@.len(),
            wanted@ == name@,
            match found {
                Some(at) => {
                    &&& at < i
                    &&& fields@[at as int].name@ == name@
                    &&& forall|j: int|
                        0 <= j < i && (#[trigger] fields@[j]).name@ == name@ ==> j == at
                },
                None => forall|j: int| 0 <= j < i ==> (#[trigger] fields@[j]).name@ != name@,
            },
        decreases fields@.len() - i,
    {
        if fields[i].name == wanted {
            match found {
                Some(at) => {
                    assert forall|k: int| !is_sole_field(fields@, name@, k) by {
                        if is_sole_field(fields@, name@, k) {
                            assert(fields@[at as int].name@ == name@);
                            assert(fields@[i as int].name@ == name@);
                        }
                    }
                    return None;
                },
                None => {
                    found = Some(i);
                },
            }
        }
        i += 1;
    }
    match found {
        Some(at) => {
            assert(is_sole_field(fields@, name@, at as int));
            Some(fields[at].value)
        },
        None => None,
    }
}

impl Skills {
    /// The measurement that a raw record holds, where the record is complete.
    pub open spec fn decode_spec(fields: Seq<RawField>) -> Option<Skills> {
        if is_complete(fields) {
            Some(
                Skills {
                overall: level_spec(fields, 0).unwrap(),
                attack: level_spec(fields, 1).unwrap() as u32,
                defence: level_spec(fields, 2).unwrap() as u32,
                strength: level_spec(fields, 3).unwrap() as u32,
                hitpoints: level_spec(fields, 4).unwrap() as u32,
                ranged: level_spec(fields, 5).unwrap() as u32,
                prayer: level_spec(fields, 6).unwrap() as u32,
                magic: level_spec(fields, 7).unwrap() as u32,
                cooking: level_spec(fields, 8).unwrap() as u32,
                woodcutting: level_spec(fields, 9).unwrap() as u32,
                fletching: level_spec(fields, 10).unwrap() as u32,
                fishing: level_spec(fields, 11).unwrap() as u32,
                firemaking: level_spec(fields, 12).unwrap() as u32,
                crafting: level_spec(fields, 13).unwrap() as u32,
                smithing: level_spec(fields, 14).unwrap() as u32,
                mining: level_spec(fields, 15).unwrap() as u32,
                herblore: level_spec(fields, 16).unwrap() as u32,
                agility: level_spec(fields, 17).unwrap() as u32,
                thieving: level_spec(fields, 18).unwrap() as u32,
                slayer: level_spec(fields, 19).unwrap() as u32,
                farming: level_spec(fields, 20).unwrap() as u32,
                runecraft: level_spec(fields, 21).unwrap() as u32,
                hunter: level_spec(fields, 22).unwrap() as u32,
                construction: level_spec(fields, 23).unwrap() as u32,
                    ehp_bits: efficiency_spec(fields).unwrap(),
                },
            )
        } else {
            None
        }
    }

    /// Decodes one measurement from a raw record.
    ///
    /// Every skill of the catalog is mandatory, and so is the efficiency score:
    /// a record that lacks one, names one twice, or holds under a skill's name
    /// anything but a whole number in range is malformed. Nothing is filled in.
    /// Fields under other names are ignored.
    pub fn decode(fields: &Vec<RawField>) -> (result: Result<Skills, ErrorKind>)
        ensures
            match result {
                Ok(skills) => Skills::decode_spec(fields@) == Some(skills),
                Err(e) => Skills::decode_spec(fields@) is None && e == ErrorKind::MalformedSnapshot,
            },
    {
        let mut levels: Vec<u64> = Vec::new();
        let mut index: usize = 0;
        while index < CATALOG_SIZE
            invariant
                index <= CATALOG_SIZE,
                levels@.len() == index,
                forall|i: int| 0 <= i < index ==> Some(#[trigger] levels@[i]) == level_spec(fields@, i),
            decreases CATALOG_SIZE - index,
        {
            let level = match find_field(fields, name_at(index)) {
                Some(RawValue::Number { whole: Some(v), bits }) => v,
                _ => {
                    assert(level_spec(fields@, index as int) is None);
                    return Err(ErrorKind::MalformedSnapshot);
                },
            };
            if index != 0 && level > SKILL_MAX {
                assert(level_spec(fields@, index as int) is None);
                return Err(ErrorKind::MalformedSnapshot);
            }
            assert(level_spec(fields@, index as int) == Some(level));
            levels.push(level);
            index += 1;
        }
        let ehp_bits = match find_field(fields, "Ehp") {
            Some(RawValue::Number { whole, bits }) => bits,
            _ => {
                return Err(ErrorKind::MalformedSnapshot);
            },
        };
        let skills = Skills {
            overall: levels[0],
            attack: levels[1] as u32,
            defence: levels[2] as u32,
            strength: levels[3] as u32,
            hitpoints: levels[4] as u32,
            ranged: levels[5] as u32,
            prayer: levels[6] as u32,
            magic: levels[7] as u32,
            cooking: levels[8] as u32,
            woodcutting: levels[9] as u32,
            fletching: levels[10] as u32,
            fishing: levels[11] as u32,
            firemaking: levels[12] as u32,
            crafting: levels[13] as u32,
            smithing: levels[14] as u32,
            mining: levels[15] as u32,
            herblore: levels[16] as u32,
            agility: levels[17] as u32,
            thieving: levels[18] as u32,
            slayer: levels[19] as u32,
            farming: levels[20] as u32,
            runecraft: levels[21] as u32,
            hunter: levels[22] as u32,
            construction: levels[23] as u32,
            ehp_bits,
        };
        Ok(skills)
    }
}

} // verus!
