//! Code for armor

use crate::text::push_str;
use crate::world::item::{
    bracketed, enchant_text, push_bracketed, push_enchant, ItemStuff, ItemUsage,
};
use crate::world::WorldObjectId;
use vstd::prelude::*;

verus! {

/// The definition of a piece of armor
#[derive(Debug)]
pub struct Armor {
    /// Item definition id
    pub id: u32,
    /// item weight
    pub weight: u32,
    /// Graphics for inventory
    pub inventory_graphic: i16,
    /// Graphics for ground
    pub ground_graphic: u16,
    /// Unidentified name
    pub unidentified: String,
    /// Identified name
    pub identified: String,
    /// Maximum use time
    pub max_use_time: u32,
}

impl Clone for Armor {
    fn clone(&self) -> (r: Armor)
        ensures
            r == *self,
    {
        Armor {
            id: self.id,
            weight: self.weight,
            inventory_graphic: self.inventory_graphic,
            ground_graphic: self.ground_graphic,
            unidentified: self.unidentified.clone(),
            identified: self.identified.clone(),
            max_use_time: self.max_use_time,
        }
    }
}

impl Armor {
    /// Make an instance of the armor with the given world id
    pub fn get_instance(&self, world_id: WorldObjectId) -> (r: ArmorInstance)
        ensures
            r == (ArmorInstance { definition: *self, world_id }),
    {
        ArmorInstance { definition: self.clone(), world_id }
    }
}

/// A piece of armor in the world
#[derive(Debug)]
pub struct ArmorInstance {
    /// The armor definition
    pub definition: Armor,
    /// The world id
    pub world_id: WorldObjectId,
}

impl Clone for ArmorInstance {
    fn clone(&self) -> (r: ArmorInstance)
        ensures
            r == *self,
    {
        ArmorInstance { definition: self.definition.clone(), world_id: self.world_id }
    }
}

/// The description of a piece of armor: its enchantment level when identified and positive,
/// its identified or unidentified name, its maximum use time when identified and positive,
/// its count when above 1, and the mark of equipped armor
pub open spec fn armor_name(a: Armor, stuff: ItemStuff) -> Seq<char> {
    (if stuff.identified && stuff.enchanted_level > 0 {
        enchant_text(stuff.enchanted_level as nat)
    } else {
        Seq::empty()
    }) + (if stuff.identified {
        a.identified@
    } else {
        a.unidentified@
    }) + (if stuff.identified && a.max_use_time > 0 {
        bracketed(a.max_use_time as nat)
    } else {
        Seq::empty()
    }) + (if stuff.count > 1 {
        bracketed(stuff.count as nat)
    } else {
        Seq::empty()
    }) + (if stuff.equipped {
        " ($117)"@
    } else {
        Seq::empty()
    })
}

impl ArmorInstance {
    /// The id of the armor definition
    pub fn db_id(&self) -> (r: u32)
        ensures
            r == self.definition.id,
    {
        self.definition.id
    }

    /// Armor is used as armor
    pub fn usage(&self) -> (r: ItemUsage)
        ensures
            r == ItemUsage::Armor,
    {
        ItemUsage::Armor
    }

    /// The description of the armor with the given details
    pub fn name(&self, stuff: &ItemStuff) -> (r: String)
        ensures
            r@ == armor_name(self.definition, *stuff),
    {
        let mut description = String::new();
        if stuff.identified && stuff.enchanted_level > 0 {
            push_enchant(&mut description, stuff.enchanted_level as u32);
        }
        let ghost p1 = description@;
        if stuff.identified {
            push_str(&mut description, self.definition.identified.as_str());
        } else {
            push_str(&mut description, self.definition.unidentified.as_str());
        }
        let ghost p2 = description@;
        if stuff.identified && self.definition.max_use_time > 0 {
            push_bracketed(&mut description, self.definition.max_use_time);
        }
        let ghost p3 = description@;
        if stuff.count > 1 {
            push_bracketed(&mut description, stuff.count);
        }
        let ghost p4 = description@;
        if stuff.equipped {
            push_str(&mut description, " ($117)");
        }
        proof {
            assert(description@ =~= armor_name(self.definition, *stuff));
        }
        description
    }
}

} // verus!
