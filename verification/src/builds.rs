//! A build: a combatant template together with its item loadout. A scenario
//! clones working combatants from builds, so the template is never mutated.

use vstd::prelude::*;
use crate::champion::Champion;
use crate::item::Item;

verus! {

pub struct Build {
    pub champion: Champion,
    pub items: Vec<Item>,
}

impl Build {
    pub open spec fn wf(&self) -> bool {
        self.champion.wf()
    }

    pub fn new(champion: &Champion, items: Vec<Item>) -> (r: Build)
        ensures
            r.champion.name@ == champion.name@,
            r.champion.level == champion.level,
            r.champion.champ_stats == champion.champ_stats,
            r.champion.friendly_limited_use_on_hit_effects@
                == champion.friendly_limited_use_on_hit_effects@,
            r.champion.friendly_duration_on_hit_effects@
                == champion.friendly_duration_on_hit_effects@,
            r.champion.friendly_stacking_on_hit_effects@
                == champion.friendly_stacking_on_hit_effects@,
            r.champion.enemy_dot_on_hit_effects@ == champion.enemy_dot_on_hit_effects@,
            r.champion.enemy_stacking_on_hit_effects@ == champion.enemy_stacking_on_hit_effects@,
            r.items == items,
            champion.wf() ==> r.wf(),
    {
        Build { champion: champion.duplicate(), items }
    }
}

} // verus!
