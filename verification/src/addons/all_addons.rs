//! The catalogue of integrated addons and the native tick dispatcher.
use vstd::prelude::*;
use vstd::hash_map::StringHashMap;
use crate::block_storage::SlimefunBlockData;

verus! {

broadcast use vstd::string::to_string_from_display_ensures_for_str;

#[derive(Debug, Clone)]
pub struct SlimefunAddonDescriptor {
    pub id: &'static str,
    pub name: &'static str,
    pub category: &'static str,
    pub active: bool,
}

/// The integrated addons, in catalogue order.
pub open spec fn addon_catalog() -> Seq<SlimefunAddonDescriptor> {
    seq![
        SlimefunAddonDescriptor { id: "networks_v6", name: "NetworksV6-Drake", category: "CARGO_ENERGY", active: true },
        SlimefunAddonDescriptor { id: "fluffy_machines", name: "FluffyMachines", category: "AUTOMATION", active: true },
        SlimefunAddonDescriptor { id: "supreme_drake", name: "Supreme-Drake", category: "ADVANCED_TECH", active: true },
        SlimefunAddonDescriptor { id: "dynatech", name: "DynaTech", category: "AUTOMATION", active: true },
        SlimefunAddonDescriptor { id: "infinity_expansion", name: "InfinityExpansion", category: "ENDGAME", active: true },
        SlimefunAddonDescriptor { id: "advanced_tech", name: "AdvancedTech", category: "MACHINERY", active: true },
        SlimefunAddonDescriptor { id: "alchimia_vitae", name: "AlchimiaVitae", category: "MAGIC", active: true },
        SlimefunAddonDescriptor { id: "better_chests", name: "BetterChests", category: "STORAGE", active: true },
        SlimefunAddonDescriptor { id: "chest_terminal", name: "ChestTerminal", category: "STORAGE", active: true },
        SlimefunAddonDescriptor { id: "colored_ender_chests", name: "ColoredEnderChests", category: "STORAGE", active: true },
        SlimefunAddonDescriptor { id: "cultivation", name: "Cultivation", category: "AGRICULTURE", active: true },
        SlimefunAddonDescriptor { id: "dank_tech_2", name: "DankTech2", category: "STORAGE", active: true },
        SlimefunAddonDescriptor { id: "dye_bench", name: "DyeBench", category: "CRAFTING", active: true },
        SlimefunAddonDescriptor { id: "dyed_backpacks", name: "DyedBackpacks", category: "STORAGE", active: true },
        SlimefunAddonDescriptor { id: "eco_power", name: "EcoPower", category: "ENERGY", active: true },
        SlimefunAddonDescriptor { id: "electric_spawners", name: "ElectricSpawners", category: "MOBS", active: true },
        SlimefunAddonDescriptor { id: "element_manipulation", name: "ElementManipulation", category: "MAGIC", active: true },
        SlimefunAddonDescriptor { id: "exotic_garden", name: "ExoticGarden", category: "AGRICULTURE", active: true },
        SlimefunAddonDescriptor { id: "extra_gear", name: "ExtraGear", category: "WEAPONS_ARMOR", active: true },
        SlimefunAddonDescriptor { id: "extra_tools", name: "ExtraTools", category: "TOOLS", active: true },
        SlimefunAddonDescriptor { id: "fast_machines", name: "FastMachines", category: "AUTOMATION", active: true },
        SlimefunAddonDescriptor { id: "flower_power", name: "FlowerPower", category: "AGRICULTURE", active: true },
        SlimefunAddonDescriptor { id: "fn_amplifications", name: "FNAmplifications", category: "MACHINERY", active: true },
        SlimefunAddonDescriptor { id: "foxy_machines", name: "FoxyMachines", category: "AUTOMATION", active: true },
        SlimefunAddonDescriptor { id: "galaxyfun", name: "Galaxyfun", category: "SPACE_ENDGAME", active: true },
        SlimefunAddonDescriptor { id: "genetic_chickengineering", name: "GeneticChickengineering", category: "MOBS", active: true },
        SlimefunAddonDescriptor { id: "hotbar_pets", name: "HotbarPets", category: "ITEMS", active: true },
        SlimefunAddonDescriptor { id: "litexpansion", name: "LiteXpansion", category: "MACHINERY", active: true },
        SlimefunAddonDescriptor { id: "mob_capturer", name: "MobCapturer", category: "MOBS", active: true },
        SlimefunAddonDescriptor { id: "more_researches", name: "MoreResearches", category: "RESEARCH", active: true },
        SlimefunAddonDescriptor { id: "potion_expansion", name: "PotionExpansion", category: "MAGIC", active: true },
        SlimefunAddonDescriptor { id: "relics_of_cthonia", name: "RelicsOfCthonia", category: "MAGIC_WEAPONS", active: true },
        SlimefunAddonDescriptor { id: "sensible_toolbox", name: "SensibleToolbox", category: "AUTOMATION", active: true },
        SlimefunAddonDescriptor { id: "sfcalc", name: "SFCalc", category: "UTILITY", active: true },
        SlimefunAddonDescriptor { id: "simple_material_generators", name: "SimpleMaterialGenerators", category: "GENERATORS", active: true },
        SlimefunAddonDescriptor { id: "slime_frame", name: "SlimeFrame", category: "UTILITY", active: true },
        SlimefunAddonDescriptor { id: "slimefun_lucky_blocks", name: "SlimefunLuckyBlocks", category: "FUN", active: true },
        SlimefunAddonDescriptor { id: "slime_hud", name: "SlimeHUD", category: "UI", active: true },
        SlimefunAddonDescriptor { id: "slime_tinker", name: "SlimeTinker", category: "WEAPONS", active: true },
        SlimefunAddonDescriptor { id: "slimy_tree_taps", name: "SlimyTreeTaps", category: "AGRICULTURE", active: true },
        SlimefunAddonDescriptor { id: "soul_jars", name: "SoulJars", category: "MOBS", active: true },
        SlimefunAddonDescriptor { id: "transcendence", name: "TranscEndence", category: "ENDGAME", active: true },
        SlimefunAddonDescriptor { id: "worldedit_slimefun", name: "WorldEditSlimefun", category: "WORLD_BUILDING", active: true },
        SlimefunAddonDescriptor { id: "drakes_slime_market", name: "DrakesSlimeMarket", category: "ECONOMY", active: true },
    ]
}

/// The ids of the catalogued addons.
pub open spec fn catalog_ids() -> Set<Seq<char>> {
    Set::new(|k: Seq<char>| exists|i: int| 0 <= i < addon_catalog().len() && #[trigger] addon_catalog()[i].id@ == k)
}

/// The native tick handler an addon is registered with.
#[derive(Debug, Clone, Copy, PartialEq, Eq)]
pub enum AddonTicker {
    /// The handler every catalogued addon starts with.
    Default,
}

/// What a handler reports for one machine tick.
pub open spec fn ticker_result(t: AddonTicker) -> u64 {
    match t {
        AddonTicker::Default => 1,
    }
}

/// Processes the native tick of an addon's block.
fn default_addon_ticker(_block: &SlimefunBlockData) -> (r: u64)
    ensures
        r == 1,
{
    1
}

impl AddonTicker {
    pub fn run(&self, block: &SlimefunBlockData) -> (r: u64)
        ensures
            r == ticker_result(*self),
    {
        match self {
            AddonTicker::Default => default_addon_ticker(block),
        }
    }
}

/// What dispatching a tick to `addon_id` returns: the handler's result, or 0 for an
/// addon with no handler.
pub open spec fn dispatch_result(handlers: Map<Seq<char>, AddonTicker>, addon_id: Seq<char>) -> u64 {
    if handlers.contains_key(addon_id) {
        ticker_result(handlers[addon_id])
    } else {
        0
    }
}

/// The handlers a new registry holds: the default one for every catalogued addon.
pub open spec fn catalog_handlers() -> Map<Seq<char>, AddonTicker> {
    Map::new(|k: Seq<char>| catalog_ids().contains(k), |k: Seq<char>| AddonTicker::Default)
}

pub struct AllAddonsRegistry {
    addon_listeners: StringHashMap<AddonTicker>,
}

impl View for AllAddonsRegistry {
    type V = Map<Seq<char>, AddonTicker>;

    closed spec fn view(&self) -> Map<Seq<char>, AddonTicker> {
        self.addon_listeners@
    }
}

impl AllAddonsRegistry {
    /// Registers the native tick dispatcher of every catalogued addon.
    pub fn new() -> (r: Self)
        ensures
            r@ == catalog_handlers(),
    {
        let mut listeners: StringHashMap<AddonTicker> = StringHashMap::new();
        let addons = Self::get_all_44_addons();
        let n = addons.len();
        let mut i: usize = 0;
        while i < n
            invariant
                n == addons@.len(),
                addons@ == addon_catalog(),
                i <= n,
                listeners@ == Map::new(
                    |k: Seq<char>| exists|j: int| 0 <= j < i && #[trigger] addon_catalog()[j].id@ == k,
                    |k: Seq<char>| AddonTicker::Default,
                ),
            decreases n - i,
        {
            let id = addons[i].id;
            listeners.insert(id.to_string(), AddonTicker::Default);
            assert(listeners@ =~= Map::new(
                |k: Seq<char>| exists|j: int| 0 <= j < i + 1 && #[trigger] addon_catalog()[j].id@ == k,
                |k: Seq<char>| AddonTicker::Default,
            )) by {
                assert(addon_catalog()[i as int].id@ == id@);
            }
            i += 1;
        }
        assert(listeners@ =~= catalog_handlers());
        Self { addon_listeners: listeners }
    }

    /// Runs the tick handler registered for `addon_id` on `block`; an addon with no
    /// handler gets 0.
    pub fn dispatch_machine_tick(&self, addon_id: &str, block: &SlimefunBlockData) -> (r: u64)
        ensures
            r == dispatch_result(self@, addon_id@),
    {
        match self.addon_listeners.get(addon_id) {
            Some(ticker) => ticker.run(block),
            None => 0,
        }
    }

    /// The integrated addons.
    pub fn get_all_44_addons() -> (addons: Vec<SlimefunAddonDescriptor>)
        ensures
            addons@ == addon_catalog(),
    {
        vec![
            SlimefunAddonDescriptor { id: "networks_v6", name: "NetworksV6-Drake", category: "CARGO_ENERGY", active: true },
            SlimefunAddonDescriptor { id: "fluffy_machines", name: "FluffyMachines", category: "AUTOMATION", active: true },
            SlimefunAddonDescriptor { id: "supreme_drake", name: "Supreme-Drake", category: "ADVANCED_TECH", active: true },
            SlimefunAddonDescriptor { id: "dynatech", name: "DynaTech", category: "AUTOMATION", active: true },
            SlimefunAddonDescriptor { id: "infinity_expansion", name: "InfinityExpansion", category: "ENDGAME", active: true },
            SlimefunAddonDescriptor { id: "advanced_tech", name: "AdvancedTech", category: "MACHINERY", active: true },
            SlimefunAddonDescriptor { id: "alchimia_vitae", name: "AlchimiaVitae", category: "MAGIC", active: true },
            SlimefunAddonDescriptor { id: "better_chests", name: "BetterChests", category: "STORAGE", active: true },
            SlimefunAddonDescriptor { id: "chest_terminal", name: "ChestTerminal", category: "STORAGE", active: true },
            SlimefunAddonDescriptor { id: "colored_ender_chests", name: "ColoredEnderChests", category: "STORAGE", active: true },
            SlimefunAddonDescriptor { id: "cultivation", name: "Cultivation", category: "AGRICULTURE", active: true },
            SlimefunAddonDescriptor { id: "dank_tech_2", name: "DankTech2", category: "STORAGE", active: true },
            SlimefunAddonDescriptor { id: "dye_bench", name: "DyeBench", category: "CRAFTING", active: true },
            SlimefunAddonDescriptor { id: "dyed_backpacks", name: "DyedBackpacks", category: "STORAGE", active: true },
            SlimefunAddonDescriptor { id: "eco_power", name: "EcoPower", category: "ENERGY", active: true },
            SlimefunAddonDescriptor { id: "electric_spawners", name: "ElectricSpawners", category: "MOBS", active: true },
            SlimefunAddonDescriptor { id: "element_manipulation", name: "ElementManipulation", category: "MAGIC", active: true },
            SlimefunAddonDescriptor { id: "exotic_garden", name: "ExoticGarden", category: "AGRICULTURE", active: true },
            SlimefunAddonDescriptor { id: "extra_gear", name: "ExtraGear", category: "WEAPONS_ARMOR", active: true },
            SlimefunAddonDescriptor { id: "extra_tools", name: "ExtraTools", category: "TOOLS", active: true },
            SlimefunAddonDescriptor { id: "fast_machines", name: "FastMachines", category: "AUTOMATION", active: true },
            SlimefunAddonDescriptor { id: "flower_power", name: "FlowerPower", category: "AGRICULTURE", active: true },
            SlimefunAddonDescriptor { id: "fn_amplifications", name: "FNAmplifications", category: "MACHINERY", active: true },
            SlimefunAddonDescriptor { id: "foxy_machines", name: "FoxyMachines", category: "AUTOMATION", active: true },
            SlimefunAddonDescriptor { id: "galaxyfun", name: "Galaxyfun", category: "SPACE_ENDGAME", active: true },
            SlimefunAddonDescriptor { id: "genetic_chickengineering", name: "GeneticChickengineering", category: "MOBS", active: true },
            SlimefunAddonDescriptor { id: "hotbar_pets", name: "HotbarPets", category: "ITEMS", active: true },
            SlimefunAddonDescriptor { id: "litexpansion", name: "LiteXpansion", category: "MACHINERY", active: true },
            SlimefunAddonDescriptor { id: "mob_capturer", name: "MobCapturer", category: "MOBS", active: true },
            SlimefunAddonDescriptor { id: "more_researches", name: "MoreResearches", category: "RESEARCH", active: true },
            SlimefunAddonDescriptor { id: "potion_expansion", name: "PotionExpansion", category: "MAGIC", active: true },
            SlimefunAddonDescriptor { id: "relics_of_cthonia", name: "RelicsOfCthonia", category: "MAGIC_WEAPONS", active: true },
            SlimefunAddonDescriptor { id: "sensible_toolbox", name: "SensibleToolbox", category: "AUTOMATION", active: true },
            SlimefunAddonDescriptor { id: "sfcalc", name: "SFCalc", category: "UTILITY", active: true },
            SlimefunAddonDescriptor { id: "simple_material_generators", name: "SimpleMaterialGenerators", category: "GENERATORS", active: true },
            SlimefunAddonDescriptor { id: "slime_frame", name: "SlimeFrame", category: "UTILITY", active: true },
            SlimefunAddonDescriptor { id: "slimefun_lucky_blocks", name: "SlimefunLuckyBlocks", category: "FUN", active: true },
            SlimefunAddonDescriptor { id: "slime_hud", name: "SlimeHUD", category: "UI", active: true },
            SlimefunAddonDescriptor { id: "slime_tinker", name: "SlimeTinker", category: "WEAPONS", active: true },
            SlimefunAddonDescriptor { id: "slimy_tree_taps", name: "SlimyTreeTaps", category: "AGRICULTURE", active: true },
            SlimefunAddonDescriptor { id: "soul_jars", name: "SoulJars", category: "MOBS", active: true },
            SlimefunAddonDescriptor { id: "transcendence", name: "TranscEndence", category: "ENDGAME", active: true },
            SlimefunAddonDescriptor { id: "worldedit_slimefun", name: "WorldEditSlimefun", category: "WORLD_BUILDING", active: true },
            SlimefunAddonDescriptor { id: "drakes_slime_market", name: "DrakesSlimeMarket", category: "ECONOMY", active: true },
        ]
    }
}



/// The place of an id in the catalogue, or -1 for an id it does not list.
spec fn catalog_slot(id: Seq<char>) -> int {
    if id == "networks_v6"@ {
        0
    } else if id == "fluffy_machines"@ {
        1
    } else if id == "supreme_drake"@ {
        2
    } else if id == "dynatech"@ {
        3
    } else if id == "infinity_expansion"@ {
        4
    } else if id == "advanced_tech"@ {
        5
    } else if id == "alchimia_vitae"@ {
        6
    } else if id == "better_chests"@ {
        7
    } else if id == "chest_terminal"@ {
        8
    } else if id == "colored_ender_chests"@ {
        9
    } else if id == "cultivation"@ {
        10
    } else if id == "dank_tech_2"@ {
        11
    } else if id == "dye_bench"@ {
        12
    } else if id == "dyed_backpacks"@ {
        13
    } else if id == "eco_power"@ {
        14
    } else if id == "electric_spawners"@ {
        15
    } else if id == "element_manipulation"@ {
        16
    } else if id == "exotic_garden"@ {
        17
    } else if id == "extra_gear"@ {
        18
    } else if id == "extra_tools"@ {
        19
    } else if id == "fast_machines"@ {
        20
    } else if id == "flower_power"@ {
        21
    } else if id == "fn_amplifications"@ {
        22
    } else if id == "foxy_machines"@ {
        23
    } else if id == "galaxyfun"@ {
        24
    } else if id == "genetic_chickengineering"@ {
        25
    } else if id == "hotbar_pets"@ {
        26
    } else if id == "litexpansion"@ {
        27
    } else if id == "mob_capturer"@ {
        28
    } else if id == "more_researches"@ {
        29
    } else if id == "potion_expansion"@ {
        30
    } else if id == "relics_of_cthonia"@ {
        31
    } else if id == "sensible_toolbox"@ {
        32
    } else if id == "sfcalc"@ {
        33
    } else if id == "simple_material_generators"@ {
        34
    } else if id == "slime_frame"@ {
        35
    } else if id == "slimefun_lucky_blocks"@ {
        36
    } else if id == "slime_hud"@ {
        37
    } else if id == "slime_tinker"@ {
        38
    } else if id == "slimy_tree_taps"@ {
        39
    } else if id == "soul_jars"@ {
        40
    } else if id == "transcendence"@ {
        41
    } else if id == "worldedit_slimefun"@ {
        42
    } else if id == "drakes_slime_market"@ {
        43
    } else {
        -1
    }
}

/// The catalogue holds 44 addons, no two with the same id, so each addon has a place
/// of its own in the dispatcher.
pub proof fn lemma_catalog_ids_distinct()
    ensures
        addon_catalog().len() == 44,
        forall|i: int, j: int| 0 <= i < j < addon_catalog().len() ==> #[trigger] addon_catalog()[i].id@ != #[trigger] addon_catalog()[j].id@,
{
    reveal_strlit("networks_v6");
    reveal_strlit("fluffy_machines");
    reveal_strlit("supreme_drake");
    reveal_strlit("dynatech");
    reveal_strlit("infinity_expansion");
    reveal_strlit("advanced_tech");
    reveal_strlit("alchimia_vitae");
    reveal_strlit("better_chests");
    reveal_strlit("chest_terminal");
    reveal_strlit("colored_ender_chests");
    reveal_strlit("cultivation");
    reveal_strlit("dank_tech_2");
    reveal_strlit("dye_bench");
    reveal_strlit("dyed_backpacks");
    reveal_strlit("eco_power");
    reveal_strlit("electric_spawners");
    reveal_strlit("element_manipulation");
    reveal_strlit("exotic_garden");
    reveal_strlit("extra_gear");
    reveal_strlit("extra_tools");
    reveal_strlit("fast_machines");
    reveal_strlit("flower_power");
    reveal_strlit("fn_amplifications");
    reveal_strlit("foxy_machines");
    reveal_strlit("galaxyfun");
    reveal_strlit("genetic_chickengineering");
    reveal_strlit("hotbar_pets");
    reveal_strlit("litexpansion");
    reveal_strlit("mob_capturer");
    reveal_strlit("more_researches");
    reveal_strlit("potion_expansion");
    reveal_strlit("relics_of_cthonia");
    reveal_strlit("sensible_toolbox");
    reveal_strlit("sfcalc");
    reveal_strlit("simple_material_generators");
    reveal_strlit("slime_frame");
    reveal_strlit("slimefun_lucky_blocks");
    reveal_strlit("slime_hud");
    reveal_strlit("slime_tinker");
    reveal_strlit("slimy_tree_taps");
    reveal_strlit("soul_jars");
    reveal_strlit("transcendence");
    reveal_strlit("worldedit_slimefun");
    reveal_strlit("drakes_slime_market");
    assert("networks_v6"@.len() == 11);
    assert("fluffy_machines"@.len() == 15);
    assert("supreme_drake"@.len() == 13);
    assert("dynatech"@.len() == 8);
    assert("infinity_expansion"@.len() == 18);
    assert("advanced_tech"@.len() == 13);
    assert("alchimia_vitae"@.len() == 14);
    assert("better_chests"@.len() == 13);
    assert("chest_terminal"@.len() == 14);
    assert("colored_ender_chests"@.len() == 20);
    assert("cultivation"@.len() == 11);
    assert("dank_tech_2"@.len() == 11);
    assert("dye_bench"@.len() == 9);
    assert("dyed_backpacks"@.len() == 14);
    assert("eco_power"@.len() == 9);
    assert("electric_spawners"@.len() == 17);
    assert("element_manipulation"@.len() == 20);
    assert("exotic_garden"@.len() == 13);
    assert("extra_gear"@.len() == 10);
    assert("extra_tools"@.len() == 11);
    assert("fast_machines"@.len() == 13);
    assert("flower_power"@.len() == 12);
    assert("fn_amplifications"@.len() == 17);
    assert("foxy_machines"@.len() == 13);
    assert("galaxyfun"@.len() == 9);
    assert("genetic_chickengineering"@.len() == 24);
    assert("hotbar_pets"@.len() == 11);
    assert("litexpansion"@.len() == 12);
    assert("mob_capturer"@.len() == 12);
    assert("more_researches"@.len() == 15);
    assert("potion_expansion"@.len() == 16);
    assert("relics_of_cthonia"@.len() == 17);
    assert("sensible_toolbox"@.len() == 16);
    assert("sfcalc"@.len() == 6);
    assert("simple_material_generators"@.len() == 26);
    assert("slime_frame"@.len() == 11);
    assert("slimefun_lucky_blocks"@.len() == 21);
    assert("slime_hud"@.len() == 9);
    assert("slime_tinker"@.len() == 12);
    assert("slimy_tree_taps"@.len() == 15);
    assert("soul_jars"@.len() == 9);
    assert("transcendence"@.len() == 13);
    assert("worldedit_slimefun"@.len() == 18);
    assert("drakes_slime_market"@.len() == 19);
    assert("advanced_tech"@[0] != "supreme_drake"@[0]);
    assert("better_chests"@[0] != "supreme_drake"@[0]);
    assert("better_chests"@[0] != "advanced_tech"@[0]);
    assert("chest_terminal"@[0] != "alchimia_vitae"@[0]);
    assert("cultivation"@[0] != "networks_v6"@[0]);
    assert("dank_tech_2"@[0] != "networks_v6"@[0]);
    assert("dank_tech_2"@[0] != "cultivation"@[0]);
    assert("dyed_backpacks"@[0] != "alchimia_vitae"@[0]);
    assert("dyed_backpacks"@[0] != "chest_terminal"@[0]);
    assert("eco_power"@[0] != "dye_bench"@[0]);
    assert("element_manipulation"@[0] != "colored_ender_chests"@[0]);
    assert("exotic_garden"@[0] != "supreme_drake"@[0]);
    assert("exotic_garden"@[0] != "advanced_tech"@[0]);
    assert("exotic_garden"@[0] != "better_chests"@[0]);
    assert("extra_tools"@[0] != "networks_v6"@[0]);
    assert("extra_tools"@[0] != "cultivation"@[0]);
    assert("extra_tools"@[0] != "dank_tech_2"@[0]);
    assert("fast_machines"@[0] != "supreme_drake"@[0]);
    assert("fast_machines"@[0] != "advanced_tech"@[0]);
    assert("fast_machines"@[0] != "better_chests"@[0]);
    assert("fast_machines"@[0] != "exotic_garden"@[0]);
    assert("fn_amplifications"@[0] != "electric_spawners"@[0]);
    assert("foxy_machines"@[0] != "supreme_drake"@[0]);
    assert("foxy_machines"@[0] != "advanced_tech"@[0]);
    assert("foxy_machines"@[0] != "better_chests"@[0]);
    assert("foxy_machines"@[0] != "exotic_garden"@[0]);
    assert("foxy_machines"@[1] != "fast_machines"@[1]);
    assert("galaxyfun"@[0] != "dye_bench"@[0]);
    assert("galaxyfun"@[0] != "eco_power"@[0]);
    assert("hotbar_pets"@[0] != "networks_v6"@[0]);
    assert("hotbar_pets"@[0] != "cultivation"@[0]);
    assert("hotbar_pets"@[0] != "dank_tech_2"@[0]);
    assert("hotbar_pets"@[0] != "extra_tools"@[0]);
    assert("litexpansion"@[0] != "flower_power"@[0]);
    assert("mob_capturer"@[0] != "flower_power"@[0]);
    assert("mob_capturer"@[0] != "litexpansion"@[0]);
    assert("more_researches"@[0] != "fluffy_machines"@[0]);
    assert("relics_of_cthonia"@[0] != "electric_spawners"@[0]);
    assert("relics_of_cthonia"@[0] != "fn_amplifications"@[0]);
    assert("sensible_toolbox"@[0] != "potion_expansion"@[0]);
    assert("slime_frame"@[0] != "networks_v6"@[0]);
    assert("slime_frame"@[0] != "cultivation"@[0]);
    assert("slime_frame"@[0] != "dank_tech_2"@[0]);
    assert("slime_frame"@[0] != "extra_tools"@[0]);
    assert("slime_frame"@[0] != "hotbar_pets"@[0]);
    assert("slime_hud"@[0] != "dye_bench"@[0]);
    assert("slime_hud"@[0] != "eco_power"@[0]);
    assert("slime_hud"@[0] != "galaxyfun"@[0]);
    assert("slime_tinker"@[0] != "flower_power"@[0]);
    assert("slime_tinker"@[0] != "litexpansion"@[0]);
    assert("slime_tinker"@[0] != "mob_capturer"@[0]);
    assert("slimy_tree_taps"@[0] != "fluffy_machines"@[0]);
    assert("slimy_tree_taps"@[0] != "more_researches"@[0]);
    assert("soul_jars"@[0] != "dye_bench"@[0]);
    assert("soul_jars"@[0] != "eco_power"@[0]);
    assert("soul_jars"@[0] != "galaxyfun"@[0]);
    assert("soul_jars"@[1] != "slime_hud"@[1]);
    assert("transcendence"@[0] != "supreme_drake"@[0]);
    assert("transcendence"@[0] != "advanced_tech"@[0]);
    assert("transcendence"@[0] != "better_chests"@[0]);
    assert("transcendence"@[0] != "exotic_garden"@[0]);
    assert("transcendence"@[0] != "fast_machines"@[0]);
    assert("transcendence"@[0] != "foxy_machines"@[0]);
    assert("worldedit_slimefun"@[0] != "infinity_expansion"@[0]);
    assert(catalog_slot(addon_catalog()[0].id@) == 0);
    assert(catalog_slot(addon_catalog()[1].id@) == 1);
    assert(catalog_slot(addon_catalog()[2].id@) == 2);
    assert(catalog_slot(addon_catalog()[3].id@) == 3);
    assert(catalog_slot(addon_catalog()[4].id@) == 4);
    assert(catalog_slot(addon_catalog()[5].id@) == 5);
    assert(catalog_slot(addon_catalog()[6].id@) == 6);
    assert(catalog_slot(addon_catalog()[7].id@) == 7);
    assert(catalog_slot(addon_catalog()[8].id@) == 8);
    assert(catalog_slot(addon_catalog()[9].id@) == 9);
    assert(catalog_slot(addon_catalog()[10].id@) == 10);
    assert(catalog_slot(addon_catalog()[11].id@) == 11);
    assert(catalog_slot(addon_catalog()[12].id@) == 12);
    assert(catalog_slot(addon_catalog()[13].id@) == 13);
    assert(catalog_slot(addon_catalog()[14].id@) == 14);
    assert(catalog_slot(addon_catalog()[15].id@) == 15);
    assert(catalog_slot(addon_catalog()[16].id@) == 16);
    assert(catalog_slot(addon_catalog()[17].id@) == 17);
    assert(catalog_slot(addon_catalog()[18].id@) == 18);
    assert(catalog_slot(addon_catalog()[19].id@) == 19);
    assert(catalog_slot(addon_catalog()[20].id@) == 20);
    assert(catalog_slot(addon_catalog()[21].id@) == 21);
    assert(catalog_slot(addon_catalog()[22].id@) == 22);
    assert(catalog_slot(addon_catalog()[23].id@) == 23);
    assert(catalog_slot(addon_catalog()[24].id@) == 24);
    assert(catalog_slot(addon_catalog()[25].id@) == 25);
    assert(catalog_slot(addon_catalog()[26].id@) == 26);
    assert(catalog_slot(addon_catalog()[27].id@) == 27);
    assert(catalog_slot(addon_catalog()[28].id@) == 28);
    assert(catalog_slot(addon_catalog()[29].id@) == 29);
    assert(catalog_slot(addon_catalog()[30].id@) == 30);
    assert(catalog_slot(addon_catalog()[31].id@) == 31);
    assert(catalog_slot(addon_catalog()[32].id@) == 32);
    assert(catalog_slot(addon_catalog()[33].id@) == 33);
    assert(catalog_slot(addon_catalog()[34].id@) == 34);
    assert(catalog_slot(addon_catalog()[35].id@) == 35);
    assert(catalog_slot(addon_catalog()[36].id@) == 36);
    assert(catalog_slot(addon_catalog()[37].id@) == 37);
    assert(catalog_slot(addon_catalog()[38].id@) == 38);
    assert(catalog_slot(addon_catalog()[39].id@) == 39);
    assert(catalog_slot(addon_catalog()[40].id@) == 40);
    assert(catalog_slot(addon_catalog()[41].id@) == 41);
    assert(catalog_slot(addon_catalog()[42].id@) == 42);
    assert(catalog_slot(addon_catalog()[43].id@) == 43);
    assert forall|i: int| 0 <= i < 44 implies catalog_slot(#[trigger] addon_catalog()[i].id@) == i by {
    }
}

/// A new registry dispatches a tick to exactly the catalogued addons, each of which
/// reports one unit of work; any other id gets 0.
pub proof fn lemma_new_registry_dispatches_catalog(addon_id: Seq<char>)
    ensures
        dispatch_result(catalog_handlers(), addon_id) == (if catalog_ids().contains(addon_id) {
            1u64
        } else {
            0u64
        }),
{
}

} // verus!
