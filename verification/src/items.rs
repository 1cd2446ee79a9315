//! The registry of Slimefun item definitions.
use vstd::prelude::*;
use vstd::hash_map::StringHashMap;

verus! {

broadcast use vstd::string::to_string_from_display_ensures_for_str;

#[derive(Debug, Clone, Copy, PartialEq, Eq, Hash)]
pub enum SlimefunCategory {
    Resources,
    Energy,
    Cargo,
    Machinery,
    Tools,
    Weapons,
    Armor,
    Magic,
    Agriculture,
    Storage,
    Endgame,
}

#[derive(Debug, Clone)]
pub struct SlimefunItemSpec {
    pub id: String,
    pub name: String,
    pub category: SlimefunCategory,
    pub recipe_type: String,
    pub recipe_inputs: Vec<String>,
    pub recipe_output_count: u32,
    pub is_electric: bool,
    pub capacity_joules: u64,
    pub energy_consumption_per_tick: u64,
}

/// The view of an item definition: its strings as character sequences.
pub struct ItemSpecView {
    pub id: Seq<char>,
    pub name: Seq<char>,
    pub category: SlimefunCategory,
    pub recipe_type: Seq<char>,
    pub recipe_inputs: Seq<Seq<char>>,
    pub recipe_output_count: u32,
    pub is_electric: bool,
    pub capacity_joules: u64,
    pub energy_consumption_per_tick: u64,
}

pub open spec fn string_views(v: Seq<String>) -> Seq<Seq<char>> {
    v.map_values(|s: String| s@)
}

impl View for SlimefunItemSpec {
    type V = ItemSpecView;

    open spec fn view(&self) -> ItemSpecView {
        ItemSpecView {
            id: self.id@,
            name: self.name@,
            category: self.category,
            recipe_type: self.recipe_type@,
            recipe_inputs: string_views(self.recipe_inputs@),
            recipe_output_count: self.recipe_output_count,
            is_electric: self.is_electric,
            capacity_joules: self.capacity_joules,
            energy_consumption_per_tick: self.energy_consumption_per_tick,
        }
    }
}

/// The basic dusts the registry starts with: id and display name.
pub open spec fn starter_dusts() -> Seq<(Seq<char>, Seq<char>)> {
    seq![
        ("IRON_DUST"@, "Polvo de Hierro"@),
        ("GOLD_DUST"@, "Polvo de Oro"@),
        ("COPPER_DUST"@, "Polvo de Cobre"@),
        ("TIN_DUST"@, "Polvo de Estaño"@),
        ("LEAD_DUST"@, "Polvo de Plomo"@),
        ("SILVER_DUST"@, "Polvo de Plata"@),
        ("ALUMINUM_DUST"@, "Polvo de Aluminio"@),
        ("ZINC_DUST"@, "Polvo de Zinc"@),
        ("MAGNESIUM_DUST"@, "Polvo de Magnesio"@),
    ]
}

/// A dust: a resource washed out of sifted ore, one per recipe, using no energy.
pub open spec fn dust_view(id: Seq<char>, name: Seq<char>) -> ItemSpecView {
    ItemSpecView {
        id,
        name,
        category: SlimefunCategory::Resources,
        recipe_type: "ORE_WASHER"@,
        recipe_inputs: seq!["SIFTED_ORE"@],
        recipe_output_count: 1,
        is_electric: false,
        capacity_joules: 0,
        energy_consumption_per_tick: 0,
    }
}

/// The first `n` starter dusts, by id.
pub open spec fn dust_entries(n: nat) -> Map<Seq<char>, ItemSpecView>
    decreases n,
{
    if n == 0 {
        Map::empty()
    } else {
        let (id, name) = starter_dusts()[n - 1];
        dust_entries((n - 1) as nat).insert(id, dust_view(id, name))
    }
}

pub open spec fn solar_generator_view() -> ItemSpecView {
    ItemSpecView {
        id: "SOLAR_GENERATOR"@,
        name: "Generador Solar I"@,
        category: SlimefunCategory::Energy,
        recipe_type: "ENHANCED_CRAFTING_TABLE"@,
        recipe_inputs: seq!["SOLAR_PANEL"@, "BASIC_CIRCUIT_BOARD"@],
        recipe_output_count: 1,
        is_electric: true,
        capacity_joules: 1000,
        energy_consumption_per_tick: 0,
    }
}

pub open spec fn electric_smelter_view() -> ItemSpecView {
    ItemSpecView {
        id: "ELECTRIC_SMELTER"@,
        name: "Fundidor Eléctrico I"@,
        category: SlimefunCategory::Machinery,
        recipe_type: "ENHANCED_CRAFTING_TABLE"@,
        recipe_inputs: seq!["HEATING_COIL"@, "ELECTRIC_MOTOR"@],
        recipe_output_count: 1,
        is_electric: true,
        capacity_joules: 2000,
        energy_consumption_per_tick: 24,
    }
}

/// The definitions a new registry holds: the starter dusts, then the solar generator
/// and the electric smelter.
pub open spec fn starter_items() -> Map<Seq<char>, ItemSpecView> {
    dust_entries(9).insert("SOLAR_GENERATOR"@, solar_generator_view()).insert(
        "ELECTRIC_SMELTER"@,
        electric_smelter_view(),
    )
}

pub struct SlimefunItemRegistry {
    items: StringHashMap<SlimefunItemSpec>,
}

impl View for SlimefunItemRegistry {
    type V = Map<Seq<char>, ItemSpecView>;

    closed spec fn view(&self) -> Map<Seq<char>, ItemSpecView> {
        self.items@.map_values(|s: SlimefunItemSpec| s@)
    }
}

fn string_list2(a: &str, b: &str) -> (v: Vec<String>)
    ensures
        string_views(v@) == seq![a@, b@],
{
    let v = vec![a.to_string(), b.to_string()];
    assert(string_views(v@) =~= seq![a@, b@]);
    v
}

impl SlimefunItemRegistry {
    pub fn new() -> (r: Self)
        ensures
            r@ == starter_items(),
            r@.dom().finite(),
    {
        proof {
            lemma_starter_items_finite();
        }
        let mut items: StringHashMap<SlimefunItemSpec> = StringHashMap::new();

        // Basic Slimefun dusts and ingots.
        let dusts = [
            ("IRON_DUST", "Polvo de Hierro", "RESOURCE"),
            ("GOLD_DUST", "Polvo de Oro", "RESOURCE"),
            ("COPPER_DUST", "Polvo de Cobre", "RESOURCE"),
            ("TIN_DUST", "Polvo de Estaño", "RESOURCE"),
            ("LEAD_DUST", "Polvo de Plomo", "RESOURCE"),
            ("SILVER_DUST", "Polvo de Plata", "RESOURCE"),
            ("ALUMINUM_DUST", "Polvo de Aluminio", "RESOURCE"),
            ("ZINC_DUST", "Polvo de Zinc", "RESOURCE"),
            ("MAGNESIUM_DUST", "Polvo de Magnesio", "RESOURCE"),
        ];
        assert(dusts@.map_values(|t: (&str, &str, &str)| (t.0@, t.1@)) =~= starter_dusts());

        let mut i: usize = 0;
        while i < 9
            invariant
                i <= 9,
                dusts@.len() == 9,
                dusts@.map_values(|t: (&str, &str, &str)| (t.0@, t.1@)) == starter_dusts(),
                items@.map_values(|s: SlimefunItemSpec| s@) == dust_entries(i as nat),
            decreases 9 - i,
        {
            let (id, name, _cat) = dusts[i];
            assert((id@, name@) == starter_dusts()[i as int]);
            let inputs = vec!["SIFTED_ORE".to_string()];
            assert(string_views(inputs@) =~= seq!["SIFTED_ORE"@]);
            let spec = SlimefunItemSpec {
                id: id.to_string(),
                name: name.to_string(),
                category: SlimefunCategory::Resources,
                recipe_type: "ORE_WASHER".to_string(),
                recipe_inputs: inputs,
                recipe_output_count: 1,
                is_electric: false,
                capacity_joules: 0,
                energy_consumption_per_tick: 0,
            };
            let ghost before = items@;
            items.insert(id.to_string(), spec);
            assert(items@.map_values(|s: SlimefunItemSpec| s@) =~= before.map_values(
                |s: SlimefunItemSpec| s@,
            ).insert(id@, spec@));
            i += 1;
        }

        // Electric machinery and energy.
        let solar = SlimefunItemSpec {
            id: "SOLAR_GENERATOR".to_string(),
            name: "Generador Solar I".to_string(),
            category: SlimefunCategory::Energy,
            recipe_type: "ENHANCED_CRAFTING_TABLE".to_string(),
            recipe_inputs: string_list2("SOLAR_PANEL", "BASIC_CIRCUIT_BOARD"),
            recipe_output_count: 1,
            is_electric: true,
            capacity_joules: 1000,
            energy_consumption_per_tick: 0,
        };
        let ghost before = items@;
        items.insert("SOLAR_GENERATOR".to_string(), solar);
        assert(items@.map_values(|s: SlimefunItemSpec| s@) =~= before.map_values(|s: SlimefunItemSpec| s@).insert(
            "SOLAR_GENERATOR"@,
            solar_generator_view(),
        ));

        let smelter = SlimefunItemSpec {
            id: "ELECTRIC_SMELTER".to_string(),
            name: "Fundidor Eléctrico I".to_string(),
            category: SlimefunCategory::Machinery,
            recipe_type: "ENHANCED_CRAFTING_TABLE".to_string(),
            recipe_inputs: string_list2("HEATING_COIL", "ELECTRIC_MOTOR"),
            recipe_output_count: 1,
            is_electric: true,
            capacity_joules: 2000,
            energy_consumption_per_tick: 24,
        };
        let ghost before = items@;
        items.insert("ELECTRIC_SMELTER".to_string(), smelter);
        assert(items@.map_values(|s: SlimefunItemSpec| s@) =~= before.map_values(|s: SlimefunItemSpec| s@).insert(
            "ELECTRIC_SMELTER"@,
            electric_smelter_view(),
        ));

        Self { items }
    }

    /// The definition registered under `id`, if any.
    pub fn get(&self, id: &str) -> (res: Option<&SlimefunItemSpec>)
        ensures
            match res {
                Some(s) => self@.contains_key(id@) && s@ == self@[id@],
                None => !self@.contains_key(id@),
            },
    {
        self.items.get(id)
    }

    /// Registers a definition under its id, replacing any earlier one.
    pub fn register_item(&mut self, spec: SlimefunItemSpec)
        requires
            old(self)@.dom().finite(),
        ensures
            final(self)@ == old(self)@.insert(spec.id@, spec@),
            final(self)@.dom().finite(),
    {
        let ghost before = self.items@;
        let id = spec.id.clone();
        self.items.insert(id, spec);
        assert(self.items@.map_values(|s: SlimefunItemSpec| s@) =~= before.map_values(|s: SlimefunItemSpec| s@).insert(
            spec.id@,
            spec@,
        ));
    }

    /// How many definitions are registered.
    pub fn count(&self) -> (n: usize)
        ensures
            n as nat == self@.len(),
    {
        assert(self@.dom() =~= self.items@.dom());
        self.items.len()
    }
}


/// Every definition is registered under its own id.
pub open spec fn keyed_by_id(m: Map<Seq<char>, ItemSpecView>) -> bool {
    forall|k: Seq<char>| #[trigger] m.contains_key(k) ==> m[k].id == k
}

proof fn lemma_dust_entries_keyed_by_id(n: nat)
    requires
        n <= 9,
    ensures
        keyed_by_id(dust_entries(n)),
    decreases n,
{
    if n > 0 {
        lemma_dust_entries_keyed_by_id((n - 1) as nat);
    }
}

/// The registry files every definition under its id: a new registry does, and
/// registering a definition keeps it so; the definition is then what a lookup of its
/// id gives back.
pub proof fn lemma_registry_keys_items_by_id(m: Map<Seq<char>, ItemSpecView>, s: ItemSpecView)
    ensures
        keyed_by_id(starter_items()),
        keyed_by_id(m) ==> keyed_by_id(m.insert(s.id, s)),
        m.insert(s.id, s).contains_key(s.id) && m.insert(s.id, s)[s.id] == s,
{
    lemma_dust_entries_keyed_by_id(9);
}


proof fn lemma_dust_entries_finite(n: nat)
    ensures
        dust_entries(n).dom().finite(),
    decreases n,
{
    broadcast use vstd::map::group_map_axioms, vstd::set::group_set_axioms;
    if n > 0 {
        lemma_dust_entries_finite((n - 1) as nat);
    }
}

/// A new registry holds finitely many definitions.
proof fn lemma_starter_items_finite()
    ensures
        starter_items().dom().finite(),
{
    broadcast use vstd::map::group_map_axioms, vstd::set::group_set_axioms;
    lemma_dust_entries_finite(9);
}

/// Registering a definition adds one to the count unless its id was already
/// registered, in which case the earlier definition is replaced.
pub proof fn lemma_register_count(m: Map<Seq<char>, ItemSpecView>, s: ItemSpecView)
    requires
        m.dom().finite(),
    ensures
        m.insert(s.id, s).dom().finite(),
        m.insert(s.id, s).len() == m.len() + (if m.contains_key(s.id) {
            0int
        } else {
            1int
        }),
{
    broadcast use vstd::map::group_map_axioms, vstd::set::group_set_axioms;
    if m.contains_key(s.id) {
        assert(m.insert(s.id, s).dom() =~= m.dom());
    }
}


/// The energy facts of a definition hang together: an item is electric exactly when
/// it has an energy buffer, only electric items consume energy, and every item of
/// the Energy category is electric.
pub open spec fn energy_consistent(v: ItemSpecView) -> bool {
    &&& v.is_electric <==> v.capacity_joules > 0
    &&& v.energy_consumption_per_tick > 0 ==> v.is_electric
    &&& v.category == SlimefunCategory::Energy ==> v.is_electric
}

proof fn lemma_dust_entries_are_plain_resources(n: nat)
    requires
        n <= 9,
    ensures
        forall|k: Seq<char>| #[trigger] dust_entries(n).contains_key(k) ==> {
            &&& dust_entries(n)[k].category == SlimefunCategory::Resources
            &&& !dust_entries(n)[k].is_electric
            &&& dust_entries(n)[k].capacity_joules == 0
            &&& dust_entries(n)[k].energy_consumption_per_tick == 0
        },
    decreases n,
{
    if n > 0 {
        lemma_dust_entries_are_plain_resources((n - 1) as nat);
    }
}

/// In a new registry every definition's energy facts hang together, the dusts are
/// plain resources that use no energy, and the generator and the smelter are
/// electric items with an energy buffer.
pub proof fn lemma_starter_items_energy()
    ensures
        forall|k: Seq<char>| #[trigger] starter_items().contains_key(k) ==> energy_consistent(starter_items()[k]),
        forall|k: Seq<char>| #[trigger] starter_items().contains_key(k) && starter_items()[k].category
            == SlimefunCategory::Resources ==> !starter_items()[k].is_electric,
        starter_items().contains_key("SOLAR_GENERATOR"@) && starter_items()["SOLAR_GENERATOR"@].is_electric
            && starter_items()["SOLAR_GENERATOR"@].capacity_joules > 0,
        starter_items().contains_key("ELECTRIC_SMELTER"@) && starter_items()["ELECTRIC_SMELTER"@].is_electric
            && starter_items()["ELECTRIC_SMELTER"@].energy_consumption_per_tick > 0,
{
    lemma_dust_entries_are_plain_resources(9);
    let d = dust_entries(9);
    let m1 = d.insert("SOLAR_GENERATOR"@, solar_generator_view());
    assert forall|k: Seq<char>| #[trigger] starter_items().contains_key(k) implies energy_consistent(starter_items()[k]) && (starter_items()[k].category
        == SlimefunCategory::Resources ==> !starter_items()[k].is_electric) by {
        if k != "ELECTRIC_SMELTER"@ && k != "SOLAR_GENERATOR"@ {
            assert(d.contains_key(k));
        }
    }
}

} // verus!
