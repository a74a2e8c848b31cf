//! Energy-related information about a device.

use vstd::prelude::*;

use crate::events::Float64;
use crate::text::{decimal, decimal_text};
use vstd::string::StringExecFns;
use crate::ordered_keys::{keys_contains, keys_get_index, keys_insert, keys_len, keys_new, set_keys, KeySet};

verus! {

/// Energy efficiency class.
#[derive(Debug, PartialEq, Eq, Hash, Clone, Copy, Structural)]
pub enum EnergyClass {
    /// A+++
    APlusPlusPlus,
    /// A++
    APlusPlus,
    /// A+
    APlus,
    /// A
    A,
    /// B
    B,
    /// C
    C,
    /// D
    D,
    /// E
    E,
    /// F
    F,
    /// G
    G,
}

impl EnergyClass {
    /// The name of each class.
    pub open spec fn name_spec(self) -> Seq<char> {
        match self {
            EnergyClass::APlusPlusPlus => "A+++"@,
            EnergyClass::APlusPlus => "A++"@,
            EnergyClass::APlus => "A+"@,
            EnergyClass::A => "A"@,
            EnergyClass::B => "B"@,
            EnergyClass::C => "C"@,
            EnergyClass::D => "D"@,
            EnergyClass::E => "E"@,
            EnergyClass::F => "F"@,
            EnergyClass::G => "G"@,
        }
    }

    /// The position of each class, from the most efficient one.
    pub open spec fn index_spec(self) -> u64 {
        match self {
            EnergyClass::APlusPlusPlus => 0,
            EnergyClass::APlusPlus => 1,
            EnergyClass::APlus => 2,
            EnergyClass::A => 3,
            EnergyClass::B => 4,
            EnergyClass::C => 5,
            EnergyClass::D => 6,
            EnergyClass::E => 7,
            EnergyClass::F => 8,
            EnergyClass::G => 9,
        }
    }

    /// The class at a position.
    pub open spec fn of_index(index: u64) -> EnergyClass {
        if index == 0 {
            EnergyClass::APlusPlusPlus
        } else if index == 1 {
            EnergyClass::APlusPlus
        } else if index == 2 {
            EnergyClass::APlus
        } else if index == 3 {
            EnergyClass::A
        } else if index == 4 {
            EnergyClass::B
        } else if index == 5 {
            EnergyClass::C
        } else if index == 6 {
            EnergyClass::D
        } else if index == 7 {
            EnergyClass::E
        } else if index == 8 {
            EnergyClass::F
        } else {
            EnergyClass::G
        }
    }

    /// Returns the name of the class.
    #[must_use]
    pub fn name(self) -> (name: &'static str)
        ensures
            name@ == self.name_spec(),
    {
        match self {
            EnergyClass::APlusPlusPlus => "A+++",
            EnergyClass::APlusPlus => "A++",
            EnergyClass::APlus => "A+",
            EnergyClass::A => "A",
            EnergyClass::B => "B",
            EnergyClass::C => "C",
            EnergyClass::D => "D",
            EnergyClass::E => "E",
            EnergyClass::F => "F",
            EnergyClass::G => "G",
        }
    }

    /// Returns the position of the class.
    pub(crate) fn index(self) -> (index: u64)
        ensures
            index == self.index_spec(),
            index < 10,
            Self::of_index(index) == self,
    {
        match self {
            EnergyClass::APlusPlusPlus => 0,
            EnergyClass::APlusPlus => 1,
            EnergyClass::APlus => 2,
            EnergyClass::A => 3,
            EnergyClass::B => 4,
            EnergyClass::C => 5,
            EnergyClass::D => 6,
            EnergyClass::E => 7,
            EnergyClass::F => 8,
            EnergyClass::G => 9,
        }
    }

    /// Returns the class at a position.
    pub(crate) fn from_index(index: u64) -> (class: Self)
        ensures
            class == Self::of_index(index),
            index < 10 ==> class.index_spec() == index,
    {
        match index {
            0 => EnergyClass::APlusPlusPlus,
            1 => EnergyClass::APlusPlus,
            2 => EnergyClass::APlus,
            3 => EnergyClass::A,
            4 => EnergyClass::B,
            5 => EnergyClass::C,
            6 => EnergyClass::D,
            7 => EnergyClass::E,
            8 => EnergyClass::F,
            _ => EnergyClass::G,
        }
    }
}

/// A percentage brought into the range from -100 to 100: a lower value
/// becomes -100, a higher one 100.
pub open spec fn clamp_percentage(percentage: i8) -> i8 {
    if percentage >= 100 {
        100i8
    } else if percentage <= -100 {
        (-100) as i8
    } else {
        percentage
    }
}

/// The key of a percentage with an energy class.
pub open spec fn percentage_key(percentage: i8, energy_class: EnergyClass) -> u64 {
    ((percentage + 128) * 16 + energy_class.index_spec()) as u64
}

/// Whether a key stands for a percentage with an energy class.
pub open spec fn percentage_key_valid(key: u64) -> bool {
    key / 16 < 256 && key % 16 < 10
}

/// Returns the key of a percentage with an energy class.
fn key_of_percentage(percentage: i8, energy_class: EnergyClass) -> (key: u64)
    ensures
        key == percentage_key(percentage, energy_class),
        percentage_key_valid(key),
        key / 16 == percentage + 128,
        key % 16 == energy_class.index_spec(),
{
    let shifted: u64 = (percentage as i64 + 128) as u64;
    shifted * 16 + energy_class.index()
}

/// The digits of a percentage without its sign.
pub open spec fn percentage_magnitude(percentage: i8) -> Seq<char> {
    decimal_text(
        (if percentage < 0 {
            -percentage
        } else {
            percentage as int
        }) as nat,
    )
}

/// Writes a percentage without its sign.
fn magnitude_text(percentage: i8) -> (text: String)
    ensures
        text@ == percentage_magnitude(percentage),
{
    let magnitude: u8 = if percentage < 0 {
        (-(percentage as i16)) as u8
    } else {
        percentage as u8
    };
    decimal(magnitude as usize)
}

/// Returns the percentage and the energy class that a key stands for.
fn percentage_of_key(key: u64) -> (item: (i8, EnergyClass))
    requires
        percentage_key_valid(key),
    ensures
        item.0 == key / 16 - 128,
        item.1 == EnergyClass::of_index(key % 16),
        percentage_key(item.0, item.1) == key,
{
    let percentage: i8 = ((key / 16) as i64 - 128) as i8;
    (percentage, EnergyClass::from_index(key % 16))
}

/// Energy efficiency.
#[derive(Debug, PartialEq, Eq, Hash, Clone, Copy, Structural)]
pub struct EnergyEfficiency {
    /// Represents the energy efficiency of an [`EnergyClass`] as a percentage.
    /// A negative value indicates the amount of saved energy, while a
    /// positive value indicates the amount of consumed energy.
    pub percentage: i8,
    /// Energy class.
    pub energy_class: EnergyClass,
}

impl EnergyEfficiency {
    /// The key that stands for the item in a collection.
    pub open spec fn key_spec(self) -> u64 {
        percentage_key(self.percentage, self.energy_class)
    }

    /// Whether a key stands for an item.
    pub open spec fn valid_key(key: u64) -> bool {
        percentage_key_valid(key)
    }

    /// The item that a key stands for.
    pub open spec fn of_key(key: u64) -> EnergyEfficiency {
        EnergyEfficiency {
            percentage: (key / 16 - 128) as i8,
            energy_class: EnergyClass::of_index(key % 16),
        }
    }

    /// Items and valid keys stand for each other, one to one.
    pub proof fn lemma_keys(item: EnergyEfficiency, key: u64)
        ensures
            Self::valid_key(item.key_spec()),
            Self::of_key(item.key_spec()) == item,
            Self::valid_key(key) ==> Self::of_key(key).key_spec() == key,
    {
    }

    /// Creates [`EnergyEfficiency`].
    ///
    /// If the `percentage` parameter is less than -100, it is set to -100.
    /// If the `percentage` parameter is greater than 100, it is set to 100.
    #[must_use]
    pub fn new(percentage: i8, energy_class: EnergyClass) -> (item: Self)
        ensures
            item.percentage == clamp_percentage(percentage),
            item.energy_class == energy_class,
            -100 <= item.percentage <= 100,
    {
        let percentage: i8 = if percentage >= 100 {
            100
        } else if percentage <= -100 {
            -100
        } else {
            percentage
        };
        EnergyEfficiency { percentage, energy_class }
    }

    /// The sentence that says what the percentage means.
    pub open spec fn text_spec(self) -> Seq<char> {
        "The device "@ + (if self.percentage < 0 {
            "saves"@
        } else {
            "consumes"@
        }) + " a "@ + percentage_magnitude(self.percentage) + "% of energy for the \""@
            + self.energy_class.name_spec() + "\" efficiency class"@
    }

    /// Says in a sentence what the percentage means: the percentage is
    /// written without its sign.
    #[must_use]
    pub fn text(&self) -> (text: String)
        ensures
            text@ == self.text_spec(),
    {
        String::from_str("The device ").concat(
            if self.percentage < 0 {
                "saves"
            } else {
                "consumes"
            },
        ).concat(" a ").concat(magnitude_text(self.percentage).as_str()).concat(
            "% of energy for the \"",
        ).concat(self.energy_class.name()).concat("\" efficiency class")
    }

    /// Returns the key that stands for the item.
    pub(crate) fn key(&self) -> (key: u64)
        ensures
            key == self.key_spec(),
    {
        key_of_percentage(self.percentage, self.energy_class)
    }

    /// Returns the item that a key stands for.
    pub(crate) fn from_key(key: u64) -> (item: Self)
        requires
            Self::valid_key(key),
        ensures
            item == Self::of_key(key),
    {
        let (percentage, energy_class) = percentage_of_key(key);
        EnergyEfficiency { percentage, energy_class }
    }
}

/// The sequence that holds `efficiency` once: `efficiencies` itself where it is already
/// there, else `efficiencies` with `efficiency` at the end.
pub open spec fn with_efficiency(efficiencies: Seq<EnergyEfficiency>, efficiency: EnergyEfficiency) -> Seq<EnergyEfficiency> {
    if efficiencies.contains(efficiency) {
        efficiencies
    } else {
        efficiencies.push(efficiency)
    }
}

/// A collection of [`EnergyEfficiency`]s.
///
/// Every item occurs at most once, and the items keep the order in which
/// they were first added. The underlying set stores each item by a key.
#[derive(Debug, PartialEq)]
pub struct EnergyEfficiencies {
    keys: KeySet,
}

impl Clone for EnergyEfficiencies {
    fn clone(&self) -> (copy: Self)
        ensures
            copy@ == self@,
            copy.wf() == self.wf(),
    {
        EnergyEfficiencies { keys: self.keys.clone() }
    }
}

impl View for EnergyEfficiencies {
    type V = Seq<EnergyEfficiency>;

    closed spec fn view(&self) -> Seq<EnergyEfficiency> {
        set_keys(self.keys).map_values(|key: u64| EnergyEfficiency::of_key(key))
    }
}

impl EnergyEfficiencies {
    /// Every stored key stands for an item, and none occurs twice.
    pub closed spec fn wf(&self) -> bool {
        &&& set_keys(self.keys).no_duplicates()
        &&& forall|i: int|
            0 <= i < set_keys(self.keys).len() ==> EnergyEfficiency::valid_key(
                #[trigger] set_keys(self.keys)[i],
            )
    }

    /// In a well-formed collection no item occurs twice.
    pub proof fn lemma_distinct(&self)
        requires
            self.wf(),
        ensures
            self@.no_duplicates(),
    {
    }

    /// A well-formed collection holds an item exactly when the underlying
    /// set holds its key.
    proof fn lemma_contains(&self, efficiency: EnergyEfficiency)
        requires
            self.wf(),
        ensures
            self@.contains(efficiency) <==> set_keys(self.keys).contains(efficiency.key_spec()),
    {
        let keys = set_keys(self.keys);
        if keys.contains(efficiency.key_spec()) {
            let i = choose|i: int| 0 <= i < keys.len() && keys[i] == efficiency.key_spec();
            assert(self@[i] == efficiency);
        }
    }

    /// Creates an empty collection.
    #[must_use]
    pub fn new() -> (efficiencies: Self)
        ensures
            efficiencies@ == Seq::<EnergyEfficiency>::empty(),
            efficiencies.wf(),
    {
        EnergyEfficiencies { keys: keys_new() }
    }

    /// Creates a collection that holds one item.
    #[must_use]
    pub fn init(efficiency: EnergyEfficiency) -> (efficiencies: Self)
        ensures
            efficiencies@ == seq![efficiency],
            efficiencies.wf(),
    {
        let mut efficiencies = EnergyEfficiencies::new();
        efficiencies.add(efficiency);
        efficiencies
    }

    /// Adds an item and returns the collection: an item that is already
    /// there stays where it is, a new one goes to the end.
    #[must_use]
    pub fn insert(self, efficiency: EnergyEfficiency) -> (efficiencies: Self)
        requires
            self.wf(),
        ensures
            efficiencies@ == with_efficiency(self@, efficiency),
            efficiencies.wf(),
    {
        let mut efficiencies = self;
        efficiencies.add(efficiency);
        efficiencies
    }

    /// Adds an item in place: an item that is already there stays where it
    /// is, a new one goes to the end.
    pub fn add(&mut self, efficiency: EnergyEfficiency)
        requires
            old(self).wf(),
        ensures
            final(self)@ == with_efficiency(old(self)@, efficiency),
            final(self).wf(),
    {
        proof {
            self.lemma_contains(efficiency);
        }
        keys_insert(&mut self.keys, efficiency.key());
    }

    /// Checks whether the collection holds the item.
    #[must_use]
    pub fn contains(&self, efficiency: &EnergyEfficiency) -> (found: bool)
        requires
            self.wf(),
        ensures
            found == self@.contains(*efficiency),
    {
        proof {
            self.lemma_contains(*efficiency);
        }
        keys_contains(&self.keys, efficiency.key())
    }

    /// Returns the number of items in the collection.
    #[must_use]
    pub fn len(&self) -> (len: usize)
        ensures
            len == self@.len(),
    {
        keys_len(&self.keys)
    }

    /// Checks whether the collection holds no item.
    #[must_use]
    pub fn is_empty(&self) -> (empty: bool)
        ensures
            empty == (self@.len() == 0),
    {
        keys_len(&self.keys) == 0
    }

    /// Returns the item at the given position of the insertion order, or
    /// `None` when the position is not below the length.
    #[must_use]
    pub fn get(&self, index: usize) -> (efficiency: Option<EnergyEfficiency>)
        requires
            self.wf(),
        ensures
            efficiency == if index < self@.len() {
                Some(self@[index as int])
            } else {
                None
            },
    {
        match keys_get_index(&self.keys, index) {
            Some(key) => Some(EnergyEfficiency::from_key(key)),
            None => None,
        }
    }
}

/// Carbon footprint.
#[derive(Debug, PartialEq, Eq, Hash, Clone, Copy, Structural)]
pub struct CarbonFootprint {
    /// Represents the amount of greenhouse gases emitted into the atmosphere
    /// by an [`EnergyClass`] as a percentage.
    /// A negative value indicates gases removed from the atmosphere, while a
    /// positive value indicates gases added to the atmosphere.
    pub percentage: i8,
    /// Energy class.
    pub energy_class: EnergyClass,
}

impl CarbonFootprint {
    /// The key that stands for the item in a collection.
    pub open spec fn key_spec(self) -> u64 {
        percentage_key(self.percentage, self.energy_class)
    }

    /// Whether a key stands for an item.
    pub open spec fn valid_key(key: u64) -> bool {
        percentage_key_valid(key)
    }

    /// The item that a key stands for.
    pub open spec fn of_key(key: u64) -> CarbonFootprint {
        CarbonFootprint {
            percentage: (key / 16 - 128) as i8,
            energy_class: EnergyClass::of_index(key % 16),
        }
    }

    /// Items and valid keys stand for each other, one to one.
    pub proof fn lemma_keys(item: CarbonFootprint, key: u64)
        ensures
            Self::valid_key(item.key_spec()),
            Self::of_key(item.key_spec()) == item,
            Self::valid_key(key) ==> Self::of_key(key).key_spec() == key,
    {
    }

    /// Creates [`CarbonFootprint`].
    ///
    /// If the `percentage` parameter is less than -100, it is set to -100.
    /// If the `percentage` parameter is greater than 100, it is set to 100.
    #[must_use]
    pub fn new(percentage: i8, energy_class: EnergyClass) -> (item: Self)
        ensures
            item.percentage == clamp_percentage(percentage),
            item.energy_class == energy_class,
            -100 <= item.percentage <= 100,
    {
        let percentage: i8 = if percentage >= 100 {
            100
        } else if percentage <= -100 {
            -100
        } else {
            percentage
        };
        CarbonFootprint { percentage, energy_class }
    }

    /// The sentence that says what the percentage means.
    pub open spec fn text_spec(self) -> Seq<char> {
        "The device "@ + (if self.percentage < 0 {
            "removes from"@
        } else {
            "adds to"@
        }) + " the atmosphere a "@ + percentage_magnitude(self.percentage) + "% of greenhouse gases for the \""@
            + self.energy_class.name_spec() + "\" efficiency class"@
    }

    /// Says in a sentence what the percentage means: the percentage is
    /// written without its sign.
    #[must_use]
    pub fn text(&self) -> (text: String)
        ensures
            text@ == self.text_spec(),
    {
        String::from_str("The device ").concat(
            if self.percentage < 0 {
                "removes from"
            } else {
                "adds to"
            },
        ).concat(" the atmosphere a ").concat(magnitude_text(self.percentage).as_str()).concat(
            "% of greenhouse gases for the \"",
        ).concat(self.energy_class.name()).concat("\" efficiency class")
    }

    /// Returns the key that stands for the item.
    pub(crate) fn key(&self) -> (key: u64)
        ensures
            key == self.key_spec(),
    {
        key_of_percentage(self.percentage, self.energy_class)
    }

    /// Returns the item that a key stands for.
    pub(crate) fn from_key(key: u64) -> (item: Self)
        requires
            Self::valid_key(key),
        ensures
            item == Self::of_key(key),
    {
        let (percentage, energy_class) = percentage_of_key(key);
        CarbonFootprint { percentage, energy_class }
    }
}

/// The sequence that holds `footprint` once: `footprints` itself where it is already
/// there, else `footprints` with `footprint` at the end.
pub open spec fn with_footprint(footprints: Seq<CarbonFootprint>, footprint: CarbonFootprint) -> Seq<CarbonFootprint> {
    if footprints.contains(footprint) {
        footprints
    } else {
        footprints.push(footprint)
    }
}

/// A collection of [`CarbonFootprint`]s.
///
/// Every item occurs at most once, and the items keep the order in which
/// they were first added. The underlying set stores each item by a key.
#[derive(Debug, PartialEq)]
pub struct CarbonFootprints {
    keys: KeySet,
}

impl Clone for CarbonFootprints {
    fn clone(&self) -> (copy: Self)
        ensures
            copy@ == self@,
            copy.wf() == self.wf(),
    {
        CarbonFootprints { keys: self.keys.clone() }
    }
}

impl View for CarbonFootprints {
    type V = Seq<CarbonFootprint>;

    closed spec fn view(&self) -> Seq<CarbonFootprint> {
        set_keys(self.keys).map_values(|key: u64| CarbonFootprint::of_key(key))
    }
}

impl CarbonFootprints {
    /// Every stored key stands for an item, and none occurs twice.
    pub closed spec fn wf(&self) -> bool {
        &&& set_keys(self.keys).no_duplicates()
        &&& forall|i: int|
            0 <= i < set_keys(self.keys).len() ==> CarbonFootprint::valid_key(
                #[trigger] set_keys(self.keys)[i],
            )
    }

    /// In a well-formed collection no item occurs twice.
    pub proof fn lemma_distinct(&self)
        requires
            self.wf(),
        ensures
            self@.no_duplicates(),
    {
    }

    /// A well-formed collection holds an item exactly when the underlying
    /// set holds its key.
    proof fn lemma_contains(&self, footprint: CarbonFootprint)
        requires
            self.wf(),
        ensures
            self@.contains(footprint) <==> set_keys(self.keys).contains(footprint.key_spec()),
    {
        let keys = set_keys(self.keys);
        if keys.contains(footprint.key_spec()) {
            let i = choose|i: int| 0 <= i < keys.len() && keys[i] == footprint.key_spec();
            assert(self@[i] == footprint);
        }
    }

    /// Creates an empty collection.
    #[must_use]
    pub fn new() -> (footprints: Self)
        ensures
            footprints@ == Seq::<CarbonFootprint>::empty(),
            footprints.wf(),
    {
        CarbonFootprints { keys: keys_new() }
    }

    /// Creates a collection that holds one item.
    #[must_use]
    pub fn init(footprint: CarbonFootprint) -> (footprints: Self)
        ensures
            footprints@ == seq![footprint],
            footprints.wf(),
    {
        let mut footprints = CarbonFootprints::new();
        footprints.add(footprint);
        footprints
    }

    /// Adds an item and returns the collection: an item that is already
    /// there stays where it is, a new one goes to the end.
    #[must_use]
    pub fn insert(self, footprint: CarbonFootprint) -> (footprints: Self)
        requires
            self.wf(),
        ensures
            footprints@ == with_footprint(self@, footprint),
            footprints.wf(),
    {
        let mut footprints = self;
        footprints.add(footprint);
        footprints
    }

    /// Adds an item in place: an item that is already there stays where it
    /// is, a new one goes to the end.
    pub fn add(&mut self, footprint: CarbonFootprint)
        requires
            old(self).wf(),
        ensures
            final(self)@ == with_footprint(old(self)@, footprint),
            final(self).wf(),
    {
        proof {
            self.lemma_contains(footprint);
        }
        keys_insert(&mut self.keys, footprint.key());
    }

    /// Checks whether the collection holds the item.
    #[must_use]
    pub fn contains(&self, footprint: &CarbonFootprint) -> (found: bool)
        requires
            self.wf(),
        ensures
            found == self@.contains(*footprint),
    {
        proof {
            self.lemma_contains(*footprint);
        }
        keys_contains(&self.keys, footprint.key())
    }

    /// Returns the number of items in the collection.
    #[must_use]
    pub fn len(&self) -> (len: usize)
        ensures
            len == self@.len(),
    {
        keys_len(&self.keys)
    }

    /// Checks whether the collection holds no item.
    #[must_use]
    pub fn is_empty(&self) -> (empty: bool)
        ensures
            empty == (self@.len() == 0),
    {
        keys_len(&self.keys) == 0
    }

    /// Returns the item at the given position of the insertion order, or
    /// `None` when the position is not below the length.
    #[must_use]
    pub fn get(&self, index: usize) -> (footprint: Option<CarbonFootprint>)
        requires
            self.wf(),
        ensures
            footprint == if index < self@.len() {
                Some(self@[index as int])
            } else {
                None
            },
    {
        match keys_get_index(&self.keys, index) {
            Some(key) => Some(CarbonFootprint::from_key(key)),
            None => None,
        }
    }
}

/// Water-Use Efficiency Data.
///
/// Each metric is held as the bit pattern of its floating-point value.
#[derive(Debug, PartialEq, Clone, Copy)]
pub struct WaterUseEfficiency {
    /// Gross Primary Productivity (GPP).
    pub gpp: Option<Float64>,
    /// Penman-Monteith Equation.
    pub penman_monteith_equation: Option<Float64>,
    /// Water Equivalent Ratio (WER).
    pub wer: Option<Float64>,
}

impl WaterUseEfficiency {
    /// Creates a [`WaterUseEfficiency`] initialized with the `GPP` metric.
    #[must_use]
    pub fn init_with_gpp(gpp: Float64) -> (efficiency: Self)
        ensures
            efficiency == (WaterUseEfficiency {
                gpp: Some(gpp),
                penman_monteith_equation: None,
                wer: None,
            }),
    {
        WaterUseEfficiency { gpp: Some(gpp), penman_monteith_equation: None, wer: None }
    }

    /// Creates a [`WaterUseEfficiency`] initialized with the
    /// `Penman-Monteith Equation` metric.
    #[must_use]
    pub fn init_with_penman_monteith_equation(penman_monteith_equation: Float64) -> (efficiency:
        Self)
        ensures
            efficiency == (WaterUseEfficiency {
                gpp: None,
                penman_monteith_equation: Some(penman_monteith_equation),
                wer: None,
            }),
    {
        WaterUseEfficiency {
            gpp: None,
            penman_monteith_equation: Some(penman_monteith_equation),
            wer: None,
        }
    }

    /// Creates a [`WaterUseEfficiency`] initialized with the
    /// `Water Equivalent Ratio (WER)` metric.
    #[must_use]
    pub fn init_with_wer(wer: Float64) -> (efficiency: Self)
        ensures
            efficiency == (WaterUseEfficiency {
                gpp: None,
                penman_monteith_equation: None,
                wer: Some(wer),
            }),
    {
        WaterUseEfficiency { gpp: None, penman_monteith_equation: None, wer: Some(wer) }
    }

    /// Adds the `GPP` metric.
    #[must_use]
    pub fn gpp(self, gpp: Float64) -> (efficiency: Self)
        ensures
            efficiency == (WaterUseEfficiency { gpp: Some(gpp), ..self }),
    {
        WaterUseEfficiency { gpp: Some(gpp), ..self }
    }

    /// Adds the `Penman-Monteith Equation` metric.
    #[must_use]
    pub fn penman_monteith_equation(self, penman_monteith_equation: Float64) -> (efficiency: Self)
        ensures
            efficiency == (WaterUseEfficiency {
                penman_monteith_equation: Some(penman_monteith_equation),
                ..self
            }),
    {
        WaterUseEfficiency { penman_monteith_equation: Some(penman_monteith_equation), ..self }
    }

    /// Adds the `Water Equivalent Ratio (WER)` metric.
    #[must_use]
    pub fn wer(self, wer: Float64) -> (efficiency: Self)
        ensures
            efficiency == (WaterUseEfficiency { wer: Some(wer), ..self }),
    {
        WaterUseEfficiency { wer: Some(wer), ..self }
    }
}

/// Energy information of a device.
#[derive(Debug, PartialEq, Clone)]
pub struct Energy {
    /// Energy efficiencies.
    pub energy_efficiencies: Option<EnergyEfficiencies>,
    /// Carbon footprints.
    pub carbon_footprints: Option<CarbonFootprints>,
    /// Water-Use efficiency.
    pub water_use_efficiency: Option<WaterUseEfficiency>,
}

impl Energy {
    /// Creates an empty [`Energy`].
    #[must_use]
    pub fn empty() -> (energy: Self)
        ensures
            energy == (Energy {
                energy_efficiencies: None,
                carbon_footprints: None,
                water_use_efficiency: None,
            }),
    {
        Energy { energy_efficiencies: None, carbon_footprints: None, water_use_efficiency: None }
    }

    /// Creates a [`Energy`] initialized with the [`EnergyEfficiencies`] data.
    #[must_use]
    pub fn init_with_energy_efficiencies(energy_efficiencies: EnergyEfficiencies) -> (energy: Self)
        ensures
            energy == (Energy {
                energy_efficiencies: Some(energy_efficiencies),
                carbon_footprints: None,
                water_use_efficiency: None,
            }),
    {
        Energy {
            energy_efficiencies: Some(energy_efficiencies),
            carbon_footprints: None,
            water_use_efficiency: None,
        }
    }

    /// Creates a [`Energy`] initialized with the [`CarbonFootprints`] data.
    #[must_use]
    pub fn init_with_carbon_footprints(carbon_footprints: CarbonFootprints) -> (energy: Self)
        ensures
            energy == (Energy {
                energy_efficiencies: None,
                carbon_footprints: Some(carbon_footprints),
                water_use_efficiency: None,
            }),
    {
        Energy {
            energy_efficiencies: None,
            carbon_footprints: Some(carbon_footprints),
            water_use_efficiency: None,
        }
    }

    /// Creates a [`Energy`] initialized with the [`WaterUseEfficiency`] data.
    #[must_use]
    pub fn init_with_water_use_efficiency(water_use_efficiency: WaterUseEfficiency) -> (energy:
        Self)
        ensures
            energy == (Energy {
                energy_efficiencies: None,
                carbon_footprints: None,
                water_use_efficiency: Some(water_use_efficiency),
            }),
    {
        Energy {
            energy_efficiencies: None,
            carbon_footprints: None,
            water_use_efficiency: Some(water_use_efficiency),
        }
    }

    /// Adds the [`EnergyEfficiencies`] data.
    #[must_use]
    pub fn energy_efficiencies(self, energy_efficiencies: EnergyEfficiencies) -> (energy: Self)
        ensures
            energy == (Energy { energy_efficiencies: Some(energy_efficiencies), ..self }),
    {
        let mut energy = self;
        energy.energy_efficiencies = Some(energy_efficiencies);
        energy
    }

    /// Adds the [`CarbonFootprints`] data.
    #[must_use]
    pub fn carbon_footprints(self, carbon_footprints: CarbonFootprints) -> (energy: Self)
        ensures
            energy == (Energy { carbon_footprints: Some(carbon_footprints), ..self }),
    {
        let mut energy = self;
        energy.carbon_footprints = Some(carbon_footprints);
        energy
    }

    /// Adds the [`WaterUseEfficiency`] data.
    #[must_use]
    pub fn water_use_efficiency(self, water_use_efficiency: WaterUseEfficiency) -> (energy: Self)
        ensures
            energy == (Energy { water_use_efficiency: Some(water_use_efficiency), ..self }),
    {
        let mut energy = self;
        energy.water_use_efficiency = Some(water_use_efficiency);
        energy
    }

    /// Checks if [`Energy`] is **entirely** empty.
    #[must_use]
    pub fn is_empty(&self) -> (empty: bool)
        ensures
            empty == (self.energy_efficiencies is None && self.carbon_footprints is None
                && self.water_use_efficiency is None),
    {
        self.energy_efficiencies.is_none() && self.carbon_footprints.is_none()
            && self.water_use_efficiency.is_none()
    }
}

} // verus!
