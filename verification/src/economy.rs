//! Economic information about a device.

use vstd::prelude::*;

use crate::energy::EnergyClass;
use crate::text::{decimal, decimal_text};
use vstd::string::StringExecFns;
use crate::ordered_keys::{keys_contains, keys_get_index, keys_insert, keys_len, keys_new, set_keys, KeySet};

verus! {

/// Timespan selected to estimate the device costs.
#[derive(Debug, PartialEq, Eq, Hash, Clone, Copy, Structural)]
pub enum CostTimespan {
    /// Week.
    Week,
    /// Month.
    Month,
    /// Year.
    Year,
}

impl CostTimespan {
    /// The name of each timespan.
    pub open spec fn name_spec(self) -> Seq<char> {
        match self {
            CostTimespan::Week => "week"@,
            CostTimespan::Month => "month"@,
            CostTimespan::Year => "year"@,
        }
    }

    /// The position of each timespan, from the shortest one.
    pub open spec fn index_spec(self) -> u64 {
        match self {
            CostTimespan::Week => 0,
            CostTimespan::Month => 1,
            CostTimespan::Year => 2,
        }
    }

    /// The timespan at a position.
    pub open spec fn of_index(index: u64) -> CostTimespan {
        if index == 0 {
            CostTimespan::Week
        } else if index == 1 {
            CostTimespan::Month
        } else {
            CostTimespan::Year
        }
    }

    /// Returns the name of the timespan.
    #[must_use]
    pub fn name(self) -> (name: &'static str)
        ensures
            name@ == self.name_spec(),
    {
        match self {
            CostTimespan::Week => "week",
            CostTimespan::Month => "month",
            CostTimespan::Year => "year",
        }
    }
}

/// Device cost.
#[derive(Debug, PartialEq, Eq, Hash, Clone, Copy, Structural)]
pub struct Cost {
    /// Amount of money in USD currency.
    /// A negative value indicates savings during the considered
    /// timespan, while a positive value indicates expenditures in the
    /// considered timespan.
    pub usd_currency: i32,
    /// Considered timespan to estimate the costs.
    pub timespan: CostTimespan,
}

impl Cost {
    /// The key that stands for the cost in a collection.
    pub open spec fn key_spec(self) -> u64 {
        ((self.usd_currency + 0x8000_0000) * 4 + self.timespan.index_spec()) as u64
    }

    /// Whether a key stands for a cost.
    pub open spec fn valid_key(key: u64) -> bool {
        key / 4 < 0x1_0000_0000 && key % 4 < 3
    }

    /// The cost that a key stands for.
    pub open spec fn of_key(key: u64) -> Cost {
        Cost {
            usd_currency: (key / 4 - 0x8000_0000) as i32,
            timespan: CostTimespan::of_index(key % 4),
        }
    }

    /// Costs and valid keys stand for each other, one to one.
    pub proof fn lemma_keys(item: Cost, key: u64)
        ensures
            Self::valid_key(item.key_spec()),
            Self::of_key(item.key_spec()) == item,
            Self::valid_key(key) ==> Self::of_key(key).key_spec() == key,
    {
    }

    /// Creates a [`Cost`].
    #[must_use]
    pub fn new(usd_currency: i32, timespan: CostTimespan) -> (cost: Self)
        ensures
            cost.usd_currency == usd_currency,
            cost.timespan == timespan,
    {
        Cost { usd_currency, timespan }
    }

    /// The sentence that says what the device saves or spends.
    pub open spec fn text_spec(self) -> Seq<char> {
        "The device "@ + (if self.usd_currency < 0 {
            "saves"@
        } else {
            "spends"@
        }) + " "@ + decimal_text(
            (if self.usd_currency < 0 {
                -self.usd_currency
            } else {
                self.usd_currency as int
            }) as nat,
        ) + " USD in a "@ + self.timespan.name_spec() + " timespan"@
    }

    /// Says in a sentence what the device saves or spends: the amount is
    /// written without its sign.
    #[must_use]
    pub fn text(&self) -> (text: String)
        ensures
            text@ == self.text_spec(),
    {
        let amount: u32 = if self.usd_currency < 0 {
            (-(self.usd_currency as i64)) as u32
        } else {
            self.usd_currency as u32
        };
        String::from_str("The device ").concat(
            if self.usd_currency < 0 {
                "saves"
            } else {
                "spends"
            },
        ).concat(" ").concat(decimal(amount as usize).as_str()).concat(" USD in a ").concat(
            self.timespan.name(),
        ).concat(" timespan")
    }

    /// Returns the key that stands for the cost.
    pub(crate) fn key(&self) -> (key: u64)
        ensures
            key == self.key_spec(),
    {
        let shifted: u64 = (self.usd_currency as i64 + 0x8000_0000) as u64;
        let index: u64 = match self.timespan {
            CostTimespan::Week => 0,
            CostTimespan::Month => 1,
            CostTimespan::Year => 2,
        };
        shifted * 4 + index
    }

    /// Returns the cost that a key stands for.
    pub(crate) fn from_key(key: u64) -> (cost: Self)
        requires
            Self::valid_key(key),
        ensures
            cost == Self::of_key(key),
    {
        let usd_currency: i32 = ((key / 4) as i64 - 0x8000_0000) as i32;
        let timespan = match key % 4 {
            0 => CostTimespan::Week,
            1 => CostTimespan::Month,
            _ => CostTimespan::Year,
        };
        Cost { usd_currency, timespan }
    }
}

/// The sequence that holds `cost` once: `costs` itself where it is already
/// there, else `costs` with `cost` at the end.
pub open spec fn with_cost(costs: Seq<Cost>, cost: Cost) -> Seq<Cost> {
    if costs.contains(cost) {
        costs
    } else {
        costs.push(cost)
    }
}

/// All device [`Cost`]s.
///
/// Every item occurs at most once, and the items keep the order in which
/// they were first added. The underlying set stores each item by a key.
#[derive(Debug, PartialEq)]
pub struct Costs {
    keys: KeySet,
}

impl Clone for Costs {
    fn clone(&self) -> (copy: Self)
        ensures
            copy@ == self@,
            copy.wf() == self.wf(),
    {
        Costs { keys: self.keys.clone() }
    }
}

impl View for Costs {
    type V = Seq<Cost>;

    closed spec fn view(&self) -> Seq<Cost> {
        set_keys(self.keys).map_values(|key: u64| Cost::of_key(key))
    }
}

impl Costs {
    /// Every stored key stands for an item, and none occurs twice.
    pub closed spec fn wf(&self) -> bool {
        &&& set_keys(self.keys).no_duplicates()
        &&& forall|i: int|
            0 <= i < set_keys(self.keys).len() ==> Cost::valid_key(
                #[trigger] set_keys(self.keys)[i],
            )
    }

    /// In a well-formed collection no item occurs twice.
    pub proof fn lemma_distinct(&self)
        requires
            self.wf(),
        ensures
            self@.no_duplicates(),
    {
    }

    /// A well-formed collection holds an item exactly when the underlying
    /// set holds its key.
    proof fn lemma_contains(&self, cost: Cost)
        requires
            self.wf(),
        ensures
            self@.contains(cost) <==> set_keys(self.keys).contains(cost.key_spec()),
    {
        let keys = set_keys(self.keys);
        if keys.contains(cost.key_spec()) {
            let i = choose|i: int| 0 <= i < keys.len() && keys[i] == cost.key_spec();
            assert(self@[i] == cost);
        }
    }

    /// Creates an empty collection.
    #[must_use]
    pub fn new() -> (costs: Self)
        ensures
            costs@ == Seq::<Cost>::empty(),
            costs.wf(),
    {
        Costs { keys: keys_new() }
    }

    /// Creates a collection that holds one item.
    #[must_use]
    pub fn init(cost: Cost) -> (costs: Self)
        ensures
            costs@ == seq![cost],
            costs.wf(),
    {
        let mut costs = Costs::new();
        costs.add(cost);
        costs
    }

    /// Adds an item and returns the collection: an item that is already
    /// there stays where it is, a new one goes to the end.
    #[must_use]
    pub fn insert(self, cost: Cost) -> (costs: Self)
        requires
            self.wf(),
        ensures
            costs@ == with_cost(self@, cost),
            costs.wf(),
    {
        let mut costs = self;
        costs.add(cost);
        costs
    }

    /// Adds an item in place: an item that is already there stays where it
    /// is, a new one goes to the end.
    pub fn add(&mut self, cost: Cost)
        requires
            old(self).wf(),
        ensures
            final(self)@ == with_cost(old(self)@, cost),
            final(self).wf(),
    {
        proof {
            self.lemma_contains(cost);
        }
        keys_insert(&mut self.keys, cost.key());
    }

    /// Checks whether the collection holds the item.
    #[must_use]
    pub fn contains(&self, cost: &Cost) -> (found: bool)
        requires
            self.wf(),
        ensures
            found == self@.contains(*cost),
    {
        proof {
            self.lemma_contains(*cost);
        }
        keys_contains(&self.keys, cost.key())
    }

    /// Returns the number of items in the collection.
    #[must_use]
    pub fn len(&self) -> (len: usize)
        ensures
            len == self@.len(),
    {
        keys_len(&self.keys)
    }

    /// Checks whether the collection holds no item.
    #[must_use]
    pub fn is_empty(&self) -> (empty: bool)
        ensures
            empty == (self@.len() == 0),
    {
        keys_len(&self.keys) == 0
    }

    /// Returns the item at the given position of the insertion order, or
    /// `None` when the position is not below the length.
    #[must_use]
    pub fn get(&self, index: usize) -> (cost: Option<Cost>)
        requires
            self.wf(),
        ensures
            cost == if index < self@.len() {
                Some(self@[index as int])
            } else {
                None
            },
    {
        match keys_get_index(&self.keys, index) {
            Some(key) => Some(Cost::from_key(key)),
            None => None,
        }
    }
}

/// The number of years of a return on investments, brought into the range
/// from 1 to 30: zero becomes 1, a higher value 30.
pub open spec fn clamp_years(years: u8) -> u8 {
    if years == 0 {
        1
    } else if years >= 30 {
        30
    } else {
        years
    }
}

/// Return on investments (ROI).
#[derive(Debug, PartialEq, Eq, Hash, Clone, Copy, Structural)]
pub struct Roi {
    /// Number of years used to calculate the ROI.
    pub years: u8,
    /// Energy class.
    pub energy_class: EnergyClass,
}

impl Roi {
    /// The key that stands for the item in a collection.
    pub open spec fn key_spec(self) -> u64 {
        (self.years * 16 + self.energy_class.index_spec()) as u64
    }

    /// Whether a key stands for an item.
    pub open spec fn valid_key(key: u64) -> bool {
        key / 16 < 256 && key % 16 < 10
    }

    /// The item that a key stands for.
    pub open spec fn of_key(key: u64) -> Roi {
        Roi { years: (key / 16) as u8, energy_class: EnergyClass::of_index(key % 16) }
    }

    /// Items and valid keys stand for each other, one to one.
    pub proof fn lemma_keys(item: Roi, key: u64)
        ensures
            Self::valid_key(item.key_spec()),
            Self::of_key(item.key_spec()) == item,
            Self::valid_key(key) ==> Self::of_key(key).key_spec() == key,
    {
    }

    /// Creates a [`Roi`].
    ///
    /// If the `years` parameter is set to **0**, it will automatically be
    /// adjusted to **1**
    /// If the `years` parameter exceeds **30**, it will automatically be
    /// adjusted to **30**.
    #[must_use]
    pub fn new(years: u8, energy_class: EnergyClass) -> (roi: Self)
        ensures
            roi.years == clamp_years(years),
            roi.energy_class == energy_class,
            1 <= roi.years <= 30,
    {
        let years: u8 = if years == 0 {
            1
        } else if years >= 30 {
            30
        } else {
            years
        };
        Roi { years, energy_class }
    }

    /// The sentence that says over how many years the investment returns.
    pub open spec fn text_spec(self) -> Seq<char> {
        "The device has a Return on Investments (Roi) for the `"@
            + self.energy_class.name_spec()
            + "` energy efficiency class over a timespan of "@ + decimal_text(self.years as nat)
            + " "@ + (if self.years > 1 {
            "years"@
        } else {
            "year"@
        })
    }

    /// Says in a sentence over how many years the investment returns.
    #[must_use]
    pub fn text(&self) -> (text: String)
        ensures
            text@ == self.text_spec(),
    {
        String::from_str("The device has a Return on Investments (Roi) for the `").concat(
            self.energy_class.name(),
        ).concat("` energy efficiency class over a timespan of ").concat(
            decimal(self.years as usize).as_str(),
        ).concat(" ").concat(
            if self.years > 1 {
                "years"
            } else {
                "year"
            },
        )
    }

    /// Returns the key that stands for the item.
    pub(crate) fn key(&self) -> (key: u64)
        ensures
            key == self.key_spec(),
    {
        let years: u64 = self.years as u64;
        years * 16 + self.energy_class.index()
    }

    /// Returns the item that a key stands for.
    pub(crate) fn from_key(key: u64) -> (roi: Self)
        requires
            Self::valid_key(key),
        ensures
            roi == Self::of_key(key),
    {
        Roi { years: (key / 16) as u8, energy_class: EnergyClass::from_index(key % 16) }
    }
}

/// The sequence that holds `roi` once: `rois` itself where it is already
/// there, else `rois` with `roi` at the end.
pub open spec fn with_roi(rois: Seq<Roi>, roi: Roi) -> Seq<Roi> {
    if rois.contains(roi) {
        rois
    } else {
        rois.push(roi)
    }
}

/// All device [`Roi`]s.
///
/// Every item occurs at most once, and the items keep the order in which
/// they were first added. The underlying set stores each item by a key.
#[derive(Debug, PartialEq)]
pub struct Rois {
    keys: KeySet,
}

impl Clone for Rois {
    fn clone(&self) -> (copy: Self)
        ensures
            copy@ == self@,
            copy.wf() == self.wf(),
    {
        Rois { keys: self.keys.clone() }
    }
}

impl View for Rois {
    type V = Seq<Roi>;

    closed spec fn view(&self) -> Seq<Roi> {
        set_keys(self.keys).map_values(|key: u64| Roi::of_key(key))
    }
}

impl Rois {
    /// Every stored key stands for an item, and none occurs twice.
    pub closed spec fn wf(&self) -> bool {
        &&& set_keys(self.keys).no_duplicates()
        &&& forall|i: int|
            0 <= i < set_keys(self.keys).len() ==> Roi::valid_key(
                #[trigger] set_keys(self.keys)[i],
            )
    }

    /// In a well-formed collection no item occurs twice.
    pub proof fn lemma_distinct(&self)
        requires
            self.wf(),
        ensures
            self@.no_duplicates(),
    {
    }

    /// A well-formed collection holds an item exactly when the underlying
    /// set holds its key.
    proof fn lemma_contains(&self, roi: Roi)
        requires
            self.wf(),
        ensures
            self@.contains(roi) <==> set_keys(self.keys).contains(roi.key_spec()),
    {
        let keys = set_keys(self.keys);
        if keys.contains(roi.key_spec()) {
            let i = choose|i: int| 0 <= i < keys.len() && keys[i] == roi.key_spec();
            assert(self@[i] == roi);
        }
    }

    /// Creates an empty collection.
    #[must_use]
    pub fn new() -> (rois: Self)
        ensures
            rois@ == Seq::<Roi>::empty(),
            rois.wf(),
    {
        Rois { keys: keys_new() }
    }

    /// Creates a collection that holds one item.
    #[must_use]
    pub fn init(roi: Roi) -> (rois: Self)
        ensures
            rois@ == seq![roi],
            rois.wf(),
    {
        let mut rois = Rois::new();
        rois.add(roi);
        rois
    }

    /// Adds an item and returns the collection: an item that is already
    /// there stays where it is, a new one goes to the end.
    #[must_use]
    pub fn insert(self, roi: Roi) -> (rois: Self)
        requires
            self.wf(),
        ensures
            rois@ == with_roi(self@, roi),
            rois.wf(),
    {
        let mut rois = self;
        rois.add(roi);
        rois
    }

    /// Adds an item in place: an item that is already there stays where it
    /// is, a new one goes to the end.
    pub fn add(&mut self, roi: Roi)
        requires
            old(self).wf(),
        ensures
            final(self)@ == with_roi(old(self)@, roi),
            final(self).wf(),
    {
        proof {
            self.lemma_contains(roi);
        }
        keys_insert(&mut self.keys, roi.key());
    }

    /// Checks whether the collection holds the item.
    #[must_use]
    pub fn contains(&self, roi: &Roi) -> (found: bool)
        requires
            self.wf(),
        ensures
            found == self@.contains(*roi),
    {
        proof {
            self.lemma_contains(*roi);
        }
        keys_contains(&self.keys, roi.key())
    }

    /// Returns the number of items in the collection.
    #[must_use]
    pub fn len(&self) -> (len: usize)
        ensures
            len == self@.len(),
    {
        keys_len(&self.keys)
    }

    /// Checks whether the collection holds no item.
    #[must_use]
    pub fn is_empty(&self) -> (empty: bool)
        ensures
            empty == (self@.len() == 0),
    {
        keys_len(&self.keys) == 0
    }

    /// Returns the item at the given position of the insertion order, or
    /// `None` when the position is not below the length.
    #[must_use]
    pub fn get(&self, index: usize) -> (roi: Option<Roi>)
        requires
            self.wf(),
        ensures
            roi == if index < self@.len() {
                Some(self@[index as int])
            } else {
                None
            },
    {
        match keys_get_index(&self.keys, index) {
            Some(key) => Some(Roi::from_key(key)),
            None => None,
        }
    }
}

/// Economy data related to a device.
#[derive(Debug, PartialEq, Clone)]
pub struct Economy {
    /// Costs.
    pub costs: Option<Costs>,
    /// Return on investments (ROI).
    pub roi: Option<Rois>,
}

impl Economy {
    /// Creates an empty [`Economy`].
    #[must_use]
    pub fn empty() -> (economy: Self)
        ensures
            economy == (Economy { costs: None, roi: None }),
    {
        Economy { costs: None, roi: None }
    }

    /// Creates an [`Economy`] initialized with the [`Costs`] data.
    #[must_use]
    pub fn init_with_costs(costs: Costs) -> (economy: Self)
        ensures
            economy == (Economy { costs: Some(costs), roi: None }),
    {
        Economy { costs: Some(costs), roi: None }
    }

    /// Creates an [`Economy`] initialized with the [`Rois`] data.
    #[must_use]
    pub fn init_with_roi(roi: Rois) -> (economy: Self)
        ensures
            economy == (Economy { costs: None, roi: Some(roi) }),
    {
        Economy { costs: None, roi: Some(roi) }
    }

    /// Adds the [`Costs`] data.
    #[must_use]
    pub fn costs(self, costs: Costs) -> (economy: Self)
        ensures
            economy == (Economy { costs: Some(costs), ..self }),
    {
        let mut economy = self;
        economy.costs = Some(costs);
        economy
    }

    /// Adds the [`Rois`] data.
    #[must_use]
    pub fn roi(self, roi: Rois) -> (economy: Self)
        ensures
            economy == (Economy { roi: Some(roi), ..self }),
    {
        let mut economy = self;
        economy.roi = Some(roi);
        economy
    }

    /// Checks if [`Economy`] is **entirely** empty.
    #[must_use]
    pub fn is_empty(&self) -> (empty: bool)
        ensures
            empty == (self.costs is None && self.roi is None),
    {
        self.costs.is_none() && self.roi.is_none()
    }
}

} // verus!
