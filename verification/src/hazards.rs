//! Hazards: the risks that a route of a device may carry.

use vstd::prelude::*;

use crate::ordered_keys::{keys_contains, keys_get_index, keys_insert, keys_len, keys_new, set_keys, KeySet};

verus! {

/// The number of hazards, and the first identifier that names none.
pub const HAZARDS_COUNT: u16 = 24;

/// All possible hazards for a device route.
#[derive(Clone, Copy, PartialEq, Eq, Hash, Debug, Structural)]
pub enum Hazard {
    /// The execution may release toxic gases.
    AirPoisoning,
    /// The execution may cause oxygen deficiency by gaseous substances.
    Asphyxia,
    /// The execution authorises an application to display a video
    /// with audio coming from a device.
    AudioVideoDisplay,
    /// The execution authorises an application to record and save a video with
    /// audio coming from a device on persistent storage.
    AudioVideoRecordAndStore,
    /// The execution enables a device which consumes electricity.
    ElectricEnergyConsumption,
    /// The execution may cause an explosion.
    Explosion,
    /// The execution may cause fire.
    FireHazard,
    /// The execution enables a device which consumes gas.
    GasConsumption,
    /// The execution authorises an application to get and save information
    /// about a device's energy impact.
    LogEnergyConsumption,
    /// The execution authorises an application to get and save information
    /// about a device's duration of use.
    LogUsageTime,
    /// The execution authorises an application to use payment information and
    /// make a periodic payment.
    PaySubscriptionFee,
    /// The execution may cause an interruption in the supply of electricity.
    PowerOutage,
    /// The execution may lead to exposure to high voltages.
    PowerSurge,
    /// The execution authorises an application to get and save user inputs.
    RecordIssuedCommands,
    /// The execution authorises an application to get and save information
    /// about user's preferences.
    RecordUserPreferences,
    /// The execution authorises an application to use payment information and
    /// make a payment transaction.
    SpendMoney,
    /// The execution may lead to rotten food.
    SpoiledFood,
    /// The execution authorises an application to read and take screenshots
    /// from the display output.
    TakeDeviceScreenshots,
    /// The execution authorises an application to use a camera and take photos.
    TakePictures,
    /// The execution disables a protection mechanism, therefore unauthorised
    /// individuals may physically access to the environment.
    UnauthorisedPhysicalAccess,
    /// The execution authorises an application to display a video coming from
    /// a device.
    VideoDisplay,
    /// The execution authorises an application to record and save a video
    /// coming from a device on persistent storage.
    VideoRecordAndStore,
    /// The execution enables a device which consumes water.
    WaterConsumption,
    /// The execution enables a device to water usage, which may lead to flood.
    WaterFlooding,
}

/// Hazard categories.
#[derive(Clone, Copy, PartialEq, Eq, Hash, Debug, Structural)]
pub enum Category {
    /// Category including all financial-related hazards.
    Financial,
    /// Category including all privacy-related hazards.
    Privacy,
    /// Category including all safety-related hazards.
    Safety,
}

/// All [`Hazard`] data.
#[derive(Debug, PartialEq, Clone, Copy)]
pub struct HazardData {
    /// Identifier.
    pub id: u16,
    /// Name.
    pub name: &'static str,
    /// Description.
    pub description: &'static str,
    /// Category name.
    pub category_name: &'static str,
    /// Category description.
    pub category_description: &'static str,
}

impl Hazard {
    /// The name of each hazard.
    pub open spec fn name_spec(self) -> Seq<char> {
        match self {
            Hazard::AirPoisoning => "Air Poisoning"@,
            Hazard::Asphyxia => "Asphyxia"@,
            Hazard::AudioVideoDisplay => "Audio Video Display"@,
            Hazard::AudioVideoRecordAndStore => "Audio Video Record And Store"@,
            Hazard::ElectricEnergyConsumption => "Electric Energy Consumption"@,
            Hazard::Explosion => "Explosion"@,
            Hazard::FireHazard => "Fire Hazard"@,
            Hazard::GasConsumption => "Gas Consumption"@,
            Hazard::LogEnergyConsumption => "Log Energy Consumption"@,
            Hazard::LogUsageTime => "Log Usage Time"@,
            Hazard::PaySubscriptionFee => "Pay Subscription Fee"@,
            Hazard::PowerOutage => "Power Outage"@,
            Hazard::PowerSurge => "Power Surge"@,
            Hazard::RecordIssuedCommands => "Record Issued Commands"@,
            Hazard::RecordUserPreferences => "Record User Preferences"@,
            Hazard::SpendMoney => "Spend Money"@,
            Hazard::SpoiledFood => "Spoiled Food"@,
            Hazard::TakeDeviceScreenshots => "Take Device Screenshots"@,
            Hazard::TakePictures => "Take Pictures"@,
            Hazard::UnauthorisedPhysicalAccess => "Unauthorised Physical Access"@,
            Hazard::VideoDisplay => "Video Display"@,
            Hazard::VideoRecordAndStore => "Video Record and Store"@,
            Hazard::WaterConsumption => "Water Consumption"@,
            Hazard::WaterFlooding => "Water Flooding"@,
        }
    }

    /// The description of each hazard.
    pub open spec fn description_spec(self) -> Seq<char> {
        match self {
            Hazard::AirPoisoning => "The execution may release toxic gases."@,
            Hazard::Asphyxia => "The execution may cause oxygen deficiency by gaseous substances."@,
            Hazard::AudioVideoDisplay => "The execution authorises an application to display a video with audio coming from a device."@,
            Hazard::AudioVideoRecordAndStore => "The execution authorises an application to record and save a video with audio coming from a device on persistent storage."@,
            Hazard::ElectricEnergyConsumption => "The execution enables a device which consumes electricity."@,
            Hazard::Explosion => "The execution may cause an explosion."@,
            Hazard::FireHazard => "The execution may cause fire."@,
            Hazard::GasConsumption => "The execution enables a device which consumes gas."@,
            Hazard::LogEnergyConsumption => "The execution authorises an application to get and save information about a device's energy impact."@,
            Hazard::LogUsageTime => "The execution authorises an application to get and save information about a device's duration of use."@,
            Hazard::PaySubscriptionFee => "The execution authorises an application to use payment information and make a periodic payment."@,
            Hazard::PowerOutage => "The execution may cause an interruption in the supply of electricity."@,
            Hazard::PowerSurge => "The execution may lead to exposure to high voltages."@,
            Hazard::RecordIssuedCommands => "The execution authorises an application to get and save user inputs."@,
            Hazard::RecordUserPreferences => "The execution authorises an application to get and save information about user's preferences."@,
            Hazard::SpendMoney => "The execution authorises an application to use payment information and make a payment transaction."@,
            Hazard::SpoiledFood => "The execution may lead to rotten food."@,
            Hazard::TakeDeviceScreenshots => "The execution authorises an application to read and take screenshots from the display output."@,
            Hazard::TakePictures => "The execution authorises an application to use a camera and take photos."@,
            Hazard::UnauthorisedPhysicalAccess => "The execution disables a protection mechanism, therefore unauthorised individuals may physically access to the environment."@,
            Hazard::VideoDisplay => "The execution authorises an application to display a video coming from a device."@,
            Hazard::VideoRecordAndStore => "The execution authorises an application to record and save a video coming from a device on persistent storage."@,
            Hazard::WaterConsumption => "The execution enables a device which consumes water."@,
            Hazard::WaterFlooding => "The execution enables a device to water usage, which may lead to flood."@,
        }
    }

    /// The one category that each hazard belongs to.
    pub open spec fn category_spec(self) -> Category {
        match self {
            Hazard::AirPoisoning => Category::Safety,
            Hazard::Asphyxia => Category::Safety,
            Hazard::AudioVideoDisplay => Category::Privacy,
            Hazard::AudioVideoRecordAndStore => Category::Privacy,
            Hazard::ElectricEnergyConsumption => Category::Financial,
            Hazard::Explosion => Category::Safety,
            Hazard::FireHazard => Category::Safety,
            Hazard::GasConsumption => Category::Financial,
            Hazard::LogEnergyConsumption => Category::Privacy,
            Hazard::LogUsageTime => Category::Privacy,
            Hazard::PaySubscriptionFee => Category::Financial,
            Hazard::PowerOutage => Category::Safety,
            Hazard::PowerSurge => Category::Safety,
            Hazard::RecordIssuedCommands => Category::Privacy,
            Hazard::RecordUserPreferences => Category::Privacy,
            Hazard::SpendMoney => Category::Financial,
            Hazard::SpoiledFood => Category::Safety,
            Hazard::TakeDeviceScreenshots => Category::Privacy,
            Hazard::TakePictures => Category::Privacy,
            Hazard::UnauthorisedPhysicalAccess => Category::Safety,
            Hazard::VideoDisplay => Category::Privacy,
            Hazard::VideoRecordAndStore => Category::Privacy,
            Hazard::WaterConsumption => Category::Financial,
            Hazard::WaterFlooding => Category::Safety,
        }
    }

    /// The identifier of each hazard: its position in the declaration.
    pub open spec fn id_spec(self) -> u16 {
        match self {
            Hazard::AirPoisoning => 0,
            Hazard::Asphyxia => 1,
            Hazard::AudioVideoDisplay => 2,
            Hazard::AudioVideoRecordAndStore => 3,
            Hazard::ElectricEnergyConsumption => 4,
            Hazard::Explosion => 5,
            Hazard::FireHazard => 6,
            Hazard::GasConsumption => 7,
            Hazard::LogEnergyConsumption => 8,
            Hazard::LogUsageTime => 9,
            Hazard::PaySubscriptionFee => 10,
            Hazard::PowerOutage => 11,
            Hazard::PowerSurge => 12,
            Hazard::RecordIssuedCommands => 13,
            Hazard::RecordUserPreferences => 14,
            Hazard::SpendMoney => 15,
            Hazard::SpoiledFood => 16,
            Hazard::TakeDeviceScreenshots => 17,
            Hazard::TakePictures => 18,
            Hazard::UnauthorisedPhysicalAccess => 19,
            Hazard::VideoDisplay => 20,
            Hazard::VideoRecordAndStore => 21,
            Hazard::WaterConsumption => 22,
            Hazard::WaterFlooding => 23,
        }
    }

    /// The hazard that an identifier names, if it names one.
    pub open spec fn from_id_spec(id: u16) -> Option<Hazard> {
        if id == 0 {
            Some(Hazard::AirPoisoning)
        } else if id == 1 {
            Some(Hazard::Asphyxia)
        } else if id == 2 {
            Some(Hazard::AudioVideoDisplay)
        } else if id == 3 {
            Some(Hazard::AudioVideoRecordAndStore)
        } else if id == 4 {
            Some(Hazard::ElectricEnergyConsumption)
        } else if id == 5 {
            Some(Hazard::Explosion)
        } else if id == 6 {
            Some(Hazard::FireHazard)
        } else if id == 7 {
            Some(Hazard::GasConsumption)
        } else if id == 8 {
            Some(Hazard::LogEnergyConsumption)
        } else if id == 9 {
            Some(Hazard::LogUsageTime)
        } else if id == 10 {
            Some(Hazard::PaySubscriptionFee)
        } else if id == 11 {
            Some(Hazard::PowerOutage)
        } else if id == 12 {
            Some(Hazard::PowerSurge)
        } else if id == 13 {
            Some(Hazard::RecordIssuedCommands)
        } else if id == 14 {
            Some(Hazard::RecordUserPreferences)
        } else if id == 15 {
            Some(Hazard::SpendMoney)
        } else if id == 16 {
            Some(Hazard::SpoiledFood)
        } else if id == 17 {
            Some(Hazard::TakeDeviceScreenshots)
        } else if id == 18 {
            Some(Hazard::TakePictures)
        } else if id == 19 {
            Some(Hazard::UnauthorisedPhysicalAccess)
        } else if id == 20 {
            Some(Hazard::VideoDisplay)
        } else if id == 21 {
            Some(Hazard::VideoRecordAndStore)
        } else if id == 22 {
            Some(Hazard::WaterConsumption)
        } else if id == 23 {
            Some(Hazard::WaterFlooding)
        } else {
            None
        }
    }

    /// Returns the [`Hazard`] name.
    #[must_use]
    pub fn name(&self) -> (name: &'static str)
        ensures
            name@ == self.name_spec(),
    {
        match self {
            Hazard::AirPoisoning => "Air Poisoning",
            Hazard::Asphyxia => "Asphyxia",
            Hazard::AudioVideoDisplay => "Audio Video Display",
            Hazard::AudioVideoRecordAndStore => "Audio Video Record And Store",
            Hazard::ElectricEnergyConsumption => "Electric Energy Consumption",
            Hazard::Explosion => "Explosion",
            Hazard::FireHazard => "Fire Hazard",
            Hazard::GasConsumption => "Gas Consumption",
            Hazard::LogEnergyConsumption => "Log Energy Consumption",
            Hazard::LogUsageTime => "Log Usage Time",
            Hazard::PaySubscriptionFee => "Pay Subscription Fee",
            Hazard::PowerOutage => "Power Outage",
            Hazard::PowerSurge => "Power Surge",
            Hazard::RecordIssuedCommands => "Record Issued Commands",
            Hazard::RecordUserPreferences => "Record User Preferences",
            Hazard::SpendMoney => "Spend Money",
            Hazard::SpoiledFood => "Spoiled Food",
            Hazard::TakeDeviceScreenshots => "Take Device Screenshots",
            Hazard::TakePictures => "Take Pictures",
            Hazard::UnauthorisedPhysicalAccess => "Unauthorised Physical Access",
            Hazard::VideoDisplay => "Video Display",
            Hazard::VideoRecordAndStore => "Video Record and Store",
            Hazard::WaterConsumption => "Water Consumption",
            Hazard::WaterFlooding => "Water Flooding",
        }
    }

    /// Returns the [`Hazard`] description.
    #[must_use]
    pub fn description(&self) -> (description: &'static str)
        ensures
            description@ == self.description_spec(),
    {
        match self {
            Hazard::AirPoisoning => "The execution may release toxic gases.",
            Hazard::Asphyxia => "The execution may cause oxygen deficiency by gaseous substances.",
            Hazard::AudioVideoDisplay => "The execution authorises an application to display a video with audio coming from a device.",
            Hazard::AudioVideoRecordAndStore => "The execution authorises an application to record and save a video with audio coming from a device on persistent storage.",
            Hazard::ElectricEnergyConsumption => "The execution enables a device which consumes electricity.",
            Hazard::Explosion => "The execution may cause an explosion.",
            Hazard::FireHazard => "The execution may cause fire.",
            Hazard::GasConsumption => "The execution enables a device which consumes gas.",
            Hazard::LogEnergyConsumption => "The execution authorises an application to get and save information about a device's energy impact.",
            Hazard::LogUsageTime => "The execution authorises an application to get and save information about a device's duration of use.",
            Hazard::PaySubscriptionFee => "The execution authorises an application to use payment information and make a periodic payment.",
            Hazard::PowerOutage => "The execution may cause an interruption in the supply of electricity.",
            Hazard::PowerSurge => "The execution may lead to exposure to high voltages.",
            Hazard::RecordIssuedCommands => "The execution authorises an application to get and save user inputs.",
            Hazard::RecordUserPreferences => "The execution authorises an application to get and save information about user's preferences.",
            Hazard::SpendMoney => "The execution authorises an application to use payment information and make a payment transaction.",
            Hazard::SpoiledFood => "The execution may lead to rotten food.",
            Hazard::TakeDeviceScreenshots => "The execution authorises an application to read and take screenshots from the display output.",
            Hazard::TakePictures => "The execution authorises an application to use a camera and take photos.",
            Hazard::UnauthorisedPhysicalAccess => "The execution disables a protection mechanism, therefore unauthorised individuals may physically access to the environment.",
            Hazard::VideoDisplay => "The execution authorises an application to display a video coming from a device.",
            Hazard::VideoRecordAndStore => "The execution authorises an application to record and save a video coming from a device on persistent storage.",
            Hazard::WaterConsumption => "The execution enables a device which consumes water.",
            Hazard::WaterFlooding => "The execution enables a device to water usage, which may lead to flood.",
        }
    }

    /// Returns the [`Category`] associated with the [`Hazard`].
    ///
    /// A hazard is **always** associated with **exactly one** category.
    #[must_use]
    pub fn category(&self) -> (category: Category)
        ensures
            category == self.category_spec(),
    {
        match self {
            Hazard::AirPoisoning
            | Hazard::Asphyxia
            | Hazard::Explosion
            | Hazard::FireHazard
            | Hazard::PowerOutage
            | Hazard::PowerSurge
            | Hazard::SpoiledFood
            | Hazard::UnauthorisedPhysicalAccess
            | Hazard::WaterFlooding => Category::Safety,
            Hazard::AudioVideoDisplay
            | Hazard::AudioVideoRecordAndStore
            | Hazard::LogEnergyConsumption
            | Hazard::LogUsageTime
            | Hazard::RecordIssuedCommands
            | Hazard::RecordUserPreferences
            | Hazard::TakeDeviceScreenshots
            | Hazard::TakePictures
            | Hazard::VideoDisplay
            | Hazard::VideoRecordAndStore => Category::Privacy,
            Hazard::ElectricEnergyConsumption
            | Hazard::GasConsumption
            | Hazard::PaySubscriptionFee
            | Hazard::SpendMoney
            | Hazard::WaterConsumption => Category::Financial,
        }
    }

    /// Returns the identifier associated with the [`Hazard`].
    #[must_use]
    pub fn id(&self) -> (id: u16)
        ensures
            id == self.id_spec(),
            id < HAZARDS_COUNT,
            Self::from_id_spec(id) == Some(*self),
    {
        match self {
            Hazard::AirPoisoning => 0,
            Hazard::Asphyxia => 1,
            Hazard::AudioVideoDisplay => 2,
            Hazard::AudioVideoRecordAndStore => 3,
            Hazard::ElectricEnergyConsumption => 4,
            Hazard::Explosion => 5,
            Hazard::FireHazard => 6,
            Hazard::GasConsumption => 7,
            Hazard::LogEnergyConsumption => 8,
            Hazard::LogUsageTime => 9,
            Hazard::PaySubscriptionFee => 10,
            Hazard::PowerOutage => 11,
            Hazard::PowerSurge => 12,
            Hazard::RecordIssuedCommands => 13,
            Hazard::RecordUserPreferences => 14,
            Hazard::SpendMoney => 15,
            Hazard::SpoiledFood => 16,
            Hazard::TakeDeviceScreenshots => 17,
            Hazard::TakePictures => 18,
            Hazard::UnauthorisedPhysicalAccess => 19,
            Hazard::VideoDisplay => 20,
            Hazard::VideoRecordAndStore => 21,
            Hazard::WaterConsumption => 22,
            Hazard::WaterFlooding => 23,
        }
    }

    /// Returns the [`Hazard`] associated with the given integer identifier.
    ///
    /// The return value is [`None`] when the identifier is invalid or does
    /// not exist.
    #[must_use]
    pub fn from_id(id: u16) -> (hazard: Option<Self>)
        ensures
            hazard == Self::from_id_spec(id),
            hazard is Some <==> id < HAZARDS_COUNT,
            hazard is Some ==> hazard->Some_0.id_spec() == id,
    {
        match id {
            0 => Some(Hazard::AirPoisoning),
            1 => Some(Hazard::Asphyxia),
            2 => Some(Hazard::AudioVideoDisplay),
            3 => Some(Hazard::AudioVideoRecordAndStore),
            4 => Some(Hazard::ElectricEnergyConsumption),
            5 => Some(Hazard::Explosion),
            6 => Some(Hazard::FireHazard),
            7 => Some(Hazard::GasConsumption),
            8 => Some(Hazard::LogEnergyConsumption),
            9 => Some(Hazard::LogUsageTime),
            10 => Some(Hazard::PaySubscriptionFee),
            11 => Some(Hazard::PowerOutage),
            12 => Some(Hazard::PowerSurge),
            13 => Some(Hazard::RecordIssuedCommands),
            14 => Some(Hazard::RecordUserPreferences),
            15 => Some(Hazard::SpendMoney),
            16 => Some(Hazard::SpoiledFood),
            17 => Some(Hazard::TakeDeviceScreenshots),
            18 => Some(Hazard::TakePictures),
            19 => Some(Hazard::UnauthorisedPhysicalAccess),
            20 => Some(Hazard::VideoDisplay),
            21 => Some(Hazard::VideoRecordAndStore),
            22 => Some(Hazard::WaterConsumption),
            23 => Some(Hazard::WaterFlooding),
            _ => None,
        }
    }

    /// Returns the [`HazardData`] constructed from the given [`Hazard`].
    #[must_use]
    pub fn data(&self) -> (data: HazardData)
        ensures
            data.id == self.id_spec(),
            data.name@ == self.name_spec(),
            data.description@ == self.description_spec(),
            data.category_name@ == self.category_spec().name_spec(),
            data.category_description@ == self.category_spec().description_spec(),
    {
        HazardData {
            id: self.id(),
            name: self.name(),
            description: self.description(),
            category_name: self.category().name(),
            category_description: self.category().description(),
        }
    }
}

/// An identifier names a hazard exactly when it is below the count, and the
/// hazard it names has that identifier; every hazard is named by its own.
pub proof fn lemma_hazard_identifiers(hazard: Hazard, id: u16)
    ensures
        hazard.id_spec() < HAZARDS_COUNT,
        Hazard::from_id_spec(hazard.id_spec()) == Some(hazard),
        Hazard::from_id_spec(id) is Some <==> id < HAZARDS_COUNT,
        Hazard::from_id_spec(id) == Some(hazard) <==> hazard.id_spec() == id,
{
}

/// All [`Hazard`]s, in the order of their identifiers.
pub fn all_hazards() -> (all: Vec<Hazard>)
    ensures
        all@.len() == HAZARDS_COUNT,
        forall|i: int| 0 <= i < all@.len() ==> (#[trigger] all@[i]).id_spec() == i,
{
    vec![
        Hazard::AirPoisoning,
        Hazard::Asphyxia,
        Hazard::AudioVideoDisplay,
        Hazard::AudioVideoRecordAndStore,
        Hazard::ElectricEnergyConsumption,
        Hazard::Explosion,
        Hazard::FireHazard,
        Hazard::GasConsumption,
        Hazard::LogEnergyConsumption,
        Hazard::LogUsageTime,
        Hazard::PaySubscriptionFee,
        Hazard::PowerOutage,
        Hazard::PowerSurge,
        Hazard::RecordIssuedCommands,
        Hazard::RecordUserPreferences,
        Hazard::SpendMoney,
        Hazard::SpoiledFood,
        Hazard::TakeDeviceScreenshots,
        Hazard::TakePictures,
        Hazard::UnauthorisedPhysicalAccess,
        Hazard::VideoDisplay,
        Hazard::VideoRecordAndStore,
        Hazard::WaterConsumption,
        Hazard::WaterFlooding,
    ]
}

impl Category {
    /// The name of each category.
    pub open spec fn name_spec(self) -> Seq<char> {
        match self {
            Category::Financial => "Financial"@,
            Category::Privacy => "Privacy"@,
            Category::Safety => "Safety"@,
        }
    }

    /// The description of each category.
    pub open spec fn description_spec(self) -> Seq<char> {
        match self {
            Category::Financial => "Category which includes all financial-related hazards."@,
            Category::Privacy => "Category which includes all privacy-related hazards."@,
            Category::Safety => "Category which includes all safety-related hazards."@,
        }
    }

    /// Returns a [`Category`] name.
    #[must_use]
    pub fn name(&self) -> (name: &'static str)
        ensures
            name@ == self.name_spec(),
    {
        match self {
            Category::Financial => "Financial",
            Category::Privacy => "Privacy",
            Category::Safety => "Safety",
        }
    }

    /// Returns a [`Category`] description.
    #[must_use]
    pub fn description(&self) -> (description: &'static str)
        ensures
            description@ == self.description_spec(),
    {
        match self {
            Category::Financial => "Category which includes all financial-related hazards.",
            Category::Privacy => "Category which includes all privacy-related hazards.",
            Category::Safety => "Category which includes all safety-related hazards.",
        }
    }

    /// Returns all [`Hazard`]s associated with a [`Category`], in the order
    /// of their identifiers.
    #[must_use]
    pub fn hazards(&self) -> (hazards: Vec<Hazard>)
        ensures
            forall|hazard: Hazard|
                hazards@.contains(hazard) <==> hazard.category_spec() == *self,
            forall|i: int, j: int|
                0 <= i < j < hazards@.len() ==> hazards@[i].id_spec() < hazards@[j].id_spec(),
    {
        let hazards = match self {
            Category::Financial => vec![
                Hazard::ElectricEnergyConsumption,
                Hazard::GasConsumption,
                Hazard::PaySubscriptionFee,
                Hazard::SpendMoney,
                Hazard::WaterConsumption,
            ],
            Category::Privacy => vec![
                Hazard::AudioVideoDisplay,
                Hazard::AudioVideoRecordAndStore,
                Hazard::LogEnergyConsumption,
                Hazard::LogUsageTime,
                Hazard::RecordIssuedCommands,
                Hazard::RecordUserPreferences,
                Hazard::TakeDeviceScreenshots,
                Hazard::TakePictures,
                Hazard::VideoDisplay,
                Hazard::VideoRecordAndStore,
            ],
            Category::Safety => vec![
                Hazard::AirPoisoning,
                Hazard::Asphyxia,
                Hazard::Explosion,
                Hazard::FireHazard,
                Hazard::PowerOutage,
                Hazard::PowerSurge,
                Hazard::SpoiledFood,
                Hazard::UnauthorisedPhysicalAccess,
                Hazard::WaterFlooding,
            ],
        };
        hazards
    }
}

/// The sequence that holds `hazard` once: `hazards` itself where it is
/// already there, else `hazards` with `hazard` at the end.
pub open spec fn with_hazard(hazards: Seq<Hazard>, hazard: Hazard) -> Seq<Hazard> {
    if hazards.contains(hazard) {
        hazards
    } else {
        hazards.push(hazard)
    }
}

/// Adding a hazard to a sequence without duplicates gives a sequence without
/// duplicates, which holds the hazard and what the sequence held before.
pub proof fn lemma_with_hazard_is_insert(hazards: Seq<Hazard>, hazard: Hazard)
    requires
        hazards.no_duplicates(),
    ensures
        with_hazard(hazards, hazard).no_duplicates(),
        with_hazard(hazards, hazard).to_set() == hazards.to_set().insert(hazard),
{
    let added = with_hazard(hazards, hazard);
    assert forall|other: Hazard| added.to_set().contains(other) <==> hazards.to_set().insert(
        hazard,
    ).contains(other) by {
        if hazards.contains(other) {
            let i = choose|i: int| 0 <= i < hazards.len() && hazards[i] == other;
            assert(added[i] == other);
        }
        if !hazards.contains(hazard) {
            assert(added[hazards.len() as int] == hazard);
        }
    }
}

/// The sequence built by adding the items of `input` one by one, from the
/// first to the last, to an empty collection.
pub open spec fn collected(input: Seq<Hazard>) -> Seq<Hazard>
    decreases input.len(),
{
    if input.len() == 0 {
        Seq::empty()
    } else {
        with_hazard(collected(input.drop_last()), input.last())
    }
}

/// The hazard that a key of the underlying set stands for.
pub open spec fn hazard_of_key(key: u64) -> Hazard {
    match Hazard::from_id_spec(key as u16) {
        Some(hazard) => hazard,
        None => Hazard::AirPoisoning,
    }
}

/// A collection of [`Hazard`]s.
///
/// Every hazard occurs at most once, and the hazards keep the order in which
/// they were first added. The underlying set stores each hazard by its
/// identifier.
#[derive(Debug, PartialEq)]
pub struct Hazards {
    keys: KeySet,
}

impl Clone for Hazards {
    fn clone(&self) -> (copy: Self)
        ensures
            copy@ == self@,
            copy.wf() == self.wf(),
    {
        Hazards { keys: self.keys.clone() }
    }
}

impl View for Hazards {
    type V = Seq<Hazard>;

    closed spec fn view(&self) -> Seq<Hazard> {
        set_keys(self.keys).map_values(|key: u64| hazard_of_key(key))
    }
}

impl Hazards {
    /// Every stored key is the identifier of a hazard, and none occurs twice.
    pub closed spec fn wf(&self) -> bool {
        &&& set_keys(self.keys).no_duplicates()
        &&& forall|i: int|
            0 <= i < set_keys(self.keys).len() ==> #[trigger] set_keys(self.keys)[i]
                < HAZARDS_COUNT
    }

    /// The hazards of the collection as a mathematical set.
    pub open spec fn to_set(&self) -> Set<Hazard> {
        self@.to_set()
    }

    /// In a well-formed collection no hazard occurs twice.
    pub proof fn lemma_distinct(&self)
        requires
            self.wf(),
        ensures
            self@.no_duplicates(),
    {
    }

    /// A well-formed collection holds a hazard exactly when the underlying
    /// set holds its identifier.
    proof fn lemma_contains(&self, hazard: Hazard)
        requires
            self.wf(),
        ensures
            self@.contains(hazard) <==> set_keys(self.keys).contains(hazard.id_spec() as u64),
    {
        let keys = set_keys(self.keys);
        if keys.contains(hazard.id_spec() as u64) {
            let i = choose|i: int| 0 <= i < keys.len() && keys[i] == hazard.id_spec() as u64;
            assert(self@[i] == hazard);
        }
    }

    /// Creates an empty collection.
    #[must_use]
    pub fn new() -> (hazards: Self)
        ensures
            hazards@ == Seq::<Hazard>::empty(),
            hazards.wf(),
    {
        Hazards { keys: keys_new() }
    }

    /// Creates a collection that holds one hazard.
    #[must_use]
    pub fn init(hazard: Hazard) -> (hazards: Self)
        ensures
            hazards@ == seq![hazard],
            hazards.wf(),
    {
        let mut hazards = Hazards::new();
        hazards.add(hazard);
        hazards
    }

    /// Constructs [`Hazards`] from an array of [`Hazard`]s: they are added
    /// one by one, so a hazard that occurs twice in the array is kept once,
    /// at its first position.
    #[must_use]
    pub fn init_from_hazards<const N: usize>(input_elements: [Hazard; N]) -> (hazards: Self)
        ensures
            hazards@ == collected(input_elements@),
            hazards.wf(),
    {
        let mut elements = Hazards::new();
        let mut i: usize = 0;
        while i < N
            invariant
                i <= N,
                N == input_elements@.len(),
                elements.wf(),
                elements@ == collected(input_elements@.take(i as int)),
            decreases N - i,
        {
            assert(input_elements@.take(i + 1).drop_last() =~= input_elements@.take(i as int));
            elements.add(input_elements[i]);
            i += 1;
        }
        assert(input_elements@.take(N as int) =~= input_elements@);
        elements
    }

    /// Adds a hazard and returns the collection: a hazard that is already
    /// there stays where it is, a new one goes to the end.
    #[must_use]
    pub fn insert(self, hazard: Hazard) -> (hazards: Self)
        requires
            self.wf(),
        ensures
            hazards@ == with_hazard(self@, hazard),
            hazards.wf(),
    {
        let mut hazards = self;
        hazards.add(hazard);
        hazards
    }

    /// Adds a hazard in place: a hazard that is already there stays where it
    /// is, a new one goes to the end.
    pub fn add(&mut self, hazard: Hazard)
        requires
            old(self).wf(),
        ensures
            final(self)@ == with_hazard(old(self)@, hazard),
            final(self).wf(),
    {
        proof {
            self.lemma_contains(hazard);
        }
        keys_insert(&mut self.keys, hazard.id() as u64);
    }

    /// Checks whether the collection holds the hazard.
    #[must_use]
    pub fn contains(&self, hazard: &Hazard) -> (found: bool)
        requires
            self.wf(),
        ensures
            found == self@.contains(*hazard),
    {
        proof {
            self.lemma_contains(*hazard);
        }
        keys_contains(&self.keys, hazard.id() as u64)
    }

    /// Returns the number of hazards in the collection.
    #[must_use]
    pub fn len(&self) -> (len: usize)
        ensures
            len == self@.len(),
    {
        keys_len(&self.keys)
    }

    /// Checks whether the collection holds no hazard.
    #[must_use]
    pub fn is_empty(&self) -> (empty: bool)
        ensures
            empty == (self@.len() == 0),
    {
        keys_len(&self.keys) == 0
    }

    /// Returns the hazard at the given position of the insertion order, or
    /// `None` when the position is not below the length.
    #[must_use]
    pub fn get(&self, index: usize) -> (hazard: Option<Hazard>)
        requires
            self.wf(),
        ensures
            hazard == if index < self@.len() {
                Some(self@[index as int])
            } else {
                None
            },
    {
        match keys_get_index(&self.keys, index) {
            Some(key) => {
                Hazard::from_id(key as u16)
            },
            None => None,
        }
    }

    /// Returns the hazards in their insertion order.
    #[must_use]
    pub fn to_vec(&self) -> (hazards: Vec<Hazard>)
        requires
            self.wf(),
        ensures
            hazards@ == self@,
    {
        let mut hazards: Vec<Hazard> = Vec::new();
        let len = self.len();
        let mut i: usize = 0;
        while i < len
            invariant
                i <= len,
                self.wf(),
                len == self@.len(),
                hazards@ == self@.take(i as int),
            decreases len - i,
        {
            match self.get(i) {
                Some(hazard) => {
                    hazards.push(hazard);
                },
                None => {},
            }
            i += 1;
        }
        hazards
    }
}

} // verus!
