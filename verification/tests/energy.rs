use tosca_controller::energy::{
    CarbonFootprint, CarbonFootprints, Energy, EnergyClass, EnergyEfficiencies, EnergyEfficiency,
    WaterUseEfficiency,
};
use tosca_controller::events::Float64;

#[test]
fn test_energy_efficiency_clamping() {
    assert_eq!(EnergyEfficiency::new(127, EnergyClass::A).percentage, 100);
    assert_eq!(EnergyEfficiency::new(-128, EnergyClass::B).percentage, -100);
    assert_eq!(EnergyEfficiency::new(50, EnergyClass::C).percentage, 50);
}

#[test]
fn test_carbon_footprint_clamping() {
    assert_eq!(CarbonFootprint::new(127, EnergyClass::A).percentage, 100);
    assert_eq!(CarbonFootprint::new(-128, EnergyClass::B).percentage, -100);
    assert_eq!(CarbonFootprint::new(50, EnergyClass::C).percentage, 50);
}

#[test]
fn percentage_clamping_at_the_bounds() {
    assert_eq!(EnergyEfficiency::new(100, EnergyClass::A).percentage, 100);
    assert_eq!(EnergyEfficiency::new(99, EnergyClass::A).percentage, 99);
    assert_eq!(EnergyEfficiency::new(101, EnergyClass::A).percentage, 100);
    assert_eq!(EnergyEfficiency::new(-100, EnergyClass::A).percentage, -100);
    assert_eq!(EnergyEfficiency::new(-99, EnergyClass::A).percentage, -99);
    assert_eq!(EnergyEfficiency::new(-101, EnergyClass::A).percentage, -100);
    assert_eq!(CarbonFootprint::new(0, EnergyClass::D).percentage, 0);
    assert_eq!(CarbonFootprint::new(0, EnergyClass::D).energy_class, EnergyClass::D);
}

#[test]
fn energy_class_names() {
    assert_eq!(EnergyClass::APlusPlusPlus.name(), "A+++");
    assert_eq!(EnergyClass::APlusPlus.name(), "A++");
    assert_eq!(EnergyClass::APlus.name(), "A+");
    assert_eq!(EnergyClass::A.name(), "A");
    assert_eq!(EnergyClass::G.name(), "G");
}

#[test]
fn efficiencies_hold_each_item_once_in_insertion_order() {
    let efficiencies = EnergyEfficiencies::init(EnergyEfficiency::new(-50, EnergyClass::A))
        .insert(EnergyEfficiency::new(50, EnergyClass::B))
        .insert(EnergyEfficiency::new(-50, EnergyClass::A))
        .insert(EnergyEfficiency::new(-128, EnergyClass::G));

    assert_eq!(efficiencies.len(), 3);
    assert_eq!(efficiencies.get(0), Some(EnergyEfficiency::new(-50, EnergyClass::A)));
    assert_eq!(efficiencies.get(1), Some(EnergyEfficiency::new(50, EnergyClass::B)));
    assert_eq!(efficiencies.get(2), Some(EnergyEfficiency::new(-100, EnergyClass::G)));
    assert_eq!(efficiencies.get(3), None);
    assert!(efficiencies.contains(&EnergyEfficiency::new(50, EnergyClass::B)));
    assert!(!efficiencies.contains(&EnergyEfficiency::new(50, EnergyClass::C)));
}

#[test]
fn footprints_hold_items_with_raw_percentages() {
    let lowest = CarbonFootprint { percentage: -128, energy_class: EnergyClass::APlusPlusPlus };
    let highest = CarbonFootprint { percentage: 127, energy_class: EnergyClass::G };
    let mut footprints = CarbonFootprints::new();
    footprints.add(lowest);
    footprints.add(highest);
    footprints.add(lowest);

    assert_eq!(footprints.len(), 2);
    assert_eq!(footprints.get(0), Some(lowest));
    assert_eq!(footprints.get(1), Some(highest));
}

#[test]
fn test_energy() {
    let mut energy = Energy::empty();

    let energy_efficiencies = EnergyEfficiencies::init(EnergyEfficiency::new(-50, EnergyClass::A))
        .insert(EnergyEfficiency::new(50, EnergyClass::B));

    let carbon_footprints = CarbonFootprints::init(CarbonFootprint::new(-50, EnergyClass::A))
        .insert(CarbonFootprint::new(50, EnergyClass::B));

    let water_use_efficiency = WaterUseEfficiency::init_with_gpp(Float64 { bits: 2.5f64.to_bits() })
        .penman_monteith_equation(Float64 { bits: 3.2f64.to_bits() })
        .wer(Float64 { bits: 1.1f64.to_bits() });

    assert!(energy.is_empty());

    energy = energy
        .energy_efficiencies(energy_efficiencies.clone())
        .carbon_footprints(carbon_footprints.clone())
        .water_use_efficiency(water_use_efficiency);

    assert!(!energy.is_empty());
    assert_eq!(energy.energy_efficiencies, Some(energy_efficiencies));
    assert_eq!(energy.carbon_footprints, Some(carbon_footprints));
    assert_eq!(
        energy.water_use_efficiency.unwrap().gpp.map(|gpp| f64::from_bits(gpp.bits)),
        Some(2.5)
    );
    assert_eq!(
        WaterUseEfficiency::init_with_wer(Float64 { bits: 1.1f64.to_bits() }).wer,
        Some(Float64 { bits: 1.1f64.to_bits() })
    );
}
