use tosca_controller::hazards::{all_hazards, Category, Hazard, Hazards, HAZARDS_COUNT};

#[test]
fn test_hazard() {
    // Check wrong id. 1000 will be always a big value.
    assert_eq!(Hazard::from_id(1000), None);

    // Compare all hazards.
    for hazard in all_hazards() {
        assert_eq!(Hazard::from_id(hazard.id()), Some(hazard));

        let data = hazard.data();
        assert_eq!(data.id, hazard.id());
        assert_eq!(data.name, hazard.name());
        assert_eq!(data.description, hazard.description());
        assert_eq!(data.category_name, hazard.category().name());
        assert_eq!(data.category_description, hazard.category().description());
    }
}

#[test]
fn hazard_identifiers_are_positions() {
    let all = all_hazards();
    assert_eq!(all.len(), usize::from(HAZARDS_COUNT));
    for (position, hazard) in all.iter().enumerate() {
        assert_eq!(usize::from(hazard.id()), position);
    }
    assert_eq!(Hazard::AirPoisoning.id(), 0);
    assert_eq!(Hazard::FireHazard.id(), 6);
    assert_eq!(Hazard::LogEnergyConsumption.id(), 8);
    assert_eq!(Hazard::WaterFlooding.id(), 23);
    assert_eq!(Hazard::from_id(23), Some(Hazard::WaterFlooding));
    assert_eq!(Hazard::from_id(24), None);
    assert_eq!(Hazard::from_id(u16::MAX), None);
}

#[test]
fn hazard_names_descriptions_and_categories() {
    assert_eq!(Hazard::AirPoisoning.name(), "Air Poisoning");
    assert_eq!(Hazard::VideoRecordAndStore.name(), "Video Record and Store");
    assert_eq!(
        Hazard::AudioVideoRecordAndStore.name(),
        "Audio Video Record And Store"
    );
    assert_eq!(Hazard::FireHazard.description(), "The execution may cause fire.");
    assert_eq!(
        Hazard::SpendMoney.description(),
        "The execution authorises an application to use payment information and make a payment transaction."
    );
    assert_eq!(Hazard::FireHazard.category(), Category::Safety);
    assert_eq!(Hazard::TakePictures.category(), Category::Privacy);
    assert_eq!(Hazard::GasConsumption.category(), Category::Financial);
}

#[test]
fn categories_partition_the_hazards() {
    assert_eq!(Category::Financial.name(), "Financial");
    assert_eq!(Category::Privacy.name(), "Privacy");
    assert_eq!(Category::Safety.name(), "Safety");
    assert_eq!(
        Category::Safety.description(),
        "Category which includes all safety-related hazards."
    );

    let financial = Category::Financial.hazards();
    let privacy = Category::Privacy.hazards();
    let safety = Category::Safety.hazards();
    assert_eq!(
        financial,
        vec![
            Hazard::ElectricEnergyConsumption,
            Hazard::GasConsumption,
            Hazard::PaySubscriptionFee,
            Hazard::SpendMoney,
            Hazard::WaterConsumption,
        ]
    );
    assert_eq!(privacy.len(), 10);
    assert_eq!(safety.len(), 9);

    for hazard in all_hazards() {
        let category = hazard.category();
        assert!(category.hazards().contains(&hazard));
        let holders = [&financial, &privacy, &safety]
            .iter()
            .filter(|hazards| hazards.contains(&hazard))
            .count();
        assert_eq!(holders, 1);
    }
}

#[test]
fn hazards_hold_each_hazard_once_in_insertion_order() {
    let mut hazards = Hazards::new();
    assert!(hazards.is_empty());
    assert_eq!(hazards.len(), 0);
    assert_eq!(hazards.get(0), None);

    hazards.add(Hazard::WaterFlooding);
    hazards.add(Hazard::AirPoisoning);
    hazards.add(Hazard::WaterFlooding);
    hazards.add(Hazard::Explosion);

    assert!(!hazards.is_empty());
    assert_eq!(hazards.len(), 3);
    assert_eq!(
        hazards.to_vec(),
        vec![Hazard::WaterFlooding, Hazard::AirPoisoning, Hazard::Explosion]
    );
    assert_eq!(hazards.get(1), Some(Hazard::AirPoisoning));
    assert_eq!(hazards.get(3), None);
    assert!(hazards.contains(&Hazard::Explosion));
    assert!(!hazards.contains(&Hazard::FireHazard));
}

#[test]
fn hazards_builders_agree() {
    let inserted = Hazards::new()
        .insert(Hazard::FireHazard)
        .insert(Hazard::SpendMoney)
        .insert(Hazard::FireHazard);
    let collected = Hazards::init_from_hazards([
        Hazard::FireHazard,
        Hazard::SpendMoney,
        Hazard::FireHazard,
    ]);

    assert_eq!(inserted, collected);
    assert_eq!(collected.to_vec(), vec![Hazard::FireHazard, Hazard::SpendMoney]);
    assert_eq!(Hazards::init(Hazard::Asphyxia).to_vec(), vec![Hazard::Asphyxia]);
    assert!(Hazards::init_from_hazards([]).is_empty());
}

#[test]
fn hazards_hold_all_hazards() {
    let mut hazards = Hazards::new();
    for hazard in all_hazards() {
        hazards.add(hazard);
    }
    for hazard in all_hazards() {
        hazards.add(hazard);
    }
    assert_eq!(hazards.len(), 24);
    assert_eq!(hazards.to_vec(), all_hazards());
}
