use worker_pool::garden::{plant_type_from_index, random_plant_type, Plant, PlantType, Watering};

#[test]
fn new_plant_is_dry_and_alive() {
    let p = Plant::new(PlantType::Rose, 2);
    assert_eq!(p.name, PlantType::Rose);
    assert_eq!(p.age, 2);
    assert_eq!(p.water_level, 0);
    assert!(!p.is_drowned);
}

#[test]
fn grow_ages_by_one() {
    let mut p = Plant::new(PlantType::Tulip, 0);
    p.grow();
    p.grow();
    assert_eq!(p.age, 2);
}

#[test]
fn tenth_watering_drowns() {
    let mut p = Plant::new(PlantType::Sunflower, 0);
    for _ in 0..9 {
        assert_eq!(p.water_plant(), Watering::Watered);
    }
    assert!(!p.is_drowned);
    assert_eq!(p.water_plant(), Watering::Drowned);
    assert!(p.is_drowned);
    assert_eq!(p.water_level, 10);
    assert_eq!(p.water_plant(), Watering::AlreadyDrowned);
    assert_eq!(p.water_level, 10);
}

#[test]
fn plant_types_by_number() {
    assert_eq!(plant_type_from_index(0), PlantType::Sunflower);
    assert_eq!(plant_type_from_index(1), PlantType::Rose);
    assert_eq!(plant_type_from_index(2), PlantType::Tulip);
    assert_eq!(plant_type_from_index(9), PlantType::Tulip);
}

#[test]
fn random_plant_types_vary() {
    let draws: Vec<PlantType> = (0..300).map(|_| random_plant_type()).collect();
    assert!(draws.contains(&PlantType::Sunflower));
    assert!(draws.contains(&PlantType::Rose));
}
