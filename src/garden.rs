use rand::Rng;
use vstd::prelude::*;

verus! {

/// The kinds of plant a garden grows.
#[derive(Debug, PartialEq, Eq, Structural, Clone, Copy)]
pub enum PlantType {
    Sunflower,
    Rose,
    Tulip,
}

/// The water level at which a plant drowns.
pub const DROWNING_LEVEL: u32 = 10;

/// A plant: its kind, its age, how much water it has had, and whether it
/// has drowned.
#[derive(Debug, PartialEq, Eq, Structural, Clone, Copy)]
pub struct Plant {
    pub name: PlantType,
    pub age: u32,
    pub water_level: u32,
    pub is_drowned: bool,
}

/// What watering did, for the caller to report.
#[derive(Debug, PartialEq, Eq, Structural, Clone, Copy)]
pub enum Watering {
    /// The plant had drowned already and was left alone.
    AlreadyDrowned,
    /// The plant took the water.
    Watered,
    /// The plant took the water and drowned.
    Drowned,
}

impl Plant {
    /// A dry, living plant of the given kind and age.
    pub fn new(name: PlantType, age: u32) -> (r: Plant)
        ensures
            r == (Plant { name, age, water_level: 0, is_drowned: false }),
    {
        Plant { name, age, water_level: 0, is_drowned: false }
    }

    /// Marks the plant as drowned.
    fn kill(&mut self)
        ensures
            *final(self) == (Plant { is_drowned: true, ..*old(self) }),
    {
        self.is_drowned = true;
    }

    /// Ages the plant by one.
    pub fn grow(&mut self)
        requires
            old(self).age < u32::MAX,
        ensures
            *final(self) == (Plant { age: (old(self).age + 1) as u32, ..*old(self) }),
    {
        self.age = self.age + 1;
    }

    /// Waters a living plant, which drowns once its water level reaches
    /// `DROWNING_LEVEL`; a drowned plant is left alone.
    pub fn water_plant(&mut self) -> (r: Watering)
        requires
            !old(self).is_drowned ==> old(self).water_level < u32::MAX,
        ensures
            old(self).is_drowned ==> r == Watering::AlreadyDrowned && *final(self) == *old(self),
            !old(self).is_drowned ==> {
                let level = (old(self).water_level + 1) as u32;
                &&& *final(self) == (Plant {
                    water_level: level,
                    is_drowned: level >= DROWNING_LEVEL,
                    ..*old(self)
                })
                &&& r == (if level >= DROWNING_LEVEL {
                    Watering::Drowned
                } else {
                    Watering::Watered
                })
            },
    {
        if self.is_drowned {
            return Watering::AlreadyDrowned;
        }
        self.water_level = self.water_level + 1;
        if self.water_level >= DROWNING_LEVEL {
            self.kill();
            Watering::Drowned
        } else {
            Watering::Watered
        }
    }
}

/// The plant kind numbered `n`: 0 is a sunflower, 1 a rose, anything else a
/// tulip.
pub open spec fn plant_type_numbered(n: u32) -> PlantType {
    if n == 0 {
        PlantType::Sunflower
    } else if n == 1 {
        PlantType::Rose
    } else {
        PlantType::Tulip
    }
}

/// The plant kind numbered `n`.
pub fn plant_type_from_index(n: u32) -> (r: PlantType)
    ensures
        r == plant_type_numbered(n),
{
    match n {
        0 => PlantType::Sunflower,
        1 => PlantType::Rose,
        _ => PlantType::Tulip,
    }
}

/// Relies on `rand::Rng::gen_range` on the thread-local generator: a number
/// in `0..bound`, which must not be empty.
#[verifier::external_body]
fn random_below(bound: u32) -> (r: u32)
    requires
        bound > 0,
    ensures
        r < bound,
{
    rand::thread_rng().gen_range(0..bound)
}

/// A plant kind drawn at random, each of the three being possible.
pub fn random_plant_type() -> (r: PlantType)
    ensures
        exists|n: u32| n < 3 && r == plant_type_numbered(n),
{
    let n = random_below(3);
    plant_type_from_index(n)
}

} // verus!
