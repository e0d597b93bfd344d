use monstermaker_bestiary::Bestiary;
use monstermaker_bestiary::BestiarySpeciesData;
use monstermaker_bestiary::Id;
use monstermaker_bestiary::Name;
use monstermaker_bestiary::Status;
use vstd::seq::Seq;

// The `spec_` trait items are ghost: they exist only for the library's
// contracts and are never called at runtime, so their bodies here diverge.

struct Attr {
    name: &'static str,
}

impl Name for Attr {
    fn spec_name(&self) -> Seq<char> {
        panic!()
    }
    fn name(&self) -> &str {
        self.name
    }
}

struct TestSpecies {
    id: u32,
    name: &'static str,
    category: &'static str,
    description: &'static str,
    weight: u16,
    height: u16,
    color: Attr,
    shape: Attr,
    habitat: Attr,
}

impl TestSpecies {
    fn new(
        id: u32,
        name: &'static str,
        category: &'static str,
        description: &'static str,
        weight: u16,
        height: u16,
    ) -> TestSpecies {
        TestSpecies {
            id,
            name,
            category,
            description,
            weight,
            height,
            color: Attr { name: "color" },
            shape: Attr { name: "shape" },
            habitat: Attr { name: "habitat" },
        }
    }
}

impl Id for TestSpecies {
    fn spec_id(&self) -> u32 {
        panic!()
    }
    fn id(&self) -> u32 {
        self.id
    }
}

impl Name for TestSpecies {
    fn spec_name(&self) -> Seq<char> {
        panic!()
    }
    fn name(&self) -> &str {
        self.name
    }
}

impl BestiarySpeciesData<Attr, Attr, Attr> for TestSpecies {
    fn spec_category(&self) -> Seq<char> {
        panic!()
    }
    fn spec_description(&self) -> Seq<char> {
        panic!()
    }
    fn spec_weight(&self) -> u16 {
        panic!()
    }
    fn spec_height(&self) -> u16 {
        panic!()
    }
    fn category(&self) -> &str {
        self.category
    }
    fn description(&self) -> &str {
        self.description
    }
    fn weight_in_hectograms(&self) -> u16 {
        self.weight
    }
    fn height_in_decimeters(&self) -> u16 {
        self.height
    }
    fn color(&self) -> &Attr {
        &self.color
    }
    fn shape(&self) -> &Attr {
        &self.shape
    }
    fn habitat(&self) -> &Attr {
        &self.habitat
    }
}

fn drake() -> TestSpecies {
    TestSpecies::new(5, "Drake", "Reptile", "Fierce", 200, 15)
}

#[test]
fn initialization_all_unseen() {
    let a = TestSpecies::new(1, "Alpha", "Bird", "Small", 10, 3);
    let b = TestSpecies::new(2, "Beta", "Fish", "Wet", 20, 7);
    let bestiary = Bestiary::new(vec![&a, &b]);
    for id in [1u32, 2u32] {
        let entry = bestiary.view_species(&id).unwrap();
        assert_eq!(entry.status, Status::Unseen);
        assert!(entry.seen_entry.is_none());
        assert!(entry.owned_entry.is_none());
    }
}

#[test]
fn see_is_idempotent() {
    let d = drake();
    let mut bestiary = Bestiary::new(vec![&d]);
    bestiary.see(&d);
    let entry = bestiary.view_species(&5).unwrap();
    assert_eq!(entry.status, Status::Seen);
    bestiary.see(&d);
    let entry = bestiary.view_species(&5).unwrap();
    assert_eq!(entry.status, Status::Seen);
    assert_eq!(entry.seen_entry.unwrap().name, "Drake");
    assert!(entry.owned_entry.is_none());
}

#[test]
fn see_after_own_keeps_owned() {
    let d = drake();
    let mut bestiary = Bestiary::new(vec![&d]);
    bestiary.own(&d);
    bestiary.see(&d);
    let entry = bestiary.view_species(&5).unwrap();
    assert_eq!(entry.status, Status::Owned);
}

#[test]
fn own_is_absorbing() {
    let d = drake();
    let mut bestiary = Bestiary::new(vec![&d]);
    bestiary.own(&d);
    bestiary.own(&d);
    bestiary.own(&d);
    let entry = bestiary.view_species(&5).unwrap();
    assert_eq!(entry.status, Status::Owned);
    bestiary.see(&d);
    let entry = bestiary.view_species(&5).unwrap();
    assert_eq!(entry.status, Status::Owned);
}

#[test]
fn own_from_seen_state() {
    let d = drake();
    let mut bestiary = Bestiary::new(vec![&d]);
    bestiary.see(&d);
    bestiary.own(&d);
    let entry = bestiary.view_species(&5).unwrap();
    assert_eq!(entry.status, Status::Owned);
}

#[test]
fn projections_follow_status() {
    let d = drake();
    let mut bestiary = Bestiary::new(vec![&d]);

    let entry = bestiary.view_species(&5).unwrap();
    assert_eq!(entry.status, Status::Unseen);
    assert!(entry.seen_entry.is_none());
    assert!(entry.owned_entry.is_none());

    bestiary.see(&d);
    let entry = bestiary.view_species(&5).unwrap();
    assert_eq!(entry.status, Status::Seen);
    assert_eq!(entry.seen_entry.unwrap().name, "Drake");
    assert!(entry.owned_entry.is_none());

    bestiary.own(&d);
    let entry = bestiary.view_species(&5).unwrap();
    assert_eq!(entry.status, Status::Owned);
    assert_eq!(entry.seen_entry.unwrap().name, "Drake");
    let owned = entry.owned_entry.unwrap();
    assert_eq!(owned.category, "Reptile");
    assert_eq!(owned.description, "Fierce");
    assert_eq!(owned.weight_in_hectograms, 200);
    assert_eq!(owned.height_in_decimeters, 15);
}

#[test]
fn unknown_id_yields_nothing() {
    let d = drake();
    let bestiary = Bestiary::new(vec![&d]);
    assert!(bestiary.view_species(&7).is_none());
}

#[test]
fn unknown_species_is_ignored() {
    let d = drake();
    let stranger = TestSpecies::new(9, "Wisp", "Ghost", "Pale", 1, 2);
    let mut bestiary = Bestiary::new(vec![&d]);
    bestiary.see(&stranger);
    assert!(bestiary.view_species(&9).is_none());
    bestiary.own(&stranger);
    assert!(bestiary.view_species(&9).is_none());
    let entry = bestiary.view_species(&5).unwrap();
    assert_eq!(entry.status, Status::Unseen);
}

#[test]
fn duplicate_id_last_write_wins() {
    let first = TestSpecies::new(3, "First", "Bug", "Early", 4, 1);
    let second = TestSpecies::new(3, "Second", "Bug", "Late", 6, 2);
    let mut bestiary = Bestiary::new(vec![&first, &second]);
    bestiary.own(&second);
    let entry = bestiary.view_species(&3).unwrap();
    assert_eq!(entry.seen_entry.unwrap().name, "Second");
    assert_eq!(entry.owned_entry.unwrap().description, "Late");
}

#[test]
fn end_to_end_scenario() {
    let d = drake();
    let mut bestiary = Bestiary::new(vec![&d]);

    let entry = bestiary.view_species(&5).unwrap();
    assert_eq!(entry.status, Status::Unseen);
    assert!(entry.seen_entry.is_none());
    assert!(entry.owned_entry.is_none());

    bestiary.see(&d);
    let entry = bestiary.view_species(&5).unwrap();
    assert_eq!(entry.status, Status::Seen);
    assert_eq!(entry.seen_entry.unwrap().name, "Drake");
    assert!(entry.owned_entry.is_none());

    bestiary.own(&d);
    let entry = bestiary.view_species(&5).unwrap();
    assert_eq!(entry.status, Status::Owned);
    assert_eq!(entry.seen_entry.unwrap().name, "Drake");
    let owned = entry.owned_entry.unwrap();
    assert_eq!(owned.category, "Reptile");
    assert_eq!(owned.description, "Fierce");
    assert_eq!(owned.weight_in_hectograms, 200);
    assert_eq!(owned.height_in_decimeters, 15);

    bestiary.see(&d);
    let entry = bestiary.view_species(&5).unwrap();
    assert_eq!(entry.status, Status::Owned);
}
