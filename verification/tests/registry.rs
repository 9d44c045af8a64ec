use kitties::{Registry, RegistryError, BREED_SELECTOR};

fn male_dna() -> [u8; 16] {
    let mut dna: [u8; 16] = [0u8; 16];
    for i in 0..16usize {
        dna[i] = (0x10 + i) as u8;
    }
    dna[0] = 0x11;
    dna
}

fn female_dna() -> [u8; 16] {
    let mut dna: [u8; 16] = [0u8; 16];
    for i in 0..16usize {
        dna[i] = (0xa0 + i) as u8;
    }
    dna[0] = 0xa0;
    dna
}

#[test]
fn create_returns_counter_then_increments_it() {
    let mut registry = Registry::new();
    assert_eq!(registry.next_kitty_id(), 0);

    let (id_1, kitty_1) = registry.create(1, male_dna()).unwrap();
    assert_eq!(id_1, 0);
    assert_eq!(kitty_1.0, male_dna());
    assert_eq!(registry.next_kitty_id(), 1);

    let (id_2, _) = registry.create(1, female_dna()).unwrap();
    assert_eq!(id_2, 1);
    assert_eq!(registry.next_kitty_id(), 2);
}

#[test]
fn created_kitty_is_stored_under_its_owner_only() {
    let mut registry = Registry::new();
    let (id, kitty) = registry.create(5, female_dna()).unwrap();

    assert_eq!(registry.kitties(5, id).unwrap().0, kitty.0);
    assert!(registry.kitties(6, id).is_none());
    assert!(registry.kitties(5, id + 1).is_none());
}

#[test]
fn ids_are_globally_unique_across_owners() {
    let mut registry = Registry::new();
    let (id_a, _) = registry.create(1, male_dna()).unwrap();
    let (id_b, _) = registry.create(2, male_dna()).unwrap();
    let (id_c, _) = registry.create(1, female_dna()).unwrap();
    assert_eq!(id_a, 0);
    assert_eq!(id_b, 1);
    assert_eq!(id_c, 2);
}

#[test]
fn breed_combines_parent_genomes_under_fixed_selector() {
    let owner: u64 = 7;
    let g1 = male_dna();
    let g2 = female_dna();

    let mut registry = Registry::new();
    let (id_1, _) = registry.create(owner, g1).unwrap();
    let (id_2, _) = registry.create(owner, g2).unwrap();

    let (new_id, offspring) = registry.breed(owner, id_1, id_2).unwrap();
    assert_eq!(new_id, 2);
    assert_eq!(registry.next_kitty_id(), 3);
    assert_eq!(BREED_SELECTOR, 10);
    for i in 0..16usize {
        assert_eq!(offspring.0[i], (!10u8 & g1[i]) | (10u8 & g2[i]));
    }
    assert_eq!(registry.kitties(owner, new_id).unwrap().0, offspring.0);
}

#[test]
fn breed_rejects_same_sex_parents_and_mutates_nothing() {
    let owner: u64 = 3;
    let mut registry = Registry::new();
    let mut other_male = male_dna();
    other_male[0] = 0x0f;
    let (id_1, _) = registry.create(owner, male_dna()).unwrap();
    let (id_2, _) = registry.create(owner, other_male).unwrap();

    let err = registry.breed(owner, id_1, id_2).unwrap_err();
    assert_eq!(err, RegistryError::IncompatibleParents);
    assert_eq!(registry.next_kitty_id(), 2);
    assert!(registry.kitties(owner, 2).is_none());
}

#[test]
fn breed_rejects_ids_the_caller_does_not_own() {
    let mut registry = Registry::new();
    let (id_a, _) = registry.create(1, male_dna()).unwrap();
    let (id_b, _) = registry.create(1, female_dna()).unwrap();

    // Unknown id under the right owner.
    let err = registry.breed(1, id_a, 99).unwrap_err();
    assert_eq!(err, RegistryError::EntityNotFound);

    // Both ids exist, but under a different owner than the caller.
    let err = registry.breed(2, id_a, id_b).unwrap_err();
    assert_eq!(err, RegistryError::EntityNotFound);
    assert_eq!(registry.next_kitty_id(), 2);
}

#[test]
fn create_fails_when_counter_is_exhausted() {
    let mut registry = Registry::with_next_id(u32::MAX);
    let err = registry.create(1, male_dna()).unwrap_err();
    assert_eq!(err, RegistryError::IdOverflow);
    assert_eq!(registry.next_kitty_id(), u32::MAX);
    assert!(registry.kitties(1, u32::MAX).is_none());
    assert!(registry.kitties(1, 0).is_none());
}

#[test]
fn breed_fails_when_counter_is_exhausted() {
    let owner: u64 = 9;
    let mut registry = Registry::with_next_id(u32::MAX - 2);
    let (id_1, _) = registry.create(owner, male_dna()).unwrap();
    let (id_2, _) = registry.create(owner, female_dna()).unwrap();
    assert_eq!(id_1, u32::MAX - 2);
    assert_eq!(id_2, u32::MAX - 1);

    let err = registry.breed(owner, id_1, id_2).unwrap_err();
    assert_eq!(err, RegistryError::IdOverflow);
    assert_eq!(registry.next_kitty_id(), u32::MAX);
    assert!(registry.kitties(owner, id_1).is_some());
    assert!(registry.kitties(owner, id_2).is_some());
}

#[test]
fn failed_operations_leave_the_counter_where_it_was() {
    let owner: u64 = 4;
    let mut registry = Registry::new();
    let (id_1, _) = registry.create(owner, male_dna()).unwrap();

    assert!(registry.breed(owner, id_1, 42).is_err());
    let (id_2, _) = registry.create(owner, female_dna()).unwrap();
    assert_eq!(id_2, 1);
}
