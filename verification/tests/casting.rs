use downcast::Animal;
use downcast::Any;
use downcast::Bird;
use downcast::Downcast;
use downcast::DowncastError;
use downcast::Fish;
use downcast::TypeMismatch;
use downcast::TypeTag;
use downcast::BIRD_TAG;
use downcast::FISH_TAG;

#[test]
fn identity_accessors_report_the_concrete_type() {
    let bird = Animal::Bird(Bird { flights: 3 });
    let fish = Animal::Fish(Fish { depth: 40 });
    assert_eq!(bird.identity(), BIRD_TAG);
    assert_eq!(fish.identity(), FISH_TAG);
    assert_eq!(bird.name(), "Bird");
    assert_eq!(fish.name(), "Fish");
    assert_eq!(<Bird as TypeTag>::tag(), BIRD_TAG);
    assert_eq!(<Fish as TypeTag>::tag(), FISH_TAG);
    assert_eq!(<Bird as TypeTag>::tag_name(), "Bird");
    assert_eq!(<Fish as TypeTag>::tag_name(), "Fish");
}

#[test]
fn is_type_accepts_the_runtime_type_and_rejects_any_other() {
    let animal = Animal::Bird(Bird { flights: 3 });
    assert!(<Animal as Downcast<Bird>>::is_type(&animal));
    assert!(!<Animal as Downcast<Fish>>::is_type(&animal));

    let animal = Animal::Fish(Fish { depth: 40 });
    assert!(<Animal as Downcast<Fish>>::is_type(&animal));
    assert!(!<Animal as Downcast<Bird>>::is_type(&animal));
}

#[test]
fn downcast_ref_returns_the_original_value() {
    let animal = Animal::Bird(Bird { flights: 3 });
    let bird = <Animal as Downcast<Bird>>::downcast_ref(&animal).unwrap();
    assert_eq!(*bird, Bird { flights: 3 });
}

#[test]
fn downcast_ref_mismatch_names_expected_and_found() {
    let animal = Animal::Bird(Bird { flights: 3 });
    let mismatch = <Animal as Downcast<Fish>>::downcast_ref(&animal).unwrap_err();
    assert_eq!(mismatch.expected(), "Fish");
    assert_eq!(mismatch.found(), "Bird");
}

#[test]
fn mismatch_message_spells_out_both_names() {
    let animal = Animal::Bird(Bird { flights: 3 });
    let mismatch = <Animal as Downcast<Fish>>::downcast_ref(&animal).unwrap_err();
    assert_eq!(mismatch.message(), "Type mismatch: Expected 'Fish', found 'Bird'!");
}

#[test]
fn downcast_mut_updates_the_held_value() {
    let mut animal = Animal::Bird(Bird { flights: 3 });
    {
        let bird = <Animal as Downcast<Bird>>::downcast_mut(&mut animal).unwrap();
        assert_eq!(*bird, Bird { flights: 3 });
        bird.flights = 4;
    }
    let bird = <Animal as Downcast<Bird>>::downcast_ref(&animal).unwrap();
    assert_eq!(*bird, Bird { flights: 4 });
}

#[test]
fn downcast_mut_mismatch_leaves_the_value_untouched() {
    let mut animal = Animal::Bird(Bird { flights: 3 });
    let mismatch = <Animal as Downcast<Fish>>::downcast_mut(&mut animal).unwrap_err();
    assert_eq!(mismatch.expected(), "Fish");
    assert_eq!(mismatch.found(), "Bird");
    assert_eq!(animal, Animal::Bird(Bird { flights: 3 }));
}

#[test]
fn downcast_owned_returns_the_original_value() {
    let animal = Animal::Bird(Bird { flights: 3 });
    let bird = <Animal as Downcast<Bird>>::downcast(animal).ok().unwrap();
    assert_eq!(bird, Bird { flights: 3 });
}

#[test]
fn failed_owned_downcast_recovers_the_object() {
    let animal = Animal::Bird(Bird { flights: 3 });
    let err = match <Animal as Downcast<Fish>>::downcast(animal) {
        Ok(_) => panic!("a bird must not downcast to a fish"),
        Err(err) => err,
    };
    assert_eq!(err.type_mismatch().expected(), "Fish");
    assert_eq!(err.type_mismatch().found(), "Bird");

    let recovered = err.into_object();
    assert_eq!(recovered, Animal::Bird(Bird { flights: 3 }));
    let bird = <Animal as Downcast<Bird>>::downcast(recovered).ok().unwrap();
    assert_eq!(bird, Bird { flights: 3 });
}

#[test]
fn error_message_spells_out_both_names() {
    let animal = Animal::Fish(Fish { depth: 7 });
    let err = match <Animal as Downcast<Bird>>::downcast(animal) {
        Ok(_) => panic!("a fish must not downcast to a bird"),
        Err(err) => err,
    };
    assert_eq!(err.message(), "Type mismatch: Expected 'Bird', found 'Fish'!");
}

#[test]
fn mismatch_and_error_constructors_carry_their_parts() {
    let animal = Animal::Fish(Fish { depth: 7 });
    let mismatch = TypeMismatch::new::<Bird, Animal>(&animal);
    assert_eq!(mismatch.expected(), "Bird");
    assert_eq!(mismatch.found(), "Fish");

    let err = DowncastError::new(mismatch, animal);
    assert_eq!(err.type_mismatch().expected(), "Bird");
    assert_eq!(err.type_mismatch().found(), "Fish");
    assert_eq!(err.into_object(), Animal::Fish(Fish { depth: 7 }));
}
