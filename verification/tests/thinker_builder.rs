use bevy::ecs::entity::Entity;
use big_brain::thinker::{ActionHandle, Thinker, ThinkerBuilder};

#[test]
fn builder_needs_a_picker() {
    let b: ThinkerBuilder<u8, &str> = Thinker::build().when("thirsty", ActionHandle::new(1, None));
    assert!(b.get_picker().is_none());
    let b = b.picker(7);
    let t = Thinker::from_builder(&b, vec![Entity::from_raw(3)]);
    assert_eq!(t.choices().len(), 1);
    assert_eq!(t.choices()[0].scorer.0, Entity::from_raw(3));
    assert_eq!(t.choices()[0].action.id, 1);
}

#[test]
fn builder_keeps_choices_in_order_and_last_settings() {
    let b: ThinkerBuilder<u8, &str> = ThinkerBuilder::default()
        .picker(1)
        .when("thirsty", ActionHandle::new(1, Some("drink".to_string())))
        .when("hungry", ActionHandle::new(2, Some("eat".to_string())))
        .otherwise(ActionHandle::new(3, None))
        .otherwise(ActionHandle::new(4, None))
        .picker(2)
        .label("brain");
    let cs = b.get_choices();
    assert_eq!(cs.len(), 2);
    assert_eq!(cs[0].scorer, "thirsty");
    assert_eq!(cs[0].action.id, 1);
    assert_eq!(cs[1].scorer, "hungry");
    assert_eq!(cs[1].action.label.as_deref(), Some("eat"));
    assert_eq!(b.get_picker(), &Some(2));
    assert_eq!(b.get_label().as_deref(), Some("brain"));
    let t = Thinker::from_builder(&b, vec![Entity::from_raw(10), Entity::from_raw(11)]);
    assert_eq!(t.choices().len(), 2);
    assert_eq!(t.choices()[0].scorer.0, Entity::from_raw(10));
    assert_eq!(t.choices()[0].action.id, 1);
    assert_eq!(t.choices()[1].scorer.0, Entity::from_raw(11));
    assert_eq!(t.choices()[1].action.label.as_deref(), Some("eat"));
    assert_eq!(t.current_action_handle().map(|h| h.id), None);
    assert!(t.current_action().is_none());
    assert_eq!(t.current_action_label(), &None);
    assert_eq!(t.scheduled_len(), 0);
}

#[test]
fn fresh_builder_is_empty() {
    let b: ThinkerBuilder<u8, u8> = Thinker::build();
    assert!(b.get_picker().is_none());
    assert!(b.get_choices().is_empty());
    assert!(b.get_label().is_none());
}
