use scaffolding_core::defaults;
use scaffolding_core::entity::{Entity, Scaffolding};
use scaffolding_core::records::ActivityItem;

fn get_actionitem() -> ActivityItem {
    ActivityItem::new("updated".to_string(), "The object has been updated.".to_string())
}

#[test]
fn test_activityitem_new() {
    let ai = get_actionitem();

    assert_eq!(ai.created_dtm, defaults::now());
    assert_eq!(ai.action, "updated".to_string());
    assert_eq!(ai.description, "The object has been updated.".to_string());
}

#[test]
fn test_entity_activity() {
    let mut entity = Entity::new("customer".to_string());

    entity.log_activity("updated".to_string(), "The object has been updated".to_string());
    entity.log_activity("updated".to_string(), "The object has been updated".to_string());
    entity.log_activity("cancelled".to_string(), "The object has been cancelled".to_string());

    assert_eq!(entity.activity.len(), 3);
    assert_eq!(entity.get_activity("updated".to_string()).len(), 2);
}

#[test]
fn activity_filter_keeps_log_order() {
    let mut entity = Entity::new("customer".to_string());
    entity.log_activity("updated".to_string(), "first".to_string());
    entity.log_activity("cancelled".to_string(), "second".to_string());
    entity.log_activity("updated".to_string(), "third".to_string());

    let updated = entity.get_activity("updated".to_string());
    assert_eq!(updated.len(), 2);
    assert_eq!(updated[0].description, "first");
    assert_eq!(updated[1].description, "third");
    assert_eq!(entity.get_activity("created".to_string()).len(), 0);
}
