use netgate::workflow::{OrderState, OrderWorkflow, WorkflowManager};

#[test]
fn test_order_state_transitions() {
    assert!(OrderState::Pending.can_transition_to(OrderState::Validated));
    assert!(OrderState::Pending.can_transition_to(OrderState::Failed));
    assert!(!OrderState::Pending.can_transition_to(OrderState::Completed));

    assert!(OrderState::Validated.can_transition_to(OrderState::Processing));
    assert!(!OrderState::Validated.can_transition_to(OrderState::Pending));

    assert!(OrderState::Processing.can_transition_to(OrderState::Completed));
    assert!(OrderState::Processing.can_transition_to(OrderState::Failed));

    assert!(!OrderState::Completed.can_transition_to(OrderState::Processing));
    assert!(!OrderState::Failed.can_transition_to(OrderState::Pending));
}

#[test]
fn test_terminal_states() {
    assert!(!OrderState::Pending.is_terminal());
    assert!(!OrderState::Validated.is_terminal());
    assert!(!OrderState::Processing.is_terminal());
    assert!(OrderState::Completed.is_terminal());
    assert!(OrderState::Failed.is_terminal());
    assert!(OrderState::Cancelled.is_terminal());
}

#[test]
fn test_workflow_transition() {
    let mut workflow = OrderWorkflow::new("order-1".to_string(), "tenant-1".to_string());

    assert_eq!(workflow.state, OrderState::Pending);

    assert!(workflow.transition_to(OrderState::Validated).is_ok());
    assert_eq!(workflow.state, OrderState::Validated);

    assert!(workflow.transition_to(OrderState::Processing).is_ok());
    assert_eq!(workflow.state, OrderState::Processing);

    assert!(workflow.transition_to(OrderState::Completed).is_ok());
    assert_eq!(workflow.state, OrderState::Completed);

    // Cannot transition from completed
    assert!(workflow.transition_to(OrderState::Pending).is_err());
}

#[test]
fn test_workflow_mark_failed() {
    let mut workflow = OrderWorkflow::new("order-1".to_string(), "tenant-1".to_string());
    workflow.transition_to(OrderState::Validated).unwrap();
    workflow.transition_to(OrderState::Processing).unwrap();

    assert!(workflow.mark_failed("Test error".to_string()).is_ok());
    assert_eq!(workflow.state, OrderState::Failed);
    assert_eq!(workflow.error_message, Some("Test error".to_string()));
}

#[test]
fn test_workflow_mark_completed() {
    let mut workflow = OrderWorkflow::new("order-1".to_string(), "tenant-1".to_string());
    workflow.transition_to(OrderState::Validated).unwrap();
    workflow.transition_to(OrderState::Processing).unwrap();

    assert!(workflow.mark_completed(123).is_ok());
    assert_eq!(workflow.state, OrderState::Completed);
    assert_eq!(workflow.netbox_site_id, Some(123));
}

#[test]
fn test_workflow_manager_create_order() {
    let mut manager = WorkflowManager::new();
    let order_id = manager.create_order("tenant-1".to_string());

    let workflow = manager.get_order(&order_id).unwrap();
    assert_eq!(workflow.state, OrderState::Pending);
    assert_eq!(workflow.tenant_id, "tenant-1");
}

#[test]
fn test_workflow_manager_get_tenant_orders() {
    let mut manager = WorkflowManager::new();
    let order1 = manager.create_order("tenant-1".to_string());
    let order2 = manager.create_order("tenant-1".to_string());
    manager.create_order("tenant-2".to_string());

    let tenant_orders = manager.get_tenant_orders("tenant-1");
    assert_eq!(tenant_orders.len(), 2);
    assert!(tenant_orders.iter().any(|o| o.order_id == order1));
    assert!(tenant_orders.iter().any(|o| o.order_id == order2));
}

#[test]
fn test_workflow_manager_get_orders_by_state() {
    let mut manager = WorkflowManager::new();
    let order1 = manager.create_order("tenant-1".to_string());
    let order2 = manager.create_order("tenant-1".to_string());

    manager.update_order_state(&order1, OrderState::Validated).unwrap();
    manager.update_order_state(&order2, OrderState::Validated).unwrap();
    manager.update_order_state(&order2, OrderState::Processing).unwrap();

    let pending = manager.get_orders_by_state(OrderState::Pending);
    assert_eq!(pending.len(), 0);

    let validated = manager.get_orders_by_state(OrderState::Validated);
    assert_eq!(validated.len(), 1);

    let processing = manager.get_orders_by_state(OrderState::Processing);
    assert_eq!(processing.len(), 1);
}

#[test]
fn test_order_ids_are_uuid_length() {
    let mut manager = WorkflowManager::new();
    let order_id = manager.create_order("tenant-1".to_string());
    assert_eq!(order_id.chars().count(), 36);
}

#[test]
fn test_update_order_state_unknown_order() {
    let mut manager = WorkflowManager::new();
    let r = manager.update_order_state("no-such-order", OrderState::Validated);
    assert!(r.is_err());
}

#[test]
fn test_timestamps_at_explicit_times() {
    let mut workflow = OrderWorkflow::new_at("order-1".to_string(), "t".to_string(), 1000);
    assert_eq!(workflow.created_at, 1000);
    assert_eq!(workflow.updated_at, 1000);
    workflow.transition_to_at(OrderState::Validated, 2000).unwrap();
    assert_eq!(workflow.created_at, 1000);
    assert_eq!(workflow.updated_at, 2000);
}
