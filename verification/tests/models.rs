use pos_app::api::{AppStatus, CreateStaffRequest, UpdateStaffRequest};
use pos_app::config::Config;
use pos_app::db::models::{
    Amount, MenuItem, OrderStatus, Staff, StaffRole, SyncStatus, SyncStatusType, TableStatus,
};
use pos_app::time::Timestamp;

#[test]
fn test_config_default() {
    let config = Config::default();
    assert_eq!(config.api_port, 3001);
    assert_eq!(config.sync_interval_hours, 24);
    assert_eq!(config.max_days_without_sync, 3);
}

#[test]
fn default_config_has_no_remote_and_a_data_directory() {
    let config = Config::default();
    assert_eq!(config.database_url, "sqlite:pos_app.db");
    assert_eq!(config.cloud_sync_url, None);
    assert!(!config.remote_configured());
    assert!(config.data_dir.ends_with("pos-app"));
    assert_ne!(config.data_dir, "pos-app");
    let given = Config::with_data_dir("/var/lib/pos".to_string());
    assert_eq!(given.data_dir, "/var/lib/pos");
    assert_eq!(given.api_port, 3001);
}

#[test]
fn labels_match_the_text_shown() {
    assert_eq!(OrderStatus::Pending.to_string(), "Pending");
    assert_eq!(OrderStatus::Confirmed.to_string(), "Confirmed");
    assert_eq!(OrderStatus::Preparing.to_string(), "Preparing");
    assert_eq!(OrderStatus::Ready.to_string(), "Ready");
    assert_eq!(OrderStatus::Served.to_string(), "Served");
    assert_eq!(OrderStatus::Completed.to_string(), "Completed");
    assert_eq!(OrderStatus::Cancelled.to_string(), "Cancelled");
    assert_eq!(StaffRole::Manager.to_string(), "Manager");
    assert_eq!(StaffRole::Waiter.to_string(), "Waiter");
    assert_eq!(StaffRole::Chef.to_string(), "Chef");
    assert_eq!(StaffRole::Cashier.to_string(), "Cashier");
    assert_eq!(StaffRole::Host.to_string(), "Host");
    assert_eq!(SyncStatusType::Pending.to_string(), "Pending");
    assert_eq!(SyncStatusType::InProgress.to_string(), "In Progress");
    assert_eq!(SyncStatusType::Completed.to_string(), "Completed");
    assert_eq!(SyncStatusType::Failed.to_string(), "Failed");
    assert_eq!(TableStatus::Free.to_string(), "Free");
    assert_eq!(TableStatus::Occupied.to_string(), "Occupied");
    assert_eq!(TableStatus::Serving.to_string(), "Serving");
    assert_eq!(TableStatus::Billing.to_string(), "Billing");
}

#[test]
fn active_and_terminal_statuses() {
    assert!(OrderStatus::Pending.is_active());
    assert!(OrderStatus::Served.is_active());
    assert!(!OrderStatus::Completed.is_active());
    assert!(!OrderStatus::Cancelled.is_active());
    assert!(SyncStatusType::Completed.is_terminal());
    assert!(SyncStatusType::Failed.is_terminal());
    assert!(!SyncStatusType::InProgress.is_terminal());
    assert!(!SyncStatusType::Pending.is_terminal());
}

#[test]
fn new_staff_is_active_and_fresh() {
    let a = Staff::new("Ann".to_string(), StaffRole::Host, Some("ann@x.org".to_string()), None);
    let b = Staff::new("Bob".to_string(), StaffRole::Chef, None, Some("555".to_string()));
    assert_eq!(a.name, "Ann");
    assert_eq!(a.role, StaffRole::Host);
    assert_eq!(a.email, Some("ann@x.org".to_string()));
    assert_eq!(a.phone, None);
    assert!(a.is_active);
    assert_eq!(a.created_at, a.updated_at);
    assert!(a.created_at.secs > 1_600_000_000);
    assert_ne!(a.id, b.id);
    assert_eq!(a.id.len(), 36);
}

#[test]
fn requests_become_staff() {
    let request = CreateStaffRequest {
        name: "Ann".to_string(),
        role: StaffRole::Waiter,
        email: None,
        phone: Some("555-0101".to_string()),
    };
    let staff = request.into_staff("id-1".to_string(), Timestamp::new(10, 0));
    assert_eq!(staff.id, "id-1");
    assert_eq!(staff.name, "Ann");
    assert!(staff.is_active);
    assert_eq!(staff.created_at, Timestamp::new(10, 0));
    assert_eq!(staff.updated_at, Timestamp::new(10, 0));

    let update = UpdateStaffRequest {
        name: None,
        role: Some(StaffRole::Manager),
        email: Some("ann@x.org".to_string()),
        phone: None,
        is_active: Some(false),
    };
    let changed = update.apply(staff, Timestamp::new(20, 0));
    assert_eq!(changed.id, "id-1");
    assert_eq!(changed.name, "Ann");
    assert_eq!(changed.role, StaffRole::Manager);
    assert_eq!(changed.email, Some("ann@x.org".to_string()));
    assert_eq!(changed.phone, Some("555-0101".to_string()));
    assert!(!changed.is_active);
    assert_eq!(changed.created_at, Timestamp::new(10, 0));
    assert_eq!(changed.updated_at, Timestamp::new(20, 0));
    let nothing =
        UpdateStaffRequest { name: None, role: None, email: None, phone: None, is_active: None };
    let touched = nothing.apply(changed, Timestamp::new(30, 0));
    assert_eq!(touched.name, "Ann");
    assert_eq!(touched.role, StaffRole::Manager);
    assert!(!touched.is_active);
    assert_eq!(touched.updated_at, Timestamp::new(30, 0));
}

#[test]
fn app_status_reports_the_sync_state() {
    let status = SyncStatus {
        id: 3,
        last_sync_at: Some(Timestamp::new(100, 5)),
        sync_status: SyncStatusType::InProgress,
        error_message: None,
        created_at: Timestamp::new(100, 5),
    };
    let report = AppStatus::new("1.2.3".to_string(), &status, Timestamp::new(200, 7));
    assert_eq!(report.version, "1.2.3");
    assert!(report.database_connected);
    assert_eq!(report.last_sync, Some(Timestamp::new(100, 5)));
    assert_eq!(report.sync_status, "In Progress");
    assert_eq!(report.uptime, 200);
}

#[test]
fn instants_compare_by_time() {
    let a = Timestamp::new(10, 999_999_999);
    let b = Timestamp::new(11, 0);
    assert!(a.is_before(&b));
    assert!(!b.is_before(&a));
    assert!(!a.is_before(&a));
    assert!(a.same_instant(&a));
    assert!(Timestamp::new(10, 1_000_000_000).same_instant(&b));
    assert_eq!(b.age_nanos(&a), 1);
    assert_eq!(a.age_nanos(&b), -1);
    assert_eq!(b.whole_seconds_since(&a), 0);
    assert_eq!(Timestamp::new(12, 0).whole_seconds_since(&a), 1);
    assert_eq!(a.whole_seconds_since(&Timestamp::new(12, 0)), -1);
    assert_eq!(Timestamp::new(86_400, 0).whole_days_since(&Timestamp::new(0, 0)), 1);
    assert_eq!(Timestamp::new(86_399, 999_999_999).whole_days_since(&Timestamp::new(0, 0)), 0);
    assert_eq!(Timestamp::new(0, 0).whole_days_since(&Timestamp::new(86_400, 0)), -1);
    assert_eq!(Timestamp::new(0, 0).whole_days_since(&Timestamp::new(86_399, 0)), 0);
    assert_eq!(Timestamp::from_secs(5), Timestamp::new(5, 0));
}

#[test]
fn new_menu_item_is_available_and_fresh() {
    let price = Amount::from_bits(12.99f64.to_bits());
    let a = MenuItem::new("Soup".to_string(), None, price, "Starter".to_string());
    let b = MenuItem::new("Stew".to_string(), Some("Hearty".to_string()), price, "Main".to_string());
    assert_eq!(a.name, "Soup");
    assert_eq!(a.description, None);
    assert_eq!(f64::from_bits(a.price.to_bits()), 12.99);
    assert_eq!(a.category, "Starter");
    assert_eq!(a.image_url, None);
    assert!(a.is_available);
    assert_eq!(a.created_at, a.updated_at);
    assert_eq!(b.description, Some("Hearty".to_string()));
    assert_ne!(a.id, b.id);
}
