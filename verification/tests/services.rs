use pos_app::db::models::{
    Amount, MenuItem, Order, OrderItem, OrderStatus, Staff, StaffRole, TableStatus,
};
use pos_app::services::{
    AnalyticsService, MenuService, OrderService, StaffService, TableService, ValidationError,
};
use pos_app::time::Timestamp;

fn staff(name: &str, role: StaffRole, email: Option<&str>, active: bool) -> Staff {
    Staff {
        id: name.to_string(),
        name: name.to_string(),
        role,
        email: email.map(|e| e.to_string()),
        phone: None,
        is_active: active,
        created_at: Timestamp::new(0, 0),
        updated_at: Timestamp::new(0, 0),
    }
}

fn amount(value: f64) -> Amount {
    Amount::from_bits(value.to_bits())
}

fn order(id: &str, table: i32, status: OrderStatus, placed: i64) -> Order {
    Order {
        id: id.to_string(),
        table_number: table,
        status,
        total_amount: amount(0.0),
        items: "[]".to_string(),
        created_at: Timestamp::new(placed, 0),
        updated_at: Timestamp::new(placed, 0),
    }
}

fn menu_item(name: &str, category: &str, available: bool) -> MenuItem {
    MenuItem {
        id: name.to_string(),
        name: name.to_string(),
        description: None,
        price: amount(9.5),
        category: category.to_string(),
        image_url: None,
        is_available: available,
        created_at: Timestamp::new(0, 0),
        updated_at: Timestamp::new(0, 0),
    }
}

#[test]
fn test_status_transition() {
    assert!(OrderService::can_update_status(&OrderStatus::Pending, &OrderStatus::Confirmed));
    assert!(OrderService::can_update_status(&OrderStatus::Confirmed, &OrderStatus::Preparing));
    assert!(!OrderService::can_update_status(&OrderStatus::Completed, &OrderStatus::Preparing));
}

#[test]
fn status_moves_one_step_or_to_cancelled() {
    let all = [
        OrderStatus::Pending,
        OrderStatus::Confirmed,
        OrderStatus::Preparing,
        OrderStatus::Ready,
        OrderStatus::Served,
        OrderStatus::Completed,
        OrderStatus::Cancelled,
    ];
    for (i, from) in all.iter().enumerate() {
        for (j, to) in all.iter().enumerate() {
            let expected = j == 6 || (i < 5 && j == i + 1);
            assert_eq!(OrderService::can_update_status(from, to), expected, "{:?} -> {:?}", from, to);
        }
    }
}

#[test]
fn staff_validation_checks_name_then_email() {
    assert_eq!(StaffService::validate_staff(&staff("Ann", StaffRole::Chef, None, true)), Ok(()));
    assert_eq!(
        StaffService::validate_staff(&staff("Ann", StaffRole::Chef, Some("ann@example.com"), true)),
        Ok(())
    );
    assert_eq!(
        StaffService::validate_staff(&staff("   ", StaffRole::Chef, Some("no-at"), true)),
        Err(ValidationError::EmptyStaffName)
    );
    assert_eq!(
        StaffService::validate_staff(&staff("", StaffRole::Chef, None, true)),
        Err(ValidationError::EmptyStaffName)
    );
    assert_eq!(
        StaffService::validate_staff(&staff("Ann", StaffRole::Chef, Some("ann.example.com"), true)),
        Err(ValidationError::InvalidEmail)
    );
    assert_eq!(ValidationError::EmptyStaffName.message(), "Staff name cannot be empty");
    assert_eq!(ValidationError::InvalidEmail.message(), "Invalid email format");
}

#[test]
fn roster_filters_by_role_and_activity() {
    let all = vec![
        staff("a", StaffRole::Waiter, None, true),
        staff("b", StaffRole::Chef, None, true),
        staff("c", StaffRole::Waiter, None, false),
        staff("d", StaffRole::Waiter, None, true),
    ];
    let waiters = StaffService::filter_by_role(&all, &StaffRole::Waiter);
    let names: Vec<&str> = waiters.iter().map(|s| s.name.as_str()).collect();
    assert_eq!(names, vec!["a", "d"]);
    assert!(StaffService::filter_by_role(&all, &StaffRole::Host).is_empty());
    assert_eq!(StaffService::get_active_count(&all), 3);
    assert_eq!(StaffService::get_active_count(&[]), 0);
}

#[test]
fn menu_filter_and_search() {
    let items = vec![
        menu_item("Margherita Pizza", "Pizza", true),
        menu_item("Pepperoni Pizza", "Pizza", false),
        menu_item("Caesar Salad", "Salad", true),
        menu_item("Pizza Bread", "Appetizer", true),
    ];
    let pizzas = MenuService::filter_by_category(&items, "Pizza");
    assert_eq!(pizzas.len(), 1);
    assert_eq!(pizzas[0].name, "Margherita Pizza");
    assert!(MenuService::filter_by_category(&items, "pizza").is_empty());

    let found = MenuService::search_by_name(&items, "PIZZA");
    let names: Vec<&str> = found.iter().map(|i| i.name.as_str()).collect();
    assert_eq!(names, vec!["Margherita Pizza", "Pizza Bread"]);
    assert_eq!(MenuService::search_by_name(&items, "").len(), 3);
    assert!(MenuService::search_by_name(&items, "soup").is_empty());
}

#[test]
fn table_status_follows_latest_active_order() {
    let orders = vec![
        order("o1", 1, OrderStatus::Served, 100),
        order("o2", 1, OrderStatus::Preparing, 200),
        order("o3", 1, OrderStatus::Completed, 300),
        order("o4", 2, OrderStatus::Pending, 50),
        order("o5", 3, OrderStatus::Cancelled, 10),
        order("o6", 4, OrderStatus::Served, 10),
        order("o7", 5, OrderStatus::Ready, 10),
        order("o8", 5, OrderStatus::Confirmed, 10),
    ];
    assert_eq!(TableService::get_table_status(&orders, 1), TableStatus::Serving);
    assert_eq!(TableService::get_table_status(&orders, 2), TableStatus::Occupied);
    assert_eq!(TableService::get_table_status(&orders, 3), TableStatus::Free);
    assert_eq!(TableService::get_table_status(&orders, 4), TableStatus::Billing);
    // Two orders placed at the same instant: the later one in the list decides.
    assert_eq!(TableService::get_table_status(&orders, 5), TableStatus::Occupied);
    assert_eq!(TableService::get_table_status(&orders, 6), TableStatus::Free);
    assert_eq!(TableService::current_order(&orders, 1), Some(1));
    assert_eq!(TableService::current_order(&orders, 5), Some(7));
    assert_eq!(TableService::current_order(&orders, 3), None);
}

#[test]
fn all_tables_are_listed_in_order() {
    let orders = vec![
        order("o1", 2, OrderStatus::Pending, 100),
        order("o2", 3, OrderStatus::Served, 100),
    ];
    let tables = TableService::get_all_table_statuses(&orders, 4);
    assert_eq!(tables.len(), 4);
    for (k, table) in tables.iter().enumerate() {
        assert_eq!(table.number, k as i32 + 1);
        assert_eq!(table.seats, 4);
    }
    assert_eq!(tables[0].status, TableStatus::Free);
    assert_eq!(tables[0].current_order_id, None);
    assert_eq!(tables[1].status, TableStatus::Occupied);
    assert_eq!(tables[1].current_order_id, Some("o1".to_string()));
    assert_eq!(tables[2].status, TableStatus::Billing);
    assert_eq!(tables[2].current_order_id, Some("o2".to_string()));
    assert_eq!(tables[3].status, TableStatus::Free);
    assert!(TableService::get_all_table_statuses(&orders, 0).is_empty());
    assert!(TableService::get_all_table_statuses(&orders, -3).is_empty());
}

fn line(id: &str, quantity: i32) -> OrderItem {
    OrderItem { menu_item_id: id.to_string(), quantity, unit_price: amount(1.0), notes: None }
}

fn read(lines: Vec<OrderItem>) -> Result<Vec<OrderItem>, String> {
    Ok(lines)
}

fn unread() -> Result<Vec<OrderItem>, String> {
    Err("expected value at line 1 column 1".to_string())
}

#[test]
fn best_sellers_come_first() {
    let orders = vec![
        read(vec![line("pizza", 2), line("salad", 1)]),
        unread(),
        read(vec![]),
        read(vec![line("pizza", 3), line("wings", 7), line("salad", 1)]),
        read(vec![line("pasta", 4)]),
    ];
    let top = AnalyticsService::get_top_selling_items(&orders, 10);
    assert_eq!(
        top,
        vec![
            ("wings".to_string(), 7),
            ("pizza".to_string(), 5),
            ("pasta".to_string(), 4),
            ("salad".to_string(), 2),
        ]
    );
    let two = AnalyticsService::get_top_selling_items(&orders, 2);
    assert_eq!(two, vec![("wings".to_string(), 7), ("pizza".to_string(), 5)]);
    assert!(AnalyticsService::get_top_selling_items(&orders, 0).is_empty());
    assert!(AnalyticsService::get_top_selling_items(&[], 5).is_empty());
    assert!(AnalyticsService::get_top_selling_items(&[unread(), unread()], 5).is_empty());
}

#[test]
fn best_sellers_count_returns_and_ties() {
    let lines = vec![line("a", 5), line("b", 2), line("a", -5), line("c", 2), line("d", 0)];
    let top = AnalyticsService::top_selling_lines(&lines, 4).unwrap();
    let counts: Vec<i32> = top.iter().map(|e| e.1).collect();
    assert_eq!(counts, vec![2, 2, 0, 0]);
    let mut ids: Vec<&str> = top.iter().map(|e| e.0.as_str()).collect();
    ids.sort();
    assert_eq!(ids, vec!["a", "b", "c", "d"]);
    let extremes = vec![read(vec![line("x", i32::MAX), line("y", i32::MIN)]), read(vec![line("x", -1)])];
    let top = AnalyticsService::get_top_selling_items(&extremes, 9);
    assert_eq!(top, vec![("x".to_string(), i32::MAX - 1), ("y".to_string(), i32::MIN)]);
}

#[test]
fn best_sellers_refuse_quantities_beyond_the_range() {
    let fine = vec![line("x", i32::MAX), line("x", -1), line("x", 1)];
    assert_eq!(
        AnalyticsService::top_selling_lines(&fine, 1),
        Some(vec![("x".to_string(), i32::MAX)])
    );
    let over = vec![line("x", i32::MAX), line("y", 1), line("x", 1), line("x", -5)];
    assert_eq!(AnalyticsService::top_selling_lines(&over, 1), None);
    assert_eq!(AnalyticsService::try_top_selling_items(&[read(over)], 1), None);
    let under = vec![line("x", i32::MIN), line("x", -1)];
    assert_eq!(AnalyticsService::top_selling_lines(&under, 1), None);
    assert_eq!(AnalyticsService::top_selling_lines(&[], 3), Some(vec![]));
    assert_eq!(
        AnalyticsService::try_top_selling_items(&[read(fine), unread()], 3),
        Some(vec![("x".to_string(), i32::MAX)])
    );
}

fn priced(quantity: i32, unit_price: f64) -> OrderItem {
    OrderItem {
        menu_item_id: "1".to_string(),
        quantity,
        unit_price: amount(unit_price),
        notes: None,
    }
}

fn order_for(table_number: i32, total: f64) -> Order {
    Order {
        id: "1".to_string(),
        table_number,
        status: OrderStatus::Pending,
        total_amount: amount(total),
        items: String::new(),
        created_at: Timestamp::new(0, 0),
        updated_at: Timestamp::new(0, 0),
    }
}

#[test]
fn test_order_validation() {
    let valid_order = Order {
        id: "1".to_string(),
        table_number: 1,
        status: OrderStatus::Pending,
        total_amount: amount(25.0),
        items: "[{\"menu_item_id\":\"1\",\"quantity\":2,\"unit_price\":12.5,\"notes\":null}]"
            .to_string(),
        created_at: Timestamp::new(0, 0),
        updated_at: Timestamp::new(0, 0),
    };
    let lines = Ok(vec![OrderItem {
        menu_item_id: "1".to_string(),
        quantity: 2,
        unit_price: amount(12.5),
        notes: None,
    }]);

    assert!(OrderService::validate_order(&valid_order, &lines).is_ok());
}

#[test]
fn order_validation_reports_the_first_rule_broken() {
    let fine = Ok(vec![priced(2, 12.5)]);
    assert_eq!(
        OrderService::validate_order(&order_for(0, -1.0), &Err("bad json".to_string())),
        Err(ValidationError::InvalidTableNumber)
    );
    assert_eq!(
        OrderService::validate_order(&order_for(-4, 1.0), &fine),
        Err(ValidationError::InvalidTableNumber)
    );
    assert_eq!(
        OrderService::validate_order(&order_for(1, -0.01), &Err("bad json".to_string())),
        Err(ValidationError::InvalidTotalAmount)
    );
    assert_eq!(
        OrderService::validate_order(&order_for(1, 0.0), &Err("bad json".to_string())),
        Err(ValidationError::UnreadableItems("bad json".to_string()))
    );
    assert_eq!(
        OrderService::validate_order(&order_for(1, 0.0), &Ok(vec![])),
        Err(ValidationError::NoItems)
    );
    assert_eq!(
        OrderService::validate_order(
            &order_for(1, 0.0),
            &Ok(vec![priced(1, 1.0), priced(0, -1.0), priced(1, -1.0)])
        ),
        Err(ValidationError::InvalidQuantity)
    );
    assert_eq!(
        OrderService::validate_order(
            &order_for(1, 0.0),
            &Ok(vec![priced(1, 1.0), priced(1, -1.0), priced(0, 1.0)])
        ),
        Err(ValidationError::InvalidUnitPrice)
    );
    assert_eq!(
        OrderService::validate_order(&order_for(1, -0.0), &Ok(vec![priced(1, 0.0), priced(7, -0.0)])),
        Ok(())
    );
    assert_eq!(OrderService::validate_lines(&[]), Ok(()));
    assert_eq!(
        OrderService::validate_lines(&[priced(i32::MIN, 1.0)]),
        Err(ValidationError::InvalidQuantity)
    );
    assert_eq!(ValidationError::InvalidTableNumber.message(), "Invalid table number");
    assert_eq!(ValidationError::InvalidTotalAmount.message(), "Invalid total amount");
    assert_eq!(ValidationError::UnreadableItems("why".to_string()).message(), "why");
    assert_eq!(ValidationError::NoItems.message(), "Order must contain at least one item");
    assert_eq!(ValidationError::InvalidQuantity.message(), "Invalid quantity for item");
    assert_eq!(ValidationError::InvalidUnitPrice.message(), "Invalid unit price for item");
}

#[test]
fn menu_item_validation_checks_name_price_category() {
    let mut item = menu_item("Soup", "Starter", true);
    assert_eq!(MenuService::validate_menu_item(&item), Ok(()));
    item.price = amount(0.0);
    assert_eq!(MenuService::validate_menu_item(&item), Ok(()));
    item.category = " ".to_string();
    assert_eq!(MenuService::validate_menu_item(&item), Err(ValidationError::EmptyCategory));
    item.price = amount(-0.5);
    assert_eq!(MenuService::validate_menu_item(&item), Err(ValidationError::NegativePrice));
    item.name = "\t".to_string();
    assert_eq!(MenuService::validate_menu_item(&item), Err(ValidationError::EmptyMenuItemName));
    assert_eq!(ValidationError::EmptyMenuItemName.message(), "Menu item name cannot be empty");
    assert_eq!(ValidationError::NegativePrice.message(), "Menu item price cannot be negative");
    assert_eq!(ValidationError::EmptyCategory.message(), "Menu item category cannot be empty");
}

#[test]
fn amounts_know_their_sign() {
    let values = [
        0.0,
        -0.0,
        1.0,
        -1.0,
        12.5,
        -12.5,
        f64::MIN_POSITIVE,
        -f64::MIN_POSITIVE,
        5e-324,
        -5e-324,
        f64::MAX,
        f64::MIN,
        f64::INFINITY,
        f64::NEG_INFINITY,
        f64::NAN,
        -f64::NAN,
        f64::EPSILON,
        -f64::EPSILON,
    ];
    for value in values {
        assert_eq!(amount(value).is_negative(), value < 0.0, "{value}");
        assert_eq!(amount(value).to_bits(), value.to_bits());
    }
    // Not-a-number patterns with the sign bit set, at both ends of their range.
    assert!(!Amount::from_bits(0xFFF0_0000_0000_0001).is_negative());
    assert!(!Amount::from_bits(u64::MAX).is_negative());
    assert!(Amount::from_bits(0xFFF0_0000_0000_0000).is_negative());
    assert!(Amount::from_bits(0x8000_0000_0000_0001).is_negative());
    assert!(!Amount::from_bits(0x8000_0000_0000_0000).is_negative());
    assert!(!Amount::from_bits(0x7FFF_FFFF_FFFF_FFFF).is_negative());
}
