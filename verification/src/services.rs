//! Business rules: which order transitions are allowed, who is on the
//! roster, what a table is being used for, what the menu offers.

pub mod analytics;

use vstd::prelude::*;
use vstd::string::StringExecFns;
use crate::db::models::{
    MenuItem,
    Order,
    OrderItem,
    OrderStatus,
    Staff,
    StaffRole,
    Table,
    TableStatus,
};
use crate::utils::text::{
    blank,
    contains_char,
    contains_text,
    has_substring,
    is_blank,
    lowercase,
    to_lowercase,
};

verus! {

/// Seats at a table where nothing else is known.
pub const DEFAULT_SEATS: i32 = 4;

/// Why a record was refused.
#[derive(Debug, PartialEq, Eq)]
pub enum ValidationError {
    /// The order's table number is not positive.
    InvalidTableNumber,
    /// The order's total is negative.
    InvalidTotalAmount,
    /// The order's lines could not be read, for the reason given.
    UnreadableItems(String),
    /// The order has no line.
    NoItems,
    /// A line's quantity is not positive.
    InvalidQuantity,
    /// A line's unit price is negative.
    InvalidUnitPrice,
    /// The menu item's name is empty or blank.
    EmptyMenuItemName,
    /// The menu item's price is negative.
    NegativePrice,
    /// The menu item's category is empty or blank.
    EmptyCategory,
    /// The staff member's name is empty or blank.
    EmptyStaffName,
    /// The staff member's email address holds no `@`.
    InvalidEmail,
}

impl ValidationError {
    /// The refusal in words.
    pub open spec fn text(self) -> Seq<char> {
        match self {
            ValidationError::InvalidTableNumber => "Invalid table number"@,
            ValidationError::InvalidTotalAmount => "Invalid total amount"@,
            ValidationError::UnreadableItems(reason) => reason@,
            ValidationError::NoItems => "Order must contain at least one item"@,
            ValidationError::InvalidQuantity => "Invalid quantity for item"@,
            ValidationError::InvalidUnitPrice => "Invalid unit price for item"@,
            ValidationError::EmptyMenuItemName => "Menu item name cannot be empty"@,
            ValidationError::NegativePrice => "Menu item price cannot be negative"@,
            ValidationError::EmptyCategory => "Menu item category cannot be empty"@,
            ValidationError::EmptyStaffName => "Staff name cannot be empty"@,
            ValidationError::InvalidEmail => "Invalid email format"@,
        }
    }

    /// The refusal in words.
    pub fn message(&self) -> (m: String)
        ensures
            m@ == self.text(),
    {
        match self {
            ValidationError::InvalidTableNumber => String::from_str("Invalid table number"),
            ValidationError::InvalidTotalAmount => String::from_str("Invalid total amount"),
            ValidationError::UnreadableItems(reason) => reason.clone(),
            ValidationError::NoItems => String::from_str("Order must contain at least one item"),
            ValidationError::InvalidQuantity => String::from_str("Invalid quantity for item"),
            ValidationError::InvalidUnitPrice => String::from_str("Invalid unit price for item"),
            ValidationError::EmptyMenuItemName => String::from_str(
                "Menu item name cannot be empty",
            ),
            ValidationError::NegativePrice => String::from_str(
                "Menu item price cannot be negative",
            ),
            ValidationError::EmptyCategory => String::from_str(
                "Menu item category cannot be empty",
            ),
            ValidationError::EmptyStaffName => String::from_str("Staff name cannot be empty"),
            ValidationError::InvalidEmail => String::from_str("Invalid email format"),
        }
    }
}

/// What is wrong with one line of an order, if anything: the quantity is
/// looked at before the price.
pub open spec fn line_refusal(line: OrderItem) -> Option<ValidationError> {
    if line.quantity <= 0 {
        Some(ValidationError::InvalidQuantity)
    } else if line.unit_price.spec_is_negative() {
        Some(ValidationError::InvalidUnitPrice)
    } else {
        None
    }
}

/// What is wrong with the lines of an order, if anything: what is wrong
/// with the first line that is not in order.
pub open spec fn lines_verdict(lines: Seq<OrderItem>) -> Result<(), ValidationError>
    decreases lines.len(),
{
    if lines.len() == 0 {
        Ok(())
    } else {
        match line_refusal(lines.first()) {
            Some(refusal) => Err(refusal),
            None => lines_verdict(lines.drop_first()),
        }
    }
}

/// What [`OrderService::validate_order`] makes of an order and its lines.
/// `lines` is what became of reading the order's stored lines: the lines,
/// or the reason why they could not be read.
pub open spec fn order_verdict(order: Order, lines: Result<Vec<OrderItem>, String>) -> Result<
    (),
    ValidationError,
> {
    if order.table_number <= 0 {
        Err(ValidationError::InvalidTableNumber)
    } else if order.total_amount.spec_is_negative() {
        Err(ValidationError::InvalidTotalAmount)
    } else {
        match lines {
            Err(reason) => Err(ValidationError::UnreadableItems(reason)),
            Ok(read) => if read@.len() == 0 {
                Err(ValidationError::NoItems)
            } else {
                lines_verdict(read@)
            },
        }
    }
}

/// What [`MenuService::validate_menu_item`] makes of a menu item.
pub open spec fn menu_item_verdict(item: MenuItem) -> Result<(), ValidationError> {
    if is_blank(item.name@) {
        Err(ValidationError::EmptyMenuItemName)
    } else if item.price.spec_is_negative() {
        Err(ValidationError::NegativePrice)
    } else if is_blank(item.category@) {
        Err(ValidationError::EmptyCategory)
    } else {
        Ok(())
    }
}

/// Order processing rules.
#[derive(Clone, Copy, Debug)]
pub struct OrderService;

/// The status that follows `status` in the ordinary course of an order.
pub open spec fn next_status(status: OrderStatus) -> Option<OrderStatus> {
    match status {
        OrderStatus::Pending => Some(OrderStatus::Confirmed),
        OrderStatus::Confirmed => Some(OrderStatus::Preparing),
        OrderStatus::Preparing => Some(OrderStatus::Ready),
        OrderStatus::Ready => Some(OrderStatus::Served),
        OrderStatus::Served => Some(OrderStatus::Completed),
        OrderStatus::Completed => None,
        OrderStatus::Cancelled => None,
    }
}

/// An order may move one step forward in its course, and it may be
/// cancelled from any status.
pub open spec fn allowed_transition(current: OrderStatus, new: OrderStatus) -> bool {
    new == OrderStatus::Cancelled || next_status(current) == Some(new)
}

impl OrderService {
    /// Checks an order before it is processed. `lines` is what became of
    /// reading the order's stored lines.
    ///
    /// In this order: the table number must be positive; the total must not
    /// be negative; the lines must have been read; there must be at least
    /// one line; and every line must have a positive quantity and a price
    /// that is not negative. The first rule broken is the one reported.
    pub fn validate_order(order: &Order, lines: &Result<Vec<OrderItem>, String>) -> (r: Result<
        (),
        ValidationError,
    >)
        ensures
            r == order_verdict(*order, *lines),
    {
        if order.table_number <= 0 {
            return Err(ValidationError::InvalidTableNumber);
        }
        if order.total_amount.is_negative() {
            return Err(ValidationError::InvalidTotalAmount);
        }
        match lines {
            Err(reason) => Err(ValidationError::UnreadableItems(reason.clone())),
            Ok(read) => {
                if read.len() == 0 {
                    Err(ValidationError::NoItems)
                } else {
                    Self::validate_lines(read.as_slice())
                }
            },
        }
    }

    /// Checks the lines of an order one after the other: each must have a
    /// positive quantity and a price that is not negative. What is wrong
    /// with the first line that is not in order is reported.
    pub fn validate_lines(lines: &[OrderItem]) -> (r: Result<(), ValidationError>)
        ensures
            r == lines_verdict(lines@),
    {
        let mut k: usize = 0;
        proof {
            assert(lines@.skip(0) =~= lines@);
        }
        while k < lines.len()
            invariant
                k <= lines@.len(),
                lines_verdict(lines@) == lines_verdict(lines@.skip(k as int)),
            decreases lines@.len() - k,
        {
            proof {
                let rest = lines@.skip(k as int);
                assert(rest.first() == lines@[k as int]);
                assert(rest.drop_first() =~= lines@.skip(k + 1));
            }
            if lines[k].quantity <= 0 {
                return Err(ValidationError::InvalidQuantity);
            }
            if lines[k].unit_price.is_negative() {
                return Err(ValidationError::InvalidUnitPrice);
            }
            k = k + 1;
        }
        proof {
            assert(lines@.skip(lines@.len() as int).len() == 0);
        }
        Ok(())
    }

    /// Whether an order in status `current` may be moved to status `new`.
    pub fn can_update_status(current: &OrderStatus, new: &OrderStatus) -> (allowed: bool)
        ensures
            allowed == allowed_transition(*current, *new),
    {
        match (current, new) {
            (OrderStatus::Pending, OrderStatus::Confirmed) => true,
            (OrderStatus::Confirmed, OrderStatus::Preparing) => true,
            (OrderStatus::Preparing, OrderStatus::Ready) => true,
            (OrderStatus::Ready, OrderStatus::Served) => true,
            (OrderStatus::Served, OrderStatus::Completed) => true,
            (_, OrderStatus::Cancelled) => true,
            _ => false,
        }
    }
}

/// Staff rules.
#[derive(Clone, Copy, Debug)]
pub struct StaffService;

/// What [`StaffService::validate_staff`] makes of a name and an email
/// address.
pub open spec fn staff_verdict(name: Seq<char>, email: Option<Seq<char>>) -> Result<
    (),
    ValidationError,
> {
    if is_blank(name) {
        Err(ValidationError::EmptyStaffName)
    } else if email is Some && !email->0.contains('@') {
        Err(ValidationError::InvalidEmail)
    } else {
        Ok(())
    }
}

impl StaffService {
    /// Whether `staff` is on the active roster in the role `role`.
    pub open spec fn on_roster_as(staff: Staff, role: StaffRole) -> bool {
        staff.role == role && staff.is_active
    }

    /// Checks a staff record: the name must hold more than white space, and
    /// an email address, where there is one, must hold an `@`. The name is
    /// checked first.
    pub fn validate_staff(staff: &Staff) -> (r: Result<(), ValidationError>)
        ensures
            r == staff_verdict(
                staff.name@,
                match staff.email {
                    Some(e) => Some(e@),
                    None => None,
                },
            ),
    {
        if blank(staff.name.as_str()) {
            return Err(ValidationError::EmptyStaffName);
        }
        match &staff.email {
            Some(email) => {
                if !contains_char(email.as_str(), '@') {
                    return Err(ValidationError::InvalidEmail);
                }
            },
            None => {},
        }
        Ok(())
    }

    /// The active members of `staff` in the role `role`, in their order.
    pub fn filter_by_role(staff: &[Staff], role: &StaffRole) -> (found: Vec<Staff>)
        ensures
            found@ == staff@.filter(|s: Staff| Self::on_roster_as(s, *role)),
    {
        let ghost pred = |s: Staff| Self::on_roster_as(s, *role);
        let mut found: Vec<Staff> = Vec::new();
        let mut k: usize = 0;
        proof {
            assert(staff@.take(0) =~= Seq::<Staff>::empty());
            assert(staff@.take(0).filter(pred) =~= Seq::<Staff>::empty()) by {
                reveal(Seq::filter);
            }
        }
        while k < staff.len()
            invariant
                k <= staff@.len(),
                pred == (|s: Staff| Self::on_roster_as(s, *role)),
                found@ == staff@.take(k as int).filter(pred),
            decreases staff@.len() - k,
        {
            proof {
                assert(staff@.take(k + 1) =~= staff@.take(k as int).push(staff@[k as int]));
                staff@.take(k as int).lemma_filter_push(staff@[k as int], pred);
            }
            if staff[k].role == *role && staff[k].is_active {
                found.push(staff[k].clone());
            }
            k = k + 1;
        }
        proof {
            assert(staff@.take(staff@.len() as int) =~= staff@);
        }
        found
    }

    /// Number of active members among `staff`.
    pub fn get_active_count(staff: &[Staff]) -> (n: usize)
        ensures
            n == staff@.filter(|s: Staff| s.is_active).len(),
    {
        let ghost pred = |s: Staff| s.is_active;
        let mut n: usize = 0;
        let mut k: usize = 0;
        proof {
            assert(staff@.take(0).filter(pred) =~= Seq::<Staff>::empty()) by {
                reveal(Seq::filter);
            }
        }
        while k < staff.len()
            invariant
                k <= staff@.len(),
                pred == (|s: Staff| s.is_active),
                n == staff@.take(k as int).filter(pred).len(),
                n <= k,
            decreases staff@.len() - k,
        {
            proof {
                assert(staff@.take(k + 1) =~= staff@.take(k as int).push(staff@[k as int]));
                staff@.take(k as int).lemma_filter_len_push(pred, staff@[k as int]);
            }
            if staff[k].is_active {
                n = n + 1;
            }
            k = k + 1;
        }
        proof {
            assert(staff@.take(staff@.len() as int) =~= staff@);
        }
        n
    }
}

/// Menu rules.
#[derive(Clone, Copy, Debug)]
pub struct MenuService;

impl MenuService {
    /// Checks a menu item: the name must hold more than white space, the
    /// price must not be negative, and the category must hold more than
    /// white space. The first rule broken is the one reported.
    pub fn validate_menu_item(item: &MenuItem) -> (r: Result<(), ValidationError>)
        ensures
            r == menu_item_verdict(*item),
    {
        if blank(item.name.as_str()) {
            return Err(ValidationError::EmptyMenuItemName);
        }
        if item.price.is_negative() {
            return Err(ValidationError::NegativePrice);
        }
        if blank(item.category.as_str()) {
            return Err(ValidationError::EmptyCategory);
        }
        Ok(())
    }

    /// Whether `item` can be ordered and belongs to `category`.
    pub open spec fn offered_in(item: MenuItem, category: Seq<char>) -> bool {
        item.category@ == category && item.is_available
    }

    /// Whether `item` can be ordered and its name, in lower case, holds
    /// `query`, in lower case.
    pub open spec fn offered_named(item: MenuItem, query: Seq<char>) -> bool {
        has_substring(lowercase(item.name@), lowercase(query)) && item.is_available
    }

    /// The available items of `items` in the category `category`, in their
    /// order. The category must match letter for letter.
    pub fn filter_by_category(items: &[MenuItem], category: &str) -> (found: Vec<MenuItem>)
        ensures
            found@ == items@.filter(|item: MenuItem| Self::offered_in(item, category@)),
    {
        let ghost pred = |item: MenuItem| Self::offered_in(item, category@);
        let wanted = String::from_str(category);
        let mut found: Vec<MenuItem> = Vec::new();
        let mut k: usize = 0;
        proof {
            assert(items@.take(0).filter(pred) =~= Seq::<MenuItem>::empty()) by {
                reveal(Seq::filter);
            }
        }
        while k < items.len()
            invariant
                k <= items@.len(),
                wanted@ == category@,
                pred == (|item: MenuItem| Self::offered_in(item, category@)),
                found@ == items@.take(k as int).filter(pred),
            decreases items@.len() - k,
        {
            proof {
                assert(items@.take(k + 1) =~= items@.take(k as int).push(items@[k as int]));
                items@.take(k as int).lemma_filter_push(items@[k as int], pred);
            }
            if items[k].category == wanted && items[k].is_available {
                found.push(items[k].clone());
            }
            k = k + 1;
        }
        proof {
            assert(items@.take(items@.len() as int) =~= items@);
        }
        found
    }

    /// The available items of `items` whose name holds `query`, in their
    /// order; upper and lower case are not told apart.
    pub fn search_by_name(items: &[MenuItem], query: &str) -> (found: Vec<MenuItem>)
        ensures
            found@ == items@.filter(|item: MenuItem| Self::offered_named(item, query@)),
    {
        let ghost pred = |item: MenuItem| Self::offered_named(item, query@);
        let wanted = to_lowercase(query);
        let mut found: Vec<MenuItem> = Vec::new();
        let mut k: usize = 0;
        proof {
            assert(items@.take(0).filter(pred) =~= Seq::<MenuItem>::empty()) by {
                reveal(Seq::filter);
            }
        }
        while k < items.len()
            invariant
                k <= items@.len(),
                wanted@ == lowercase(query@),
                pred == (|item: MenuItem| Self::offered_named(item, query@)),
                found@ == items@.take(k as int).filter(pred),
            decreases items@.len() - k,
        {
            proof {
                assert(items@.take(k + 1) =~= items@.take(k as int).push(items@[k as int]));
                items@.take(k as int).lemma_filter_push(items@[k as int], pred);
            }
            let name = to_lowercase(items[k].name.as_str());
            if contains_text(name.as_str(), wanted.as_str()) && items[k].is_available {
                found.push(items[k].clone());
            }
            k = k + 1;
        }
        proof {
            assert(items@.take(items@.len() as int) =~= items@);
        }
        found
    }
}

/// Analytics.
#[derive(Clone, Copy, Debug)]
pub struct AnalyticsService;

/// Table rules.
#[derive(Clone, Copy, Debug)]
pub struct TableService;

/// The order at position `i` occupies the table `table_number`: it was
/// placed there and is neither completed nor cancelled.
pub open spec fn occupies(orders: Seq<Order>, table_number: i32, i: int) -> bool {
    &&& 0 <= i < orders.len()
    &&& orders[i].table_number == table_number
    &&& orders[i].status.spec_is_active()
}

/// The order at position `i` is the one that decides what the table
/// `table_number` is being used for: the most recently placed of the orders
/// that occupy it, and of several placed at the same instant the last in
/// the list.
pub open spec fn is_current_order(orders: Seq<Order>, table_number: i32, i: int) -> bool {
    &&& occupies(orders, table_number, i)
    &&& forall|j: int| #[trigger]
        occupies(orders, table_number, j) ==> orders[j].created_at.as_nanos()
            <= orders[i].created_at.as_nanos()
    &&& forall|j: int| #[trigger]
        occupies(orders, table_number, j) && j > i ==> orders[j].created_at.as_nanos()
            < orders[i].created_at.as_nanos()
}

/// What a table is being used for when the order that occupies it stands
/// at `status`.
pub open spec fn table_status_for(status: OrderStatus) -> TableStatus {
    match status {
        OrderStatus::Pending => TableStatus::Occupied,
        OrderStatus::Confirmed => TableStatus::Occupied,
        OrderStatus::Preparing => TableStatus::Serving,
        OrderStatus::Ready => TableStatus::Serving,
        OrderStatus::Served => TableStatus::Billing,
        OrderStatus::Completed => TableStatus::Free,
        OrderStatus::Cancelled => TableStatus::Free,
    }
}

/// What the table `table_number` is, given the position of its current
/// order, if it has one.
pub open spec fn table_for(orders: Seq<Order>, table_number: i32, current: Option<int>) -> Table {
    match current {
        Some(i) => Table {
            number: table_number,
            status: table_status_for(orders[i].status),
            current_order_id: Some(orders[i].id),
            seats: 4,
        },
        None => Table {
            number: table_number,
            status: TableStatus::Free,
            current_order_id: None,
            seats: 4,
        },
    }
}

/// A table has at most one current order.
pub proof fn lemma_current_order_unique(orders: Seq<Order>, table_number: i32, i: int, j: int)
    requires
        is_current_order(orders, table_number, i),
        is_current_order(orders, table_number, j),
    ensures
        i == j,
{
    assert(occupies(orders, table_number, i));
    assert(occupies(orders, table_number, j));
}

impl TableService {
    /// The position of the current order of the table `table_number` among
    /// `orders`; `None` exactly when no order occupies the table.
    pub fn current_order(orders: &[Order], table_number: i32) -> (r: Option<usize>)
        ensures
            match r {
                Some(i) => is_current_order(orders@, table_number, i as int),
                None => forall|j: int| !occupies(orders@, table_number, j),
            },
    {
        let mut best: Option<usize> = None;
        let mut k: usize = 0;
        while k < orders.len()
            invariant
                k <= orders@.len(),
                match best {
                    Some(i) => {
                        &&& i < k
                        &&& occupies(orders@, table_number, i as int)
                        &&& forall|j: int| #[trigger]
                            occupies(orders@, table_number, j) && j < k
                                ==> orders@[j].created_at.as_nanos()
                                <= orders@[i as int].created_at.as_nanos()
                        &&& forall|j: int| #[trigger]
                            occupies(orders@, table_number, j) && i < j < k
                                ==> orders@[j].created_at.as_nanos()
                                < orders@[i as int].created_at.as_nanos()
                    },
                    None => forall|j: int| #[trigger]
                        occupies(orders@, table_number, j) ==> j >= k,
                },
            decreases orders@.len() - k,
        {
            if orders[k].table_number == table_number && orders[k].status.is_active() {
                match best {
                    Some(i) => {
                        if !orders[k].created_at.is_before(&orders[i].created_at) {
                            best = Some(k);
                        }
                    },
                    None => {
                        best = Some(k);
                    },
                }
            }
            k = k + 1;
        }
        best
    }

    /// What the table `table_number` is being used for, judged by `orders`:
    /// free where no order occupies it, and otherwise what its current
    /// order's status says: occupied while the order is pending or
    /// confirmed, serving while it is being prepared or ready, billing once
    /// it is served.
    pub fn get_table_status(orders: &[Order], table_number: i32) -> (status: TableStatus)
        ensures
            (forall|j: int| !occupies(orders@, table_number, j)) ==> status == TableStatus::Free,
            forall|i: int|
                is_current_order(orders@, table_number, i) ==> status == table_status_for(
                    orders@[i].status,
                ),
    {
        match Self::current_order(orders, table_number) {
            Some(i) => {
                proof {
                    assert forall|j: int| is_current_order(orders@, table_number, j) implies j
                        == i by {
                        lemma_current_order_unique(orders@, table_number, i as int, j);
                    }
                }
                match orders[i].status {
                    OrderStatus::Pending => TableStatus::Occupied,
                    OrderStatus::Confirmed => TableStatus::Occupied,
                    OrderStatus::Preparing => TableStatus::Serving,
                    OrderStatus::Ready => TableStatus::Serving,
                    OrderStatus::Served => TableStatus::Billing,
                    _ => TableStatus::Free,
                }
            },
            None => {
                proof {
                    assert forall|i: int| !is_current_order(orders@, table_number, i) by {
                        assert(!occupies(orders@, table_number, i));
                    }
                }
                TableStatus::Free
            },
        }
    }

    /// The tables 1 to `max_tables`, each with four seats, its status and
    /// the identifier of its current order. No table where `max_tables` is
    /// less than 1.
    pub fn get_all_table_statuses(orders: &[Order], max_tables: i32) -> (tables: Vec<Table>)
        ensures
            tables@.len() == if max_tables > 0 {
                max_tables as int
            } else {
                0
            },
            forall|k: int|
                0 <= k < tables@.len() ==> {
                    let number = (k + 1) as i32;
                    &&& (forall|j: int| !occupies(orders@, number, j)) ==> #[trigger] tables@[k]
                        == table_for(orders@, number, None)
                    &&& forall|i: int|
                        is_current_order(orders@, number, i) ==> tables@[k] == table_for(
                            orders@,
                            number,
                            Some(i),
                        )
                },
    {
        let mut tables: Vec<Table> = Vec::new();
        let mut done: i32 = 0;
        while done < max_tables
            invariant
                0 <= done,
                done <= max_tables || done == 0,
                tables@.len() == done,
                forall|k: int|
                    0 <= k < tables@.len() ==> {
                        let n = (k + 1) as i32;
                        &&& (forall|j: int| !occupies(orders@, n, j)) ==> #[trigger] tables@[k]
                            == table_for(orders@, n, None)
                        &&& forall|i: int|
                            is_current_order(orders@, n, i) ==> tables@[k] == table_for(
                                orders@,
                                n,
                                Some(i),
                            )
                    },
            decreases max_tables - done,
        {
            let number: i32 = done + 1;
            let status = Self::get_table_status(orders, number);
            let table = match Self::current_order(orders, number) {
                Some(i) => {
                    proof {
                        assert forall|j: int| is_current_order(orders@, number, j) implies j
                            == i by {
                            lemma_current_order_unique(orders@, number, i as int, j);
                        }
                    }
                    Table {
                        number,
                        status,
                        current_order_id: Some(orders[i].id.clone()),
                        seats: DEFAULT_SEATS,
                    }
                },
                None => {
                    proof {
                        assert forall|i: int| !is_current_order(orders@, number, i) by {
                            assert(!occupies(orders@, number, i));
                        }
                    }
                    Table { number, status, current_order_id: None, seats: DEFAULT_SEATS }
                },
            };
            tables.push(table);
            done = number;
        }
        tables
    }
}

} // verus!
