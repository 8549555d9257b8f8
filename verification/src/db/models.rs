//! The records the point of sale works with.
//!
//! Every type here is plain data: integers, strings, flags, [`Timestamp`]s
//! and [`Amount`]s. Monetary amounts are floating-point numbers in storage;
//! an [`Amount`] carries such a number as its bit pattern, so that records
//! pass through this crate unchanged. The rules of this crate read the sign
//! of an amount and nothing else; sums and quotients of amounts are the
//! caller's business.

use vstd::prelude::*;
use crate::time::Timestamp;
use crate::utils::wording::generate_id;

verus! {

/// A monetary amount as it is stored: the 64 bits of a binary floating-point
/// number after IEEE 754, sign first, then eleven bits of exponent, then
/// the fraction.
#[derive(Clone, Copy, Debug, PartialEq, Eq, Structural)]
pub struct Amount {
    /// The bit pattern of the number.
    pub bits: u64,
}

impl Amount {
    /// Whether the amount is less than zero. Minus zero is not, and neither
    /// is a pattern that stands for no number at all.
    ///
    /// The patterns of the numbers below zero are those with the sign bit
    /// set, from the smallest magnitude above zero up to minus infinity.
    pub open spec fn spec_is_negative(self) -> bool {
        0x8000_0000_0000_0000 < self.bits <= 0xFFF0_0000_0000_0000
    }

    /// The amount with the bit pattern `bits`.
    pub fn from_bits(bits: u64) -> (a: Amount)
        ensures
            a.bits == bits,
    {
        Amount { bits }
    }

    /// The bit pattern of the amount.
    pub fn to_bits(&self) -> (bits: u64)
        ensures
            bits == self.bits,
    {
        self.bits
    }

    /// Whether the amount is less than zero.
    pub fn is_negative(&self) -> (r: bool)
        ensures
            r == self.spec_is_negative(),
    {
        0x8000_0000_0000_0000 < self.bits && self.bits <= 0xFFF0_0000_0000_0000
    }
}

/// Where an order stands between being placed and being paid.
#[derive(Clone, Copy, Debug, PartialEq, Eq, Structural)]
pub enum OrderStatus {
    /// Placed, not yet confirmed.
    Pending,
    /// Confirmed, waiting for the kitchen.
    Confirmed,
    /// Being prepared.
    Preparing,
    /// Ready to be served.
    Ready,
    /// Served to the customer.
    Served,
    /// Paid and closed.
    Completed,
    /// Cancelled.
    Cancelled,
}

/// What a member of staff does.
#[derive(Clone, Copy, Debug, PartialEq, Eq, Structural)]
pub enum StaffRole {
    /// Restaurant manager.
    Manager,
    /// Waiter or waitress.
    Waiter,
    /// Kitchen staff.
    Chef,
    /// Cashier.
    Cashier,
    /// Host or hostess.
    Host,
}

/// The state a sync-status record reports.
#[derive(Clone, Copy, Debug, PartialEq, Eq, Structural)]
pub enum SyncStatusType {
    /// No attempt has been made.
    Pending,
    /// An attempt has started and has not reported back.
    InProgress,
    /// The attempt succeeded.
    Completed,
    /// The attempt failed.
    Failed,
}

/// What a table is being used for.
#[derive(Clone, Copy, Debug, PartialEq, Eq, Structural)]
pub enum TableStatus {
    /// Free.
    Free,
    /// Guests are seated and have ordered.
    Occupied,
    /// The kitchen is working on the table's order, or it is ready.
    Serving,
    /// Served; the bill is due.
    Billing,
}

impl OrderStatus {
    /// The status as shown to people.
    pub open spec fn label(self) -> Seq<char> {
        match self {
            OrderStatus::Pending => "Pending"@,
            OrderStatus::Confirmed => "Confirmed"@,
            OrderStatus::Preparing => "Preparing"@,
            OrderStatus::Ready => "Ready"@,
            OrderStatus::Served => "Served"@,
            OrderStatus::Completed => "Completed"@,
            OrderStatus::Cancelled => "Cancelled"@,
        }
    }

    /// Whether an order in this status still occupies its table.
    pub open spec fn spec_is_active(self) -> bool {
        self != OrderStatus::Completed && self != OrderStatus::Cancelled
    }

    /// Whether an order in this status still occupies its table: every status
    /// but `Completed` and `Cancelled`.
    pub fn is_active(&self) -> (r: bool)
        ensures
            r == self.spec_is_active(),
    {
        match self {
            OrderStatus::Completed => false,
            OrderStatus::Cancelled => false,
            _ => true,
        }
    }

    /// The status as shown to people.
    pub fn to_string(&self) -> (s: String)
        ensures
            s@ == self.label(),
    {
        match self {
            OrderStatus::Pending => String::from_str("Pending"),
            OrderStatus::Confirmed => String::from_str("Confirmed"),
            OrderStatus::Preparing => String::from_str("Preparing"),
            OrderStatus::Ready => String::from_str("Ready"),
            OrderStatus::Served => String::from_str("Served"),
            OrderStatus::Completed => String::from_str("Completed"),
            OrderStatus::Cancelled => String::from_str("Cancelled"),
        }
    }
}

impl StaffRole {
    /// The role as shown to people.
    pub open spec fn label(self) -> Seq<char> {
        match self {
            StaffRole::Manager => "Manager"@,
            StaffRole::Waiter => "Waiter"@,
            StaffRole::Chef => "Chef"@,
            StaffRole::Cashier => "Cashier"@,
            StaffRole::Host => "Host"@,
        }
    }

    /// The role as shown to people.
    pub fn to_string(&self) -> (s: String)
        ensures
            s@ == self.label(),
    {
        match self {
            StaffRole::Manager => String::from_str("Manager"),
            StaffRole::Waiter => String::from_str("Waiter"),
            StaffRole::Chef => String::from_str("Chef"),
            StaffRole::Cashier => String::from_str("Cashier"),
            StaffRole::Host => String::from_str("Host"),
        }
    }
}

impl SyncStatusType {
    /// The state as shown to people.
    pub open spec fn label(self) -> Seq<char> {
        match self {
            SyncStatusType::Pending => "Pending"@,
            SyncStatusType::InProgress => "In Progress"@,
            SyncStatusType::Completed => "Completed"@,
            SyncStatusType::Failed => "Failed"@,
        }
    }

    /// Whether the state ends an attempt: `Completed` or `Failed`.
    pub open spec fn spec_is_terminal(self) -> bool {
        self == SyncStatusType::Completed || self == SyncStatusType::Failed
    }

    /// Whether the state ends an attempt: `Completed` or `Failed`.
    pub fn is_terminal(&self) -> (r: bool)
        ensures
            r == self.spec_is_terminal(),
    {
        match self {
            SyncStatusType::Completed => true,
            SyncStatusType::Failed => true,
            _ => false,
        }
    }

    /// The state as shown to people.
    pub fn to_string(&self) -> (s: String)
        ensures
            s@ == self.label(),
    {
        match self {
            SyncStatusType::Pending => String::from_str("Pending"),
            SyncStatusType::InProgress => String::from_str("In Progress"),
            SyncStatusType::Completed => String::from_str("Completed"),
            SyncStatusType::Failed => String::from_str("Failed"),
        }
    }
}

impl TableStatus {
    /// The status as shown to people.
    pub open spec fn label(self) -> Seq<char> {
        match self {
            TableStatus::Free => "Free"@,
            TableStatus::Occupied => "Occupied"@,
            TableStatus::Serving => "Serving"@,
            TableStatus::Billing => "Billing"@,
        }
    }

    /// The status as shown to people.
    pub fn to_string(&self) -> (s: String)
        ensures
            s@ == self.label(),
    {
        match self {
            TableStatus::Free => String::from_str("Free"),
            TableStatus::Occupied => String::from_str("Occupied"),
            TableStatus::Serving => String::from_str("Serving"),
            TableStatus::Billing => String::from_str("Billing"),
        }
    }
}

/// The characters of an optional string, where there is one.
pub open spec fn opt_text(s: Option<String>) -> Option<Seq<char>> {
    match s {
        Some(t) => Some(t@),
        None => None,
    }
}

/// A copy of an optional string.
pub fn clone_opt_string(s: &Option<String>) -> (r: Option<String>)
    ensures
        r == *s,
{
    match s {
        Some(t) => Some(t.clone()),
        None => None,
    }
}

/// A member of staff.
#[derive(Debug)]
pub struct Staff {
    /// Unique identifier.
    pub id: String,
    /// Full name.
    pub name: String,
    /// Role.
    pub role: StaffRole,
    /// Email address.
    pub email: Option<String>,
    /// Phone number.
    pub phone: Option<String>,
    /// Whether the member is on the active roster.
    pub is_active: bool,
    /// When the record was created.
    pub created_at: Timestamp,
    /// When the record was last changed.
    pub updated_at: Timestamp,
}

impl Clone for Staff {
    fn clone(&self) -> (s: Self)
        ensures
            s == *self,
    {
        Staff {
            id: self.id.clone(),
            name: self.name.clone(),
            role: self.role,
            email: clone_opt_string(&self.email),
            phone: clone_opt_string(&self.phone),
            is_active: self.is_active,
            created_at: self.created_at,
            updated_at: self.updated_at,
        }
    }
}

impl Staff {
    /// A new, active member of staff under a freshly generated identifier,
    /// created at the present moment.
    pub fn new(name: String, role: StaffRole, email: Option<String>, phone: Option<String>) -> (staff:
        Staff)
        ensures
            staff.name == name,
            staff.role == role,
            staff.email == email,
            staff.phone == phone,
            staff.is_active,
            staff.created_at == staff.updated_at,
    {
        let now = Timestamp::now();
        Staff {
            id: generate_id(),
            name,
            role,
            email,
            phone,
            is_active: true,
            created_at: now,
            updated_at: now,
        }
    }
}

/// An order. `items` is the stored text of its lines.
#[derive(Debug)]
pub struct Order {
    /// Unique identifier.
    pub id: String,
    /// Number of the table the order was placed at.
    pub table_number: i32,
    /// Where the order stands.
    pub status: OrderStatus,
    /// Total of the order.
    pub total_amount: Amount,
    /// The order's lines, as stored.
    pub items: String,
    /// When the order was placed.
    pub created_at: Timestamp,
    /// When the order was last changed.
    pub updated_at: Timestamp,
}

impl Clone for Order {
    fn clone(&self) -> (s: Self)
        ensures
            s == *self,
    {
        Order {
            id: self.id.clone(),
            table_number: self.table_number,
            status: self.status,
            total_amount: self.total_amount,
            items: self.items.clone(),
            created_at: self.created_at,
            updated_at: self.updated_at,
        }
    }
}

/// One line of an order: which menu item, how many, and at what price.
#[derive(Debug)]
pub struct OrderItem {
    /// Identifier of the menu item.
    pub menu_item_id: String,
    /// Quantity ordered.
    pub quantity: i32,
    /// Price of one unit.
    pub unit_price: Amount,
    /// Special instructions.
    pub notes: Option<String>,
}

impl Clone for OrderItem {
    fn clone(&self) -> (s: Self)
        ensures
            s == *self,
    {
        OrderItem {
            menu_item_id: self.menu_item_id.clone(),
            quantity: self.quantity,
            unit_price: self.unit_price,
            notes: clone_opt_string(&self.notes),
        }
    }
}

/// An item of the menu.
#[derive(Debug)]
pub struct MenuItem {
    /// Unique identifier.
    pub id: String,
    /// Name.
    pub name: String,
    /// Description.
    pub description: Option<String>,
    /// Price.
    pub price: Amount,
    /// Category, such as "Pizza" or "Salad".
    pub category: String,
    /// Address of a picture.
    pub image_url: Option<String>,
    /// Whether the item can be ordered.
    pub is_available: bool,
    /// When the item was created.
    pub created_at: Timestamp,
    /// When the item was last changed.
    pub updated_at: Timestamp,
}

impl Clone for MenuItem {
    fn clone(&self) -> (s: Self)
        ensures
            s == *self,
    {
        MenuItem {
            id: self.id.clone(),
            name: self.name.clone(),
            description: clone_opt_string(&self.description),
            price: self.price,
            category: self.category.clone(),
            image_url: clone_opt_string(&self.image_url),
            is_available: self.is_available,
            created_at: self.created_at,
            updated_at: self.updated_at,
        }
    }
}

impl MenuItem {
    /// A new, available menu item under a freshly generated identifier,
    /// created at the present moment and without a picture.
    pub fn new(name: String, description: Option<String>, price: Amount, category: String) -> (item:
        MenuItem)
        ensures
            item.name == name,
            item.description == description,
            item.price == price,
            item.category == category,
            item.image_url is None,
            item.is_available,
            item.created_at == item.updated_at,
    {
        let now = Timestamp::now();
        MenuItem {
            id: generate_id(),
            name,
            description,
            price,
            category,
            image_url: None,
            is_available: true,
            created_at: now,
            updated_at: now,
        }
    }
}

/// One sync-status record. Records are only ever added to the log; the
/// current status is the record with the greatest `(created_at, id)`.
#[derive(Debug)]
pub struct SyncStatus {
    /// Identifier given by the store; a record that has not been stored
    /// carries 0.
    pub id: i32,
    /// When the attempt this record belongs to was last under way; `None`
    /// means no attempt was ever made.
    pub last_sync_at: Option<Timestamp>,
    /// The state the record reports.
    pub sync_status: SyncStatusType,
    /// Why the attempt failed; present only on `Failed` records.
    pub error_message: Option<String>,
    /// When the record was created.
    pub created_at: Timestamp,
}

/// What a [`SyncStatus`] says, with its message as characters.
pub struct SyncStatusView {
    /// Identifier.
    pub id: int,
    /// Time of the attempt.
    pub last_sync_at: Option<Timestamp>,
    /// Reported state.
    pub sync_status: SyncStatusType,
    /// Failure message.
    pub error_message: Option<Seq<char>>,
    /// Creation time.
    pub created_at: Timestamp,
}

impl View for SyncStatus {
    type V = SyncStatusView;

    open spec fn view(&self) -> SyncStatusView {
        SyncStatusView {
            id: self.id as int,
            last_sync_at: self.last_sync_at,
            sync_status: self.sync_status,
            error_message: opt_text(self.error_message),
            created_at: self.created_at,
        }
    }
}

impl Clone for SyncStatus {
    fn clone(&self) -> (s: Self)
        ensures
            s == *self,
    {
        SyncStatus {
            id: self.id,
            last_sync_at: self.last_sync_at,
            sync_status: self.sync_status,
            error_message: clone_opt_string(&self.error_message),
            created_at: self.created_at,
        }
    }
}

/// A table and what it is being used for.
#[derive(Debug)]
pub struct Table {
    /// Table number, from 1.
    pub number: i32,
    /// What the table is being used for.
    pub status: TableStatus,
    /// The order that currently occupies the table.
    pub current_order_id: Option<String>,
    /// Number of seats.
    pub seats: i32,
}

impl Clone for Table {
    fn clone(&self) -> (s: Self)
        ensures
            s == *self,
    {
        Table {
            number: self.number,
            status: self.status,
            current_order_id: clone_opt_string(&self.current_order_id),
            seats: self.seats,
        }
    }
}

} // verus!
