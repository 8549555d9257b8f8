//! Helpers: pagination, grouping, input checks and wording of times.

pub mod constants;
pub mod grouping;
pub mod pagination;
pub mod text;
pub mod validation;
pub mod wording;

pub use grouping::group_by;
pub use pagination::{paginate, Pagination};
pub use validation::{is_valid_email, is_valid_phone};
pub use wording::{format_date, format_datetime, generate_id, time_ago, time_ago_at};
