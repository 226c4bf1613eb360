//! A canonical transaction record for cryptocurrency-exchange activity:
//! its data model, the rules that say which of its fields a transaction
//! kind makes authoritative, its equality and ordering, and its mapping to
//! and from the text cells of a tabular row.

pub mod amount;
pub mod display;
pub mod kind;
pub mod order;
pub mod record;
pub mod row;
pub mod sorting;
pub mod text;

pub use amount::Amount;
pub use kind::{GroupType, TokenTaxRecType};
pub use record::TokenTaxRec;
