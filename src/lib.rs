//! Branded values: a raw value wrapped in a distinct nominal type.
//!
//! A `Brand<Tag, Raw>` holds one `Raw` value and a zero-size marker of the
//! `Tag` type. Two brands over the same raw type but with different tags are
//! different types, so they cannot be mixed up, while every structural
//! behaviour (equality, ordering, hashing, default) is the raw value's own.

mod brand;
mod uuid_ext;

pub use brand::{
    lemma_cmp_matches_raw, lemma_default_is_brand_of_raw_default, lemma_eq_is_raw_equality,
    lemma_eq_matches_raw, lemma_raw_round_trip, Brand, Tag,
};
pub use uuid_ext::{uuid_variant, uuid_version};
