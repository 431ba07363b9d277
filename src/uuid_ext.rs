use crate::brand::Brand;
use vstd::prelude::*;

verus! {

/// `uuid::Uuid`, carried through as an opaque raw value.
#[verifier::external_type_specification]
#[verifier::external_body]
pub struct ExUuid(uuid::Uuid);

/// `uuid::Variant`, the layout family that a UUID's variant bits name.
#[verifier::external_type_specification]
pub struct ExVariant(uuid::Variant);

/// The version number held in a UUID's version field, as
/// `uuid::Uuid::get_version_num` reads it.
pub uninterp spec fn uuid_version(u: uuid::Uuid) -> usize;

/// The variant named by a UUID's variant bits, as `uuid::Uuid::get_variant`
/// reads it.
pub uninterp spec fn uuid_variant(u: uuid::Uuid) -> uuid::Variant;

/// Relies on `uuid::Uuid::get_version_num`: the high four bits of byte 6.
pub assume_specification[ uuid::Uuid::get_version_num ](u: &uuid::Uuid) -> (r: usize)
    ensures
        r == uuid_version(*u),
;

/// Relies on `uuid::Uuid::get_variant`: the variant that byte 8 names.
pub assume_specification[ uuid::Uuid::get_variant ](u: &uuid::Uuid) -> (r: uuid::Variant)
    ensures
        r == uuid_variant(*u),
;

/// Relies on `uuid::Uuid::new_v4`: a fresh random identifier whose version
/// field is set to 4 and whose variant bits to the RFC 4122 variant.
pub assume_specification[ uuid::Uuid::new_v4 ]() -> (r: uuid::Uuid)
    ensures
        uuid_version(r) == 4,
        uuid_variant(r) == uuid::Variant::RFC4122,
;

impl<Tag> Brand<Tag, uuid::Uuid> {
    /// Creates a new brand value around a freshly generated random (version 4,
    /// RFC 4122 variant) identifier.
    #[must_use]
    pub fn new_v4() -> (r: Self)
        ensures
            uuid_version(r@) == 4,
            uuid_variant(r@) == uuid::Variant::RFC4122,
    {
        Self::unchecked_from_raw(uuid::Uuid::new_v4())
    }
}

} // verus!
