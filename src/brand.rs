use std::marker::PhantomData;
use vstd::prelude::*;
use vstd::std_specs::cmp::{PartialEqSpec, PartialOrdSpec};

verus! {

/// Implemented by brand type tags: names the brand in debug output.
pub trait Tag {
    /// The brand's name.
    const TAG_NAME: &'static str;
}

/// A raw value under a distinct compile-time identity.
///
/// `Tag` discriminates brands over the same `Raw` type and has no runtime
/// representation. Where `Raw` has equality, ordering, hashing or a default,
/// so does the brand, with the raw value's own results.
pub struct Brand<Tag, Raw> {
    raw: Raw,
    tag: PhantomData<Tag>,
}

impl<Tag, Raw> View for Brand<Tag, Raw> {
    type V = Raw;

    /// A brand is its raw value: the tag carries no data.
    closed spec fn view(&self) -> Raw {
        self.raw
    }
}

impl<Tag, Raw> Brand<Tag, Raw> {
    /// The brand that holds `raw`.
    pub closed spec fn spec_from_raw(raw: Raw) -> Self {
        Brand { raw, tag: PhantomData }
    }

    /// Returns the underlying branded value.
    #[must_use]
    pub fn into_raw(self) -> (r: Raw)
        ensures
            r == self@,
    {
        self.raw
    }

    /// Returns a reference to the underlying branded value.
    #[must_use]
    pub fn as_raw(&self) -> (r: &Raw)
        ensures
            *r == self@,
    {
        &self.raw
    }

    /// Wraps a raw value that may be missing: a value becomes its brand, an
    /// error is handed back as it came.
    pub fn from_raw_result<E>(res: Result<Raw, E>) -> (r: Result<Self, E>)
        ensures
            match res {
                Ok(raw) => r == Ok::<Self, E>(Self::spec_from_raw(raw)),
                Err(e) => r == Err::<Self, E>(e),
            },
    {
        match res {
            Ok(raw) => Ok(Self::unchecked_from_raw(raw)),
            Err(e) => Err(e),
        }
    }

    /// Constructs a new branded value.
    ///
    /// No check is made on `raw`: the caller answers for whatever the brand
    /// is meant to convey about it.
    #[must_use]
    pub fn unchecked_from_raw(raw: Raw) -> (r: Self)
        ensures
            r == Self::spec_from_raw(raw),
            r@ == raw,
    {
        Brand { raw, tag: PhantomData }
    }
}

impl<T: Tag, Raw> Brand<T, Raw> {
    /// The debug text of a brand whose raw value renders as `raw_text`: the
    /// tag's name, then `raw_text` in parentheses.
    pub fn debug_with(raw_text: &str) -> (r: String)
        ensures
            r@ == T::TAG_NAME@ + "("@ + raw_text@ + ")"@,
    {
        let mut s = String::from_str(T::TAG_NAME);
        s.append("(");
        s.append(raw_text);
        s.append(")");
        s
    }

    /// The brand's debug text, such as `UserId(10)`: the tag's name, then the
    /// raw value's own debug text in parentheses.
    pub fn debug_string(&self) -> (r: String)
        where
            Raw: core::fmt::Debug,
        ensures
            exists|t: Seq<char>| r@ == T::TAG_NAME@ + "("@ + t + ")"@,
    {
        let text = debug_text(&self.raw);
        Self::debug_with(text.as_str())
    }
}

/// Relies on `core::fmt::Debug` through `format!("{:?}")`: the value's debug
/// text, whatever its type's `Debug` impl writes.
#[verifier::external_body]
fn debug_text<V: core::fmt::Debug>(v: &V) -> (r: String) {
    format!("{:?}", v)
}

impl<Tag, Raw: Clone> Clone for Brand<Tag, Raw> {
    /// Clones the raw value; the tag carries nothing to clone.
    fn clone(&self) -> (r: Self)
        ensures
            call_ensures(Raw::clone, (&self@,), r@),
    {
        Brand { raw: self.raw.clone(), tag: PhantomData }
    }
}

impl<Tag, Raw: Copy> Copy for Brand<Tag, Raw> {

}

impl<Tag, Raw: PartialEq> PartialEq for Brand<Tag, Raw> {
    fn eq(&self, other: &Self) -> (r: bool) {
        self.raw == other.raw
    }
}

impl<Tag, Raw: PartialEq> vstd::std_specs::cmp::PartialEqSpecImpl for Brand<Tag, Raw> {
    open spec fn obeys_eq_spec() -> bool {
        <Raw as PartialEqSpec>::obeys_eq_spec()
    }

    open spec fn eq_spec(&self, other: &Self) -> bool {
        self@.eq_spec(&other@)
    }
}

impl<Tag, Raw: Eq> Eq for Brand<Tag, Raw> {

}

impl<Tag, Raw: PartialOrd> PartialOrd for Brand<Tag, Raw> {
    fn partial_cmp(&self, other: &Self) -> (r: Option<core::cmp::Ordering>) {
        self.raw.partial_cmp(&other.raw)
    }
}

impl<Tag, Raw: PartialOrd> vstd::std_specs::cmp::PartialOrdSpecImpl for Brand<Tag, Raw> {
    open spec fn obeys_partial_cmp_spec() -> bool {
        <Raw as PartialOrdSpec>::obeys_partial_cmp_spec()
    }

    open spec fn partial_cmp_spec(&self, other: &Self) -> Option<core::cmp::Ordering> {
        self@.partial_cmp_spec(&other@)
    }
}

impl<Tag, Raw: Ord> Ord for Brand<Tag, Raw> {
    /// The raw values' ordering.
    ///
    /// Relies on `Ord::cmp` of the raw type: this forwards to it.
    #[verifier::external_body]
    fn cmp(&self, other: &Self) -> (r: core::cmp::Ordering)
        ensures
            call_ensures(Raw::cmp, (&self@, &other@), r),
    {
        self.raw.cmp(&other.raw)
    }
}

impl<Tag, Raw: core::hash::Hash> core::hash::Hash for Brand<Tag, Raw> {
    /// Feeds the hasher exactly what the raw value feeds it.
    ///
    /// Relies on `Hash::hash` of the raw type, which vstd does not specify.
    #[verifier::external_body]
    fn hash<H: core::hash::Hasher>(&self, state: &mut H) {
        self.raw.hash(state);
    }
}

impl<Tag, Raw: Default> Default for Brand<Tag, Raw> {
    /// The brand of the raw type's default value.
    fn default() -> (r: Self)
        ensures
            call_ensures(Raw::default, (), r@),
    {
        Brand { raw: Raw::default(), tag: PhantomData }
    }
}

/// Constructing a brand from a raw value and taking the raw value back out
/// gives that value; and a brand is the brand of its own raw value.
pub proof fn lemma_raw_round_trip<Tag, Raw>(x: Raw, b: Brand<Tag, Raw>)
    ensures
        Brand::<Tag, Raw>::spec_from_raw(x)@ == x,
        Brand::<Tag, Raw>::spec_from_raw(b@) == b,
{
}

/// Two brands are equal exactly when their raw values are: `==` on brands
/// follows the raw type's `==`, and obeys its specification when the raw
/// type's does.
pub proof fn lemma_eq_matches_raw<Tag, Raw: PartialEq>(x: Raw, y: Raw)
    ensures
        Brand::<Tag, Raw>::spec_from_raw(x).eq_spec(&Brand::<Tag, Raw>::spec_from_raw(y))
            == x.eq_spec(&y),
        <Brand<Tag, Raw> as PartialEqSpec>::obeys_eq_spec()
            == <Raw as PartialEqSpec>::obeys_eq_spec(),
{
}

/// Two brands compare as their raw values do, an absent ordering included.
pub proof fn lemma_cmp_matches_raw<Tag, Raw: PartialOrd>(x: Raw, y: Raw)
    ensures
        Brand::<Tag, Raw>::spec_from_raw(x).partial_cmp_spec(
            &Brand::<Tag, Raw>::spec_from_raw(y),
        ) == x.partial_cmp_spec(&y),
        <Brand<Tag, Raw> as PartialOrdSpec>::obeys_partial_cmp_spec()
            == <Raw as PartialOrdSpec>::obeys_partial_cmp_spec(),
{
}

/// Where the raw type's `==` is an equality on `x` and `y` (it follows its
/// specification, and holds exactly when they are the same value), `==` on
/// their brands is one too: the brands of one value are equal, and the
/// brands of two different values are not.
pub proof fn lemma_eq_is_raw_equality<Tag, Raw: PartialEq>(x: Raw, y: Raw)
    requires
        <Raw as PartialEqSpec>::obeys_eq_spec(),
        x.eq_spec(&y) <==> x == y,
    ensures
        <Brand<Tag, Raw> as PartialEqSpec>::obeys_eq_spec(),
        Brand::<Tag, Raw>::spec_from_raw(x).eq_spec(&Brand::<Tag, Raw>::spec_from_raw(y))
            <==> x == y,
{
}

/// Where the raw type's `default` gives one value `d`, every brand that
/// `Brand::default` may give is the brand of `d`.
pub proof fn lemma_default_is_brand_of_raw_default<Tag, Raw: Default>(d: Raw)
    requires
        forall|v: Raw| #[trigger] call_ensures(Raw::default, (), v) ==> v == d,
    ensures
        forall|b: Brand<Tag, Raw>|
            #[trigger] call_ensures(<Brand<Tag, Raw> as Default>::default, (), b)
                ==> b == Brand::<Tag, Raw>::spec_from_raw(d),
{
}

} // verus!
