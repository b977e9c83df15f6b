//! The catalog of known X52 USB descriptors.

use vstd::prelude::*;
use vstd::string::*;
use vstd::std_specs::cmp::PartialEqSpec;
use crate::error::{Error, ErrorId, hex4, push_hex4};

verus! {

/// The physical type of an X52 device
#[derive(Clone, Copy, Debug, PartialEq, Eq, Structural)]
pub enum X52DeviceType {
    /// The X52 Pro, with more features
    X52Pro,
    /// The standard X52
    X52,
}

/// The USB vendor ID shared by every X52
pub const SAITEK_ID: u16 = 0x06A3;

/// Product ID of the first revision of the standard X52
pub const X52_PRODUCT_ID: u16 = 0x0225;

/// Product ID of the second revision of the standard X52
pub const X52_ALT_PRODUCT_ID: u16 = 0x075C;

/// Product ID of the X52 Pro
pub const X52_PRO_PRODUCT_ID: u16 = 0x0762;

/// USB descriptor for a certain model of X52
///
/// Maps an X52's type to its USB vendor and product IDs.
#[derive(Clone, Copy, Debug)]
pub struct X52Descriptor {
    x52_type: &'static X52DeviceType,
    vendor: &'static u16,
    product: &'static u16,
    description: &'static str,
}

/// What a descriptor holds, as plain values
pub struct X52DescriptorView {
    pub x52_type: X52DeviceType,
    pub vendor: u16,
    pub product: u16,
    pub description: Seq<char>,
}

impl View for X52Descriptor {
    type V = X52DescriptorView;

    closed spec fn view(&self) -> X52DescriptorView {
        X52DescriptorView {
            x52_type: *self.x52_type,
            vendor: *self.vendor,
            product: *self.product,
            description: self.description@,
        }
    }
}

/// The USB description reported by each type of X52
pub open spec fn description_of(t: X52DeviceType) -> Seq<char> {
    match t {
        X52DeviceType::X52 => "X52 Flight Controller"@,
        X52DeviceType::X52Pro => "Saitek X52 Pro Flight Control System"@,
    }
}

/// The device type that a (vendor, product) pair identifies, if any
pub open spec fn known_type(vendor: u16, product: u16) -> Option<X52DeviceType> {
    if vendor != SAITEK_ID {
        None
    } else if product == X52_PRODUCT_ID || product == X52_ALT_PRODUCT_ID {
        Some(X52DeviceType::X52)
    } else if product == X52_PRO_PRODUCT_ID {
        Some(X52DeviceType::X52Pro)
    } else {
        None
    }
}

/// The catalog entry for a (vendor, product) pair that `known_type` accepts
pub open spec fn catalog_entry(vendor: u16, product: u16, t: X52DeviceType) -> X52DescriptorView {
    X52DescriptorView { x52_type: t, vendor, product, description: description_of(t) }
}

/// Every known descriptor, in catalog order
pub open spec fn catalog() -> Seq<X52DescriptorView> {
    seq![
        catalog_entry(SAITEK_ID, X52_PRODUCT_ID, X52DeviceType::X52),
        catalog_entry(SAITEK_ID, X52_ALT_PRODUCT_ID, X52DeviceType::X52),
        catalog_entry(SAITEK_ID, X52_PRO_PRODUCT_ID, X52DeviceType::X52Pro),
    ]
}

impl X52Descriptor {
    /// The type of X52 this descriptor refers to
    pub fn x52_type(&self) -> (r: &'static X52DeviceType)
        ensures
            *r == self@.x52_type,
    {
        self.x52_type
    }

    /// The vendor ID for this X52, is the same for all X52s
    pub fn vendor(&self) -> (r: &'static u16)
        ensures
            *r == self@.vendor,
    {
        self.vendor
    }

    /// The product ID for this X52
    pub fn product(&self) -> (r: &'static u16)
        ensures
            *r == self@.product,
    {
        self.product
    }

    /// The USB description for this X52
    pub fn description(&self) -> (r: &'static str)
        ensures
            r@ == self@.description,
    {
        self.description
    }

    /// Whether this descriptor has the given vendor and product IDs
    fn eq_descriptor(&self, vendor: u16, product: u16) -> (r: bool)
        ensures
            r == (self@.vendor == vendor && self@.product == product),
    {
        *self.vendor == vendor && *self.product == product
    }
}

/// Every known X52 descriptor
pub fn possible_descriptors() -> (r: [X52Descriptor; 3])
    ensures
        forall|i: int| 0 <= i < 3 ==> #[trigger] r@[i]@ == catalog()[i],
{
    let r = [
        X52Descriptor {
            x52_type: &X52DeviceType::X52,
            vendor: &SAITEK_ID,
            product: &X52_PRODUCT_ID,
            description: "X52 Flight Controller",
        },
        X52Descriptor {
            x52_type: &X52DeviceType::X52,
            vendor: &SAITEK_ID,
            product: &X52_ALT_PRODUCT_ID,
            description: "X52 Flight Controller",
        },
        X52Descriptor {
            x52_type: &X52DeviceType::X52Pro,
            vendor: &SAITEK_ID,
            product: &X52_PRO_PRODUCT_ID,
            description: "Saitek X52 Pro Flight Control System",
        },
    ];
    r
}

impl PartialEq for X52Descriptor {
    /// Descriptors are equal when they describe the same type of X52,
    /// whatever their product IDs.
    fn eq(&self, other: &X52Descriptor) -> (r: bool) {
        *self.x52_type == *other.x52_type
    }
}

impl vstd::std_specs::cmp::PartialEqSpecImpl for X52Descriptor {
    open spec fn obeys_eq_spec() -> bool {
        true
    }

    open spec fn eq_spec(&self, other: &X52Descriptor) -> bool {
        self@.x52_type == other@.x52_type
    }
}

impl Eq for X52Descriptor {}

/// Two descriptors compare equal exactly when they report the same type of
/// X52, whatever their vendor and product IDs.
pub proof fn lemma_descriptor_eq_is_by_type(a: X52Descriptor, b: X52Descriptor)
    ensures
        a.eq_spec(&b) <==> a@.x52_type == b@.x52_type,
        a@.x52_type == b@.x52_type ==> a.eq_spec(&b) && b.eq_spec(&a),
{
}

/// Finds the catalog entry with the given vendor and product IDs
pub fn match_descriptor(vendor: u16, product: u16) -> (r: Option<X52Descriptor>)
    ensures
        match known_type(vendor, product) {
            Some(t) => r is Some && r->0@ == catalog_entry(vendor, product, t),
            None => r is None,
        },
{
    let all = possible_descriptors();
    let mut i: usize = 0;
    while i < 3
        invariant
            0 <= i <= 3,
            forall|j: int| 0 <= j < 3 ==> #[trigger] all@[j]@ == catalog()[j],
            forall|j: int|
                0 <= j < i ==> !(catalog()[j].vendor == vendor && catalog()[j].product == product),
        decreases 3 - i,
    {
        if all[i].eq_descriptor(vendor, product) {
            assert(all@[i as int]@ == catalog()[i as int]);
            return Some(all[i]);
        }
        i += 1;
    }
    assert(!(catalog()[0].vendor == vendor && catalog()[0].product == product));
    assert(!(catalog()[1].vendor == vendor && catalog()[1].product == product));
    assert(!(catalog()[2].vendor == vendor && catalog()[2].product == product));
    None
}

/// Returns true if the given vendor and product IDs refer to an X52
pub fn is_descriptor_x52(vendor: u16, product: u16) -> (r: bool)
    ensures
        r == known_type(vendor, product) is Some,
{
    match_descriptor(vendor, product).is_some()
}

/// The message of the error for IDs that are not an X52's
pub open spec fn not_x52_descriptor_message(vendor: u16, product: u16) -> Seq<char> {
    "The given descriptor ID "@ + hex4(vendor) + ":"@ + hex4(product) + " is not an X52"@
}

/// Returns the X52 type that the given vendor and product IDs identify
pub fn get_x52_type_from_descriptor(vendor: u16, product: u16) -> (r: Result<
    X52DeviceType,
    Error,
>)
    ensures
        match known_type(vendor, product) {
            Some(t) => r == Ok::<X52DeviceType, Error>(t),
            None => r is Err && r->Err_0.kind() == Some(ErrorId::DeviceNotX52)
                && r->Err_0.message() == not_x52_descriptor_message(vendor, product),
        },
{
    match match_descriptor(vendor, product) {
        Some(d) => Ok(*d.x52_type()),
        None => {
            let mut msg = String::from_str("The given descriptor ID ");
            push_hex4(&mut msg, vendor);
            msg.append(":");
            push_hex4(&mut msg, product);
            msg.append(" is not an X52");
            Err(Error::new(ErrorId::DeviceNotX52, msg))
        },
    }
}

/// The descriptors among the given (vendor, product) pairs that are X52s, in
/// the order given
pub open spec fn x52_descriptors_among(ids: Seq<(u16, u16)>) -> Seq<X52DescriptorView>
    decreases ids.len(),
{
    if ids.len() == 0 {
        Seq::empty()
    } else {
        let (vendor, product) = ids.last();
        let rest = x52_descriptors_among(ids.drop_last());
        match known_type(vendor, product) {
            Some(t) => rest.push(catalog_entry(vendor, product, t)),
            None => rest,
        }
    }
}

/// Keeps, in order, the catalog entries of the given (vendor, product) pairs
/// that are X52s
pub fn filter_x52_descriptors(ids: &Vec<(u16, u16)>) -> (r: Vec<X52Descriptor>)
    ensures
        r@.len() == x52_descriptors_among(ids@).len(),
        forall|i: int| 0 <= i < r@.len() ==> #[trigger] r@[i]@ == x52_descriptors_among(ids@)[i],
{
    let mut r: Vec<X52Descriptor> = Vec::new();
    let mut i: usize = 0;
    while i < ids.len()
        invariant
            0 <= i <= ids@.len(),
            r@.len() == x52_descriptors_among(ids@.subrange(0, i as int)).len(),
            forall|j: int|
                0 <= j < r@.len() ==> #[trigger] r@[j]@ == x52_descriptors_among(
                    ids@.subrange(0, i as int),
                )[j],
        decreases ids@.len() - i,
    {
        let (vendor, product) = ids[i];
        assert(ids@.subrange(0, i as int + 1).drop_last() =~= ids@.subrange(0, i as int));
        match match_descriptor(vendor, product) {
            Some(d) => r.push(d),
            None => {},
        }
        i += 1;
    }
    assert(ids@.subrange(0, ids@.len() as int) =~= ids@);
    r
}

} // verus!
