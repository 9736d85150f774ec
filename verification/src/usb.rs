//! Host USB devices as the control popup lists them.

use vstd::prelude::*;

use crate::text::{
    contains, empty, lemma_text_order_total, lemma_text_order_transitive, lowered, not_after, occurs,
    opt_view, same_ignoring_case, text_up_to, trim, trimmed, views,
};

verus! {

/// A host USB device.
#[derive(Debug, PartialEq, Eq)]
pub struct UsbDeviceOutput {
    pub bus_id: String,
    pub vendor_id: String,
    pub product_id: String,
    pub label: String,
    pub manufacturer: Option<String>,
    pub product: Option<String>,
}

/// The mathematical form of [`UsbDeviceOutput`].
#[verifier::ext_equal]
pub struct UsbDeviceOutputView {
    pub bus_id: Seq<char>,
    pub vendor_id: Seq<char>,
    pub product_id: Seq<char>,
    pub label: Seq<char>,
    pub manufacturer: Option<Seq<char>>,
    pub product: Option<Seq<char>>,
}

impl View for UsbDeviceOutput {
    type V = UsbDeviceOutputView;

    open spec fn view(&self) -> UsbDeviceOutputView {
        UsbDeviceOutputView {
            bus_id: self.bus_id@,
            vendor_id: self.vendor_id@,
            product_id: self.product_id@,
            label: self.label@,
            manufacturer: opt_view(self.manufacturer),
            product: opt_view(self.product),
        }
    }
}

impl Clone for UsbDeviceOutput {
    fn clone(&self) -> (copy: Self)
        ensures
            copy@ == self@,
    {
        UsbDeviceOutput {
            bus_id: self.bus_id.clone(),
            vendor_id: self.vendor_id.clone(),
            product_id: self.product_id.clone(),
            label: self.label.clone(),
            manufacturer: self.manufacturer.clone(),
            product: self.product.clone(),
        }
    }
}

/// An attribute file's text, without surrounding white space, if anything is
/// left of it.
pub open spec fn attribute(text: Option<Seq<char>>) -> Option<Seq<char>> {
    match text {
        Some(contents) => if trimmed(contents).len() > 0 {
            Some(trimmed(contents))
        } else {
            None
        },
        None => None,
    }
}

/// An attribute file's text, without surrounding white space, if anything is
/// left of it.
pub fn read_trimmed(text: Option<String>) -> (value: Option<String>)
    ensures
        opt_view(value) == attribute(opt_view(text)),
{
    match text {
        Some(contents) => {
            let value = trim(contents.as_str());
            if empty(value.as_str()) {
                None
            } else {
                Some(value)
            }
        },
        None => None,
    }
}

/// Whether a product is a generic hub, which is no useful target.
pub open spec fn is_hub(product: Seq<char>) -> bool {
    lowered(product) == lowered("USB2.0 Hub"@) || lowered(product) == lowered("USB3.0 Hub"@)
}

/// The label of a device: manufacturer and product as far as they are known, or
/// else the ids.
pub open spec fn device_label(
    bus_id: Seq<char>,
    vendor_id: Seq<char>,
    product_id: Seq<char>,
    manufacturer: Option<Seq<char>>,
    product: Option<Seq<char>>,
) -> Seq<char> {
    match product {
        Some(product) => match manufacturer {
            Some(manufacturer) => manufacturer + " "@ + product + " ("@ + bus_id + ")"@,
            None => product + " ("@ + bus_id + ")"@,
        },
        None => vendor_id + ":"@ + product_id + " ("@ + bus_id + ")"@,
    }
}

/// The device that a directory of `/sys/bus/usb/devices` describes. Interface
/// directories, devices without ids and generic hubs are none.
pub open spec fn device_of(
    bus_id: Seq<char>,
    vendor_id: Option<Seq<char>>,
    product_id: Option<Seq<char>>,
    manufacturer: Option<Seq<char>>,
    product: Option<Seq<char>>,
) -> Option<UsbDeviceOutputView> {
    if occurs(bus_id, ":"@) || attribute(vendor_id) is None || attribute(product_id) is None || (
    attribute(product) is Some && is_hub(attribute(product)->Some_0)) {
        None
    } else {
        Some(
            UsbDeviceOutputView {
                bus_id,
                vendor_id: attribute(vendor_id)->Some_0,
                product_id: attribute(product_id)->Some_0,
                label: device_label(
                    bus_id,
                    attribute(vendor_id)->Some_0,
                    attribute(product_id)->Some_0,
                    attribute(manufacturer),
                    attribute(product),
                ),
                manufacturer: attribute(manufacturer),
                product: attribute(product),
            },
        )
    }
}

/// The device that a directory of `/sys/bus/usb/devices` describes: its name, and
/// the texts of its attribute files as far as they could be read.
pub fn usb_device_from_sysfs(
    bus_id: String,
    vendor_id: Option<String>,
    product_id: Option<String>,
    manufacturer: Option<String>,
    product: Option<String>,
) -> (device: Option<UsbDeviceOutput>)
    ensures
        opt_view(device) == device_of(
            bus_id@,
            opt_view(vendor_id),
            opt_view(product_id),
            opt_view(manufacturer),
            opt_view(product),
        ),
{
    // Interface directories look like `1-2:1.0`; attaching expects the busid of
    // the device.
    if contains(bus_id.as_str(), ":") {
        return None;
    }
    let vendor_id = match read_trimmed(vendor_id) {
        Some(value) => value,
        None => {
            return None;
        },
    };
    let product_id = match read_trimmed(product_id) {
        Some(value) => value,
        None => {
            return None;
        },
    };
    let manufacturer = read_trimmed(manufacturer);
    let product = read_trimmed(product);
    let mut label = String::new();
    match &product {
        Some(name) => {
            if same_ignoring_case(name.as_str(), "USB2.0 Hub") || same_ignoring_case(
                name.as_str(),
                "USB3.0 Hub",
            ) {
                return None;
            }
            match &manufacturer {
                Some(maker) => {
                    label = maker.clone();
                    label.append(" ");
                    label.append(name.as_str());
                },
                None => {
                    label = name.clone();
                },
            }
        },
        None => {
            label = vendor_id.clone();
            label.append(":");
            label.append(product_id.as_str());
        },
    }
    label.append(" (");
    label.append(bus_id.as_str());
    label.append(")");
    Some(UsbDeviceOutput { bus_id, vendor_id, product_id, label, manufacturer, product })
}

/// Whether a device is a security key of the vendor that passthrough is mostly
/// used for.
pub open spec fn is_yubico(device: UsbDeviceOutputView) -> bool {
    lowered(device.vendor_id) == lowered("1050"@)
}

/// Whether one device is listed before another, or in the same place: security
/// keys first, then by busid.
pub open spec fn listed_up_to(left: UsbDeviceOutputView, right: UsbDeviceOutputView) -> bool {
    if is_yubico(left) == is_yubico(right) {
        text_up_to(left.bus_id, right.bus_id)
    } else {
        is_yubico(left)
    }
}

/// How many leading devices are listed up to `device`.
pub open spec fn place_of(devices: Seq<UsbDeviceOutputView>, device: UsbDeviceOutputView) -> nat
    decreases devices.len(),
{
    if devices.len() == 0 || !listed_up_to(devices[0], device) {
        0
    } else {
        1 + place_of(devices.drop_first(), device)
    }
}

/// The devices in listing order; those in the same place keep their order.
pub open spec fn listing(devices: Seq<UsbDeviceOutputView>) -> Seq<UsbDeviceOutputView>
    decreases devices.len(),
{
    if devices.len() == 0 {
        Seq::empty()
    } else {
        let before = listing(devices.drop_last());
        before.insert(place_of(before, devices.last()) as int, devices.last())
    }
}

fn listed_before(left: &UsbDeviceOutput, right: &UsbDeviceOutput) -> (yes: bool)
    ensures
        yes == listed_up_to(left@, right@),
{
    let a = same_ignoring_case(left.vendor_id.as_str(), "1050");
    let b = same_ignoring_case(right.vendor_id.as_str(), "1050");
    if a == b {
        not_after(left.bus_id.as_str(), right.bus_id.as_str())
    } else {
        a
    }
}

fn find_place(devices: &Vec<UsbDeviceOutput>, device: &UsbDeviceOutput) -> (place: usize)
    ensures
        place == place_of(views(devices@), device@),
        place <= devices@.len(),
{
    let ghost all = views(devices@);
    let mut place: usize = 0;
    assert(all.skip(0) =~= all);
    while place < devices.len() && listed_before(&devices[place], device)
        invariant
            place <= devices@.len(),
            all == views(devices@),
            place_of(all, device@) == place + place_of(all.skip(place as int), device@),
        decreases devices@.len() - place,
    {
        let ghost rest = all.skip(place as int);
        assert(rest[0] == devices@[place as int]@);
        assert(rest.drop_first() =~= all.skip(place + 1));
        place = place + 1;
    }
    proof {
        let rest = all.skip(place as int);
        if place < devices@.len() {
            assert(rest[0] == devices@[place as int]@);
        }
    }
    place
}

/// Puts devices into listing order.
pub fn order_usb_devices(devices: Vec<UsbDeviceOutput>) -> (ordered: Vec<UsbDeviceOutput>)
    ensures
        views(ordered@) == listing(views(devices@)),
{
    let ghost source = devices@;
    let ghost all = views(source);
    let mut ordered: Vec<UsbDeviceOutput> = Vec::new();
    assert(views(ordered@) =~= listing(all.take(0)));
    for device in it: devices
        invariant
            it.seq() == source,
            all == views(source),
            views(ordered@) == listing(all.take(it.index() as int)),
    {
        let ghost at = it.index() as int;
        let ghost before = views(ordered@);
        let ghost added = device@;
        assert(all.take(at + 1).drop_last() =~= all.take(at));
        assert(all.take(at + 1).last() == added);
        let place: usize = find_place(&ordered, &device);
        ordered.insert(place, device);
        assert(views(ordered@) =~= before.insert(place as int, added));
    }
    assert(all.take(all.len() as int) =~= all);
    ordered
}

/// Listing neither drops, adds nor repeats a device.
pub proof fn law_listing_permutes(devices: Seq<UsbDeviceOutputView>)
    ensures
        listing(devices).to_multiset() == devices.to_multiset(),
        listing(devices).len() == devices.len(),
    decreases devices.len(),
{
    broadcast use vstd::seq_lib::group_to_multiset_ensures;

    if devices.len() > 0 {
        let front = devices.drop_last();
        let before = listing(front);
        law_listing_permutes(front);
        lemma_place(before, devices.last());
        let place = place_of(before, devices.last()) as int;
        lemma_insert_multiset(before, place, devices.last());
        assert(devices =~= front.push(devices.last()));
    }
}

proof fn lemma_insert_multiset(
    devices: Seq<UsbDeviceOutputView>,
    place: int,
    device: UsbDeviceOutputView,
)
    requires
        0 <= place <= devices.len(),
    ensures
        devices.insert(place, device).to_multiset() =~= devices.to_multiset().insert(device),
{
    broadcast use vstd::seq_lib::group_to_multiset_ensures;

    let larger = devices.insert(place, device);
    assert(larger.remove(place) =~= devices);
    assert(larger[place] == device);
    assert(larger.contains(device));
    assert(larger.remove(place).to_multiset() =~= larger.to_multiset().remove(device));
}

proof fn lemma_place(devices: Seq<UsbDeviceOutputView>, device: UsbDeviceOutputView)
    ensures
        place_of(devices, device) <= devices.len(),
        forall|i: int|
            0 <= i < place_of(devices, device) ==> listed_up_to(#[trigger] devices[i], device),
        place_of(devices, device) < devices.len() ==> !listed_up_to(
            devices[place_of(devices, device) as int],
            device,
        ),
    decreases devices.len(),
{
    if devices.len() > 0 && listed_up_to(devices[0], device) {
        let rest = devices.drop_first();
        lemma_place(rest, device);
        assert forall|i: int| 0 <= i < place_of(devices, device) implies listed_up_to(
            #[trigger] devices[i],
            device,
        ) by {
            if i > 0 {
                assert(devices[i] == rest[i - 1]);
            }
        }
    }
}

proof fn lemma_listing_order(
    a: UsbDeviceOutputView,
    b: UsbDeviceOutputView,
    c: UsbDeviceOutputView,
)
    ensures
        listed_up_to(a, b) || listed_up_to(b, a),
        listed_up_to(a, b) && listed_up_to(b, c) ==> listed_up_to(a, c),
{
    lemma_text_order_total(a.bus_id, b.bus_id);
    if text_up_to(a.bus_id, b.bus_id) && text_up_to(b.bus_id, c.bus_id) {
        lemma_text_order_transitive(a.bus_id, b.bus_id, c.bus_id);
    }
}

/// Devices are listed in order: security keys first, then by busid.
pub proof fn law_listing_is_ordered(devices: Seq<UsbDeviceOutputView>, i: int, j: int)
    requires
        0 <= i <= j < listing(devices).len(),
    ensures
        listed_up_to(listing(devices)[i], listing(devices)[j]),
    decreases devices.len(),
{
    let list = listing(devices);
    let front = devices.drop_last();
    let before = listing(front);
    let device = devices.last();
    lemma_place(before, device);
    let place = place_of(before, device) as int;
    if i == j {
        lemma_listing_order(list[i], list[i], list[i]);
    } else if j == place {
        assert(list[i] == before[i]);
    } else if i == place {
        assert(list[j] == before[j - 1]);
        law_listing_is_ordered(front, place, j - 1);
        lemma_listing_order(device, before[place], before[j - 1]);
    } else {
        let p = if i < place {
            i
        } else {
            i - 1
        };
        let q = if j < place {
            j
        } else {
            j - 1
        };
        assert(list[i] == before[p] && list[j] == before[q]);
        law_listing_is_ordered(front, p, q);
    }
}

} // verus!
