//! USB devices of the host: which are listed, and how.

use vstd::prelude::*;

use crate::text::{is_white_space, lowered, text_up_to};
use crate::usb::{
    UsbDeviceOutputView, attribute, device_of, is_yubico, law_listing_is_ordered,
    law_listing_permutes, listing,
};

use super::commands::{is_space, lemma_stripped_ends};
use super::reduction::rearranges;
use super::replies::{holds, law_small_letters, lemma_holds};

verus! {

/// An attribute is the text of its file without the white space around it, and none
/// where nothing else is there.
pub proof fn law_attributes(before: Seq<char>, core: Seq<char>, after: Seq<char>)
    requires
        is_space(before),
        is_space(after),
        core.len() > 0 ==> !is_white_space(core[0]) && !is_white_space(core.last()),
    ensures
        core.len() > 0 ==> attribute(Some(before + core + after)) == Some(core),
        core.len() == 0 ==> attribute(Some(before + core + after)) is None,
        attribute(None) is None,
{
    let text = before + core + after;
    if core.len() > 0 {
        lemma_stripped_ends(before, core, after, |c: char| is_white_space(c));
    } else {
        assert forall|i: int| 0 <= i < text.len() implies is_white_space(#[trigger] text[i]) by {
            if i < before.len() {
                assert(text[i] == before[i]);
            } else {
                assert(text[i] == after[i - before.len()]);
            }
        }
        crate::text::law_blank_is_trimmed_away(text);
    }
}

/// A device is listed exactly where its directory is not that of an interface, whose
/// name holds a colon, it gives both ids, and it is no generic hub.
pub proof fn law_listed_devices(
    bus_id: Seq<char>,
    vendor_id: Option<Seq<char>>,
    product_id: Option<Seq<char>>,
    manufacturer: Option<Seq<char>>,
    product: Option<Seq<char>>,
)
    ensures
        device_of(bus_id, vendor_id, product_id, manufacturer, product) is Some <==> !holds(
            bus_id,
            ":"@,
        ) && attribute(vendor_id) is Some && attribute(product_id) is Some && !(attribute(
            product,
        ) is Some && (lowered(attribute(product)->Some_0) == lowered("USB2.0 Hub"@) || lowered(
            attribute(product)->Some_0,
        ) == lowered("USB3.0 Hub"@))),
        device_of(bus_id, vendor_id, product_id, manufacturer, product) is Some ==> {
            let device = device_of(
                bus_id,
                vendor_id,
                product_id,
                manufacturer,
                product,
            )->Some_0;
            let maker = attribute(manufacturer);
            let thing = attribute(product);
            &&& device.bus_id == bus_id
            &&& Some(device.vendor_id) == attribute(vendor_id)
            &&& Some(device.product_id) == attribute(product_id)
            &&& device.manufacturer == maker
            &&& device.product == thing
            &&& thing is Some && maker is Some ==> device.label == maker->Some_0 + " "@
                + thing->Some_0 + " ("@ + bus_id + ")"@
            &&& thing is Some && maker is None ==> device.label == thing->Some_0 + " ("@ + bus_id
                + ")"@
            &&& thing is None ==> device.label == device.vendor_id + ":"@ + device.product_id
                + " ("@ + bus_id + ")"@
        },
{
    lemma_holds(bus_id, ":"@);
}

proof fn lemma_yubico(device: UsbDeviceOutputView)
    ensures
        is_yubico(device) <==> device.vendor_id == "1050"@,
{
    reveal_strlit("1050");
    law_small_letters("1050"@);
    law_small_letters(device.vendor_id);
    assert(lowered("1050"@) =~= "1050"@);
    if is_yubico(device) {
        assert forall|i: int| 0 <= i < 4 implies device.vendor_id[i] == "1050"@[i] by {
            let c = device.vendor_id[i];
            assert(lowered(device.vendor_id)[i] == "1050"@[i]);
        }
        assert(device.vendor_id =~= "1050"@);
    }
}

/// Whether one text stands before another, character by character.
pub open spec fn stands_before(left: Seq<char>, right: Seq<char>) -> bool {
    ||| exists|rest: Seq<char>| right == left + rest
    ||| exists|k: int|
        0 <= k < left.len() && k < right.len() && left.take(k) == right.take(k) && (
        #[trigger] left[k]) < right[k]
}

proof fn lemma_text_order(left: Seq<char>, right: Seq<char>)
    requires
        text_up_to(left, right),
    ensures
        stands_before(left, right),
    decreases left.len(),
{
    if left.len() == 0 {
        assert(right =~= left + right);
    } else if left[0] == right[0] {
        let a = left.drop_first();
        let b = right.drop_first();
        lemma_text_order(a, b);
        if exists|rest: Seq<char>| b == a + rest {
            let rest = choose|rest: Seq<char>| b == a + rest;
            assert(right =~= left + rest) by {
                assert(right =~= seq![right[0]] + b);
                assert(left =~= seq![left[0]] + a);
            }
        } else {
            let k = choose|k: int|
                0 <= k < a.len() && k < b.len() && a.take(k) == b.take(k) && (#[trigger] a[k])
                    < b[k];
            assert(left[k + 1] == a[k] && right[k + 1] == b[k]);
            assert forall|i: int| 0 <= i < k + 1 implies #[trigger] left[i] == right[i] by {
                if i > 0 {
                    assert(left[i] == a.take(k)[i - 1]);
                    assert(right[i] == b.take(k)[i - 1]);
                }
            }
            assert(left.take(k + 1) =~= right.take(k + 1));
        }
    } else {
        assert(left.take(0) =~= right.take(0));
        assert(left[0] < right[0]);
    }
}

/// Devices of the vendor 1050 are listed first, and within each of the two parts by
/// busid.
pub proof fn law_security_keys_come_first(
    devices: Seq<UsbDeviceOutputView>,
    i: int,
    j: int,
)
    requires
        0 <= i < j < listing(devices).len(),
    ensures
        listing(devices)[j].vendor_id == "1050"@ ==> listing(devices)[i].vendor_id == "1050"@,
        (listing(devices)[i].vendor_id == "1050"@ <==> listing(devices)[j].vendor_id == "1050"@)
            ==> stands_before(listing(devices)[i].bus_id, listing(devices)[j].bus_id),
{
    law_listing_is_ordered(devices, i, j);
    lemma_yubico(listing(devices)[i]);
    lemma_yubico(listing(devices)[j]);
    if is_yubico(listing(devices)[i]) == is_yubico(listing(devices)[j]) {
        lemma_text_order(listing(devices)[i].bus_id, listing(devices)[j].bus_id);
    }
}

/// The listing holds every device once and no other.
pub proof fn law_every_device_is_listed(devices: Seq<UsbDeviceOutputView>) -> (at: Seq<int>)
    ensures
        rearranges(at, devices.len()),
        listing(devices).len() == devices.len(),
        forall|i: int|
            0 <= i < devices.len() ==> #[trigger] listing(devices)[i] == devices[at[i]],
{
    law_listing_permutes(devices);
    super::reduction::lemma_rearranged(listing(devices), devices)
}

} // verus!
