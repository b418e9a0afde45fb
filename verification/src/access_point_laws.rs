use vstd::prelude::*;
use crate::access_point::{
    access_point_from, bss_fold, element_whole, elements_fold, elements_whole, no_fields,
    AccessPointView, BssFields,
};
use crate::attributes::BssAttribute;
use crate::error::WirelessError;
use crate::information_element::elements_of;

verus! {

/// Whether a run of elements holds one that names the network.
pub open spec fn names_network(elements: Seq<(u8, Seq<u8>)>) -> bool {
    exists|i: int| 0 <= i < elements.len() && (#[trigger] elements[i]).0 == 0
}

/// Whether an attribute of a scan result is whole: one that carries
/// information elements must carry whole ones.
pub open spec fn attribute_whole(attribute: (u16, Seq<u8>)) -> bool {
    match BssAttribute::of_code(attribute.0) {
        BssAttribute::BeaconIes => elements_whole(elements_of(attribute.1)),
        BssAttribute::InformationElements => elements_whole(elements_of(attribute.1)),
        _ => true,
    }
}

/// Whether every attribute of a run is whole.
pub open spec fn attributes_whole(attributes: Seq<(u16, Seq<u8>)>) -> bool {
    forall|i: int| 0 <= i < attributes.len() ==> attribute_whole(#[trigger] attributes[i])
}

/// Whether a run of attributes has none of the given kind.
pub open spec fn lacks(attributes: Seq<(u16, Seq<u8>)>, kind: BssAttribute) -> bool {
    forall|i: int|
        0 <= i < attributes.len() ==> BssAttribute::of_code((#[trigger] attributes[i]).0) != kind
}

/// Whether no attribute of a run carries an element that names the network.
pub open spec fn lacks_name(attributes: Seq<(u16, Seq<u8>)>) -> bool {
    forall|i: int|
        0 <= i < attributes.len() && BssAttribute::of_code((#[trigger] attributes[i]).0)
            == BssAttribute::InformationElements ==> !names_network(elements_of(attributes[i].1))
}

/// Reading information elements succeeds exactly when all of them are
/// whole, and fails with `Malformed` otherwise. It leaves address, signal,
/// frequency and status as they were, and the name too where no element
/// names the network.
pub proof fn lemma_elements_fold(acc: BssFields, elements: Seq<(u8, Seq<u8>)>)
    ensures
        elements_fold(acc, elements) is Ok <==> elements_whole(elements),
        elements_fold(acc, elements) is Err ==> elements_fold(acc, elements) == Err::<
            BssFields,
            WirelessError,
        >(WirelessError::Malformed),
        elements_fold(acc, elements) is Ok ==> {
            let fields = elements_fold(acc, elements)->Ok_0;
            &&& fields.bssid == acc.bssid
            &&& fields.signal == acc.signal
            &&& fields.frequency == acc.frequency
            &&& fields.status == acc.status
            &&& !names_network(elements) ==> fields.ssid == acc.ssid
        },
    decreases elements.len(),
{
    if elements.len() > 0 {
        let front = elements.drop_last();
        lemma_elements_fold(acc, front);
        assert forall|i: int| 0 <= i < front.len() implies front[i] == elements[i] by {}
        if elements_whole(elements) {
            assert forall|i: int| 0 <= i < front.len() implies element_whole(
                #[trigger] front[i],
            ) by {
                assert(front[i] == elements[i]);
            }
            assert(element_whole(elements[elements.len() - 1]));
        }
        if elements_fold(acc, elements) is Ok {
            assert forall|i: int| 0 <= i < elements.len() implies element_whole(
                #[trigger] elements[i],
            ) by {
                if i < front.len() {
                    assert(elements[i] == front[i]);
                }
            }
            if !names_network(elements) {
                assert(elements[elements.len() - 1].0 != 0);
                if names_network(front) {
                    let i = choose|i: int| 0 <= i < front.len() && (#[trigger] front[i]).0 == 0;
                    assert(elements[i].0 == 0);
                }
            }
        }
    }
}

/// Reading the attributes of a scan result succeeds exactly when all of
/// them are whole, and fails with `Malformed` otherwise. A field whose
/// attribute does not occur stays as it was.
pub proof fn lemma_bss_fold(acc: BssFields, attributes: Seq<(u16, Seq<u8>)>)
    ensures
        bss_fold(acc, attributes) is Ok <==> attributes_whole(attributes),
        bss_fold(acc, attributes) is Err ==> bss_fold(acc, attributes) == Err::<
            BssFields,
            WirelessError,
        >(WirelessError::Malformed),
        bss_fold(acc, attributes) is Ok ==> {
            let fields = bss_fold(acc, attributes)->Ok_0;
            &&& lacks(attributes, BssAttribute::Bssid) ==> fields.bssid == acc.bssid
            &&& lacks(attributes, BssAttribute::SignalMbm) ==> fields.signal == acc.signal
            &&& lacks(attributes, BssAttribute::Frequency) ==> fields.frequency == acc.frequency
            &&& lacks_name(attributes) ==> fields.ssid == acc.ssid
        },
    decreases attributes.len(),
{
    if attributes.len() > 0 {
        let front = attributes.drop_last();
        let last = attributes.last();
        lemma_bss_fold(acc, front);
        assert forall|i: int| 0 <= i < front.len() implies front[i] == attributes[i] by {}
        assert(last == attributes[attributes.len() - 1]);
        if attributes_whole(attributes) {
            assert forall|i: int| 0 <= i < front.len() implies attribute_whole(
                #[trigger] front[i],
            ) by {
                assert(front[i] == attributes[i]);
            }
            assert(attribute_whole(last));
        }
        if bss_fold(acc, front) is Ok {
            let before = bss_fold(acc, front)->Ok_0;
            lemma_elements_fold(before, elements_of(last.1));
            if bss_fold(acc, attributes) is Ok {
                assert(attribute_whole(last));
                assert forall|i: int| 0 <= i < attributes.len() implies attribute_whole(
                    #[trigger] attributes[i],
                ) by {
                    if i < front.len() {
                        assert(attributes[i] == front[i]);
                    }
                }
                let fields = bss_fold(acc, attributes)->Ok_0;
                if lacks(attributes, BssAttribute::Bssid) {
                    assert(lacks(front, BssAttribute::Bssid)) by {
                        assert forall|i: int| 0 <= i < front.len() implies BssAttribute::of_code(
                            (#[trigger] front[i]).0,
                        ) != BssAttribute::Bssid by {
                            assert(front[i] == attributes[i]);
                        }
                    }
                }
                if lacks(attributes, BssAttribute::SignalMbm) {
                    assert(lacks(front, BssAttribute::SignalMbm)) by {
                        assert forall|i: int| 0 <= i < front.len() implies BssAttribute::of_code(
                            (#[trigger] front[i]).0,
                        ) != BssAttribute::SignalMbm by {
                            assert(front[i] == attributes[i]);
                        }
                    }
                }
                if lacks(attributes, BssAttribute::Frequency) {
                    assert(lacks(front, BssAttribute::Frequency)) by {
                        assert forall|i: int| 0 <= i < front.len() implies BssAttribute::of_code(
                            (#[trigger] front[i]).0,
                        ) != BssAttribute::Frequency by {
                            assert(front[i] == attributes[i]);
                        }
                    }
                }
                if lacks_name(attributes) {
                    assert(lacks_name(front)) by {
                        assert forall|i: int|
                            0 <= i < front.len() && BssAttribute::of_code((#[trigger] front[i]).0)
                                == BssAttribute::InformationElements implies !names_network(
                            elements_of(front[i].1),
                        ) by {
                            assert(front[i] == attributes[i]);
                        }
                    }
                }
            }
        }
    }
}

/// A scan result in which the address, the signal, the frequency or the
/// name does not occur is refused with `NotFound`, whatever else it holds,
/// as long as its elements are whole.
pub proof fn lemma_incomplete_is_not_found(attributes: Seq<(u16, Seq<u8>)>)
    requires
        attributes_whole(attributes),
        lacks(attributes, BssAttribute::Bssid) || lacks(attributes, BssAttribute::SignalMbm)
            || lacks(attributes, BssAttribute::Frequency) || lacks_name(attributes),
    ensures
        access_point_from(attributes) == Err::<AccessPointView, WirelessError>(WirelessError::NotFound),
{
    lemma_bss_fold(no_fields(), attributes);
}

/// A scan result with an element that is cut short is refused with
/// `Malformed`, whatever else it holds.
pub proof fn lemma_cut_short_is_malformed(attributes: Seq<(u16, Seq<u8>)>)
    requires
        !attributes_whole(attributes),
    ensures
        access_point_from(attributes) == Err::<AccessPointView, WirelessError>(WirelessError::Malformed),
{
    lemma_bss_fold(no_fields(), attributes);
}

} // verus!
