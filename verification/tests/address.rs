use coreaudio_props::aopa::{AudioObjPropAddress, NativePropAddress};
use coreaudio_props::mscope::{AudioDevPropScope, AudioObjPropScope, PropertyScope};
use coreaudio_props::mselector::{AudioDevPropSelector, AudioHwPropSelector, PropertySelector};

fn all_selectors() -> Vec<PropertySelector> {
    vec![
        PropertySelector::Device(AudioDevPropSelector::VolumeScalar),
        PropertySelector::Device(AudioDevPropSelector::Mute),
        PropertySelector::Device(AudioDevPropSelector::Name),
        PropertySelector::Device(AudioDevPropSelector::Streams),
        PropertySelector::Hardware(AudioHwPropSelector::DefaultInputDevice),
        PropertySelector::Hardware(AudioHwPropSelector::DefaultOutputDevice),
        PropertySelector::Hardware(AudioHwPropSelector::Devices),
    ]
}

fn all_scopes() -> Vec<PropertyScope> {
    vec![
        PropertyScope::Device(AudioDevPropScope::Input),
        PropertyScope::Device(AudioDevPropScope::Output),
        PropertyScope::Device(AudioDevPropScope::PlayThrough),
        PropertyScope::Object(AudioObjPropScope::Global),
    ]
}

#[test]
fn native_round_trip_all_triples() {
    for selector in all_selectors() {
        for scope in all_scopes() {
            for element in [0u32, 1, 2, 7, u32::MAX] {
                let addr = AudioObjPropAddress::new_with_element(selector, scope, element);
                let native = addr.to_native();
                assert_eq!(native.m_selector, selector.code());
                assert_eq!(native.m_scope, scope.code());
                assert_eq!(native.m_element, element);
                let back = AudioObjPropAddress::from_native(native);
                assert_eq!(back, Some(addr));
            }
        }
    }
}

#[test]
fn native_field_order_and_codes() {
    let addr = AudioObjPropAddress::new_with_element(
        PropertySelector::Device(AudioDevPropSelector::VolumeScalar),
        PropertyScope::Device(AudioDevPropScope::Output),
        5,
    );
    let native = addr.to_native();
    assert_eq!(
        native,
        NativePropAddress { m_selector: 0x766F6C6D, m_scope: 0x6F757470, m_element: 5 }
    );
}

#[test]
fn selector_codes_are_the_os_four_char_codes() {
    assert_eq!(PropertySelector::Device(AudioDevPropSelector::VolumeScalar).code(), 0x766F6C6D);
    assert_eq!(PropertySelector::Device(AudioDevPropSelector::Mute).code(), 0x6D757465);
    assert_eq!(PropertySelector::Device(AudioDevPropSelector::Name).code(), 0x6E616D65);
    assert_eq!(PropertySelector::Device(AudioDevPropSelector::Streams).code(), 0x73746D23);
    assert_eq!(
        PropertySelector::Hardware(AudioHwPropSelector::DefaultInputDevice).code(),
        0x64496E20
    );
    assert_eq!(
        PropertySelector::Hardware(AudioHwPropSelector::DefaultOutputDevice).code(),
        0x644F7574
    );
    assert_eq!(PropertySelector::Hardware(AudioHwPropSelector::Devices).code(), 0x64657623);
}

#[test]
fn scope_codes_are_the_os_four_char_codes() {
    assert_eq!(PropertyScope::Device(AudioDevPropScope::Input).code(), 0x696E7074);
    assert_eq!(PropertyScope::Device(AudioDevPropScope::Output).code(), 0x6F757470);
    assert_eq!(PropertyScope::Device(AudioDevPropScope::PlayThrough).code(), 0x70747275);
    assert_eq!(PropertyScope::Object(AudioObjPropScope::Global).code(), 0x676C6F62);
}

#[test]
fn new_defaults_to_master_element() {
    let addr = AudioObjPropAddress::new(
        PropertySelector::dev_mute(),
        PropertyScope::dev_output(),
    );
    assert_eq!(addr.element(), 0);
    assert_eq!(addr.selector(), PropertySelector::Device(AudioDevPropSelector::Mute));
    assert_eq!(addr.scope(), PropertyScope::Device(AudioDevPropScope::Output));
}

#[test]
fn set_element_rewrites_only_the_element() {
    let mut addr = AudioObjPropAddress::new(
        PropertySelector::dev_volume_scalar(),
        PropertyScope::dev_input(),
    );
    addr.set_element(999);
    assert_eq!(addr.element(), 999);
    assert_eq!(addr.selector(), PropertySelector::Device(AudioDevPropSelector::VolumeScalar));
    assert_eq!(addr.scope(), PropertyScope::Device(AudioDevPropScope::Input));
}

#[test]
fn from_native_rejects_unknown_codes() {
    let bad_selector = NativePropAddress { m_selector: 1, m_scope: 0x6F757470, m_element: 0 };
    assert_eq!(AudioObjPropAddress::from_native(bad_selector), None);
    let bad_scope = NativePropAddress { m_selector: 0x6D757465, m_scope: 2, m_element: 0 };
    assert_eq!(AudioObjPropAddress::from_native(bad_scope), None);
}

#[test]
fn addresses_order_lexicographically_on_fields() {
    let a = AudioObjPropAddress::new_with_element(
        PropertySelector::dev_mute(),
        PropertyScope::dev_output(),
        1,
    );
    let b = AudioObjPropAddress::new_with_element(
        PropertySelector::dev_mute(),
        PropertyScope::dev_output(),
        2,
    );
    assert!(a < b);
    assert_eq!(a, a);
    assert_ne!(a, b);
}
