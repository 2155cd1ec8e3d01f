use coreaudio_props::devices::AudioDevice;
use coreaudio_props::error::Error;
use coreaudio_props::events::output_changed::{watched_address, OutputChangedRegistry};
use coreaudio_props::mscope::{AudioObjPropScope, PropertyScope};
use coreaudio_props::mselector::{AudioHwPropSelector, PropertySelector};
use std::cell::RefCell;

fn snapshot(id: u32) -> AudioDevice {
    AudioDevice::from_parts(id, String::from("Out"), Vec::new(), vec![1, 2], 0, 1)
}

#[test]
fn watched_address_is_default_output_at_global_scope() {
    let addr = watched_address();
    assert_eq!(
        addr.selector(),
        PropertySelector::Hardware(AudioHwPropSelector::DefaultOutputDevice)
    );
    assert_eq!(addr.scope(), PropertyScope::Object(AudioObjPropScope::Global));
    assert_eq!(addr.element(), 0);
}

#[test]
fn register_deliver_unregister_round_trip() {
    let seen = RefCell::new(Vec::new());
    let callback = |d: AudioDevice| {
        seen.borrow_mut().push(d.id());
    };
    let mut registry = OutputChangedRegistry::new();
    assert!(!registry.is_registered());

    assert_eq!(registry.register(callback, 0), Ok(()));
    assert!(registry.is_registered());

    // one simulated native delivery for object identifier 11
    assert!(registry.deliver(Some(snapshot(11))));
    assert_eq!(*seen.borrow(), vec![11]);

    assert_eq!(registry.unregister(0), Ok(()));
    assert!(!registry.is_registered());

    // after unregistering, a delivery must not invoke any callback
    assert!(!registry.deliver(Some(snapshot(12))));
    assert_eq!(*seen.borrow(), vec![11]);
}

#[test]
fn failed_registration_stores_nothing() {
    let callback = |_d: AudioDevice| {};
    let mut registry = OutputChangedRegistry::new();
    assert_eq!(registry.register(callback, -1), Err(Error::CallbackRegister));
    assert!(!registry.is_registered());
    assert!(!registry.deliver(Some(snapshot(1))));
}

#[test]
fn failed_removal_keeps_the_callback() {
    let seen = RefCell::new(Vec::new());
    let callback = |d: AudioDevice| {
        seen.borrow_mut().push(d.id());
    };
    let mut registry = OutputChangedRegistry::new();
    assert_eq!(registry.register(callback, 0), Ok(()));
    assert_eq!(registry.unregister(3), Err(Error::CallbackRegister));
    assert!(registry.is_registered());
    assert!(registry.deliver(Some(snapshot(5))));
    assert_eq!(*seen.borrow(), vec![5]);
}

#[test]
fn unresolved_snapshots_are_dropped() {
    let seen = RefCell::new(Vec::new());
    let callback = |d: AudioDevice| {
        seen.borrow_mut().push(d.id());
    };
    let mut registry = OutputChangedRegistry::new();
    assert_eq!(registry.register(callback, 0), Ok(()));
    assert!(!registry.deliver(None));
    assert!(seen.borrow().is_empty());
}

#[test]
fn register_replaces_the_stored_callback() {
    let counts = RefCell::new([0u32; 2]);
    let mk = |idx: usize| {
        let counts = &counts;
        move |_d: AudioDevice| {
            counts.borrow_mut()[idx] += 1;
        }
    };
    let mut registry = OutputChangedRegistry::new();
    assert_eq!(registry.register(mk(0), 0), Ok(()));
    assert_eq!(registry.register(mk(1), 0), Ok(()));
    assert!(registry.deliver(Some(snapshot(2))));
    assert_eq!(*counts.borrow(), [0, 1]);
}
