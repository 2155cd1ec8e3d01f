use coreaudio_props::aopa::AudioObjPropAddress;
use coreaudio_props::devices::output::AudioOutputDevice;
use coreaudio_props::devices::AudioDevice;
use coreaudio_props::error::Error;
use coreaudio_props::mscope::{AudioDevPropScope, PropertyScope};
use coreaudio_props::mselector::{AudioDevPropSelector, AudioHwPropSelector, PropertySelector};
use std::cell::RefCell;

fn output_device(channels: Vec<u32>) -> AudioOutputDevice {
    AudioOutputDevice::with_id(42, 1, channels, String::from("Speakers")).unwrap()
}

#[test]
fn with_id_requires_an_output_stream() {
    let r = AudioOutputDevice::with_id(7, 0, vec![1], String::from("Mic"));
    assert!(matches!(r, Err(Error::NotOutput)));
    let d = AudioOutputDevice::with_id(7, 1, vec![1, 2], String::from("Out")).unwrap();
    assert_eq!(d.id(), 7);
    assert_eq!(d.channels(), &[1, 2]);
    assert_eq!(d.name(), "Out");
    let d = AudioOutputDevice::with_id(7, 3, Vec::new(), String::from("Out")).unwrap();
    assert_eq!(d.channels(), &[] as &[u32]);
}

#[test]
fn as_output_requires_a_discovered_channel() {
    let dev = AudioDevice::from_parts(9, String::from("Duplex"), vec![1], vec![1, 2], 1, 1);
    let out = dev.as_output().unwrap();
    assert_eq!(out.id(), 9);
    assert_eq!(out.channels(), &[1, 2]);
    assert_eq!(out.name(), "Duplex");
    let dev = AudioDevice::from_parts(9, String::from("Mic"), vec![1], Vec::new(), 1, 0);
    assert!(dev.as_output().is_none());
}

#[test]
fn device_direction_flags() {
    let dev = AudioDevice::from_parts(3, String::from("D"), vec![1], vec![1, 2], 2, 4);
    assert!(dev.is_input());
    assert!(dev.is_output());
    assert!(dev.is_multi());
    assert_eq!(dev.id(), 3);
    assert_eq!(dev.name(), "D");
    assert_eq!(dev.input_channels(), &[1]);
    assert_eq!(dev.output_channels(), &[1, 2]);
    assert_eq!(dev.input_streams(), 2);
    assert_eq!(dev.output_streams(), 4);
    let dev = AudioDevice::from_parts(3, String::from("D"), Vec::new(), Vec::new(), 0, 0);
    assert!(!dev.is_input());
    assert!(!dev.is_output());
    assert!(!dev.is_multi());
}

#[test]
fn muted_is_exact_equality_with_one() {
    let dev = output_device(vec![1, 2]);
    for (raw, expected) in [(1, true), (0, false), (2, false), (-1, false)] {
        let fetch = |a: AudioObjPropAddress| -> Result<i32, Error> {
            assert_eq!(a.selector(), PropertySelector::Device(AudioDevPropSelector::Mute));
            assert_eq!(a.scope(), PropertyScope::Device(AudioDevPropScope::Output));
            assert_eq!(a.element(), 0);
            Ok(raw)
        };
        assert_eq!(dev.muted(fetch), Ok(expected));
    }
    let fetch = |_a: AudioObjPropAddress| -> Result<i32, Error> { Err(Error::Raw(6)) };
    assert_eq!(dev.muted(fetch), Err(Error::Raw(6)));
}

#[test]
fn set_volume_rejects_full_scale_and_negatives() {
    let dev = output_device(vec![1, 2]);
    let no_write = |_a: AudioObjPropAddress, _v: u32| -> Result<(), Error> { unreachable!() };
    assert_eq!(dev.set_volume(1_000_000, no_write), Err(Error::InvalidVolume(1_000_000)));
    let no_write = |_a: AudioObjPropAddress, _v: u32| -> Result<(), Error> { unreachable!() };
    assert_eq!(dev.set_volume(-1, no_write), Err(Error::InvalidVolume(-1)));
}

#[test]
fn set_volume_writes_each_channel_exactly_once() {
    let dev = output_device(vec![1, 2, 4]);
    for level in [0i64, 999_999] {
        let writes = RefCell::new(Vec::new());
        let write = |a: AudioObjPropAddress, v: u32| -> Result<(), Error> {
            assert_eq!(
                a.selector(),
                PropertySelector::Device(AudioDevPropSelector::VolumeScalar)
            );
            assert_eq!(a.scope(), PropertyScope::Device(AudioDevPropScope::Output));
            writes.borrow_mut().push((a.element(), v));
            Ok(())
        };
        assert_eq!(dev.set_volume(level, write), Ok(()));
        let v = level as u32;
        assert_eq!(writes.into_inner(), vec![(1, v), (2, v), (4, v)]);
    }
}

#[test]
fn set_volume_stops_at_the_first_failure() {
    let dev = output_device(vec![1, 2, 3]);
    let writes = RefCell::new(Vec::new());
    let write = |a: AudioObjPropAddress, v: u32| -> Result<(), Error> {
        writes.borrow_mut().push((a.element(), v));
        if a.element() == 2 {
            Err(Error::Raw(-10))
        } else {
            Ok(())
        }
    };
    assert_eq!(dev.set_volume(500_000, write), Err(Error::Raw(-10)));
    assert_eq!(writes.into_inner(), vec![(1, 500_000), (2, 500_000)]);
}

#[test]
fn set_mute_falls_back_to_the_master_element_once() {
    let dev = output_device(vec![1, 2, 3]);
    let writes = RefCell::new(Vec::new());
    let write = |a: AudioObjPropAddress, v: u32| -> Result<(), Error> {
        assert_eq!(a.selector(), PropertySelector::Device(AudioDevPropSelector::Mute));
        writes.borrow_mut().push((a.element(), v));
        if a.element() == 2 {
            Err(Error::Raw(-7))
        } else {
            Ok(())
        }
    };
    assert_eq!(dev.set_mute(true, write), Ok(()));
    // channel 3 is abandoned; the master element 0 is written exactly once
    assert_eq!(writes.into_inner(), vec![(1, 1), (2, 1), (0, 1)]);
}

#[test]
fn set_mute_returns_the_master_attempts_result() {
    let dev = output_device(vec![1, 2, 3]);
    let writes = RefCell::new(Vec::new());
    let write = |a: AudioObjPropAddress, v: u32| -> Result<(), Error> {
        writes.borrow_mut().push((a.element(), v));
        if a.element() == 2 {
            Err(Error::Raw(-7))
        } else if a.element() == 0 {
            Err(Error::Raw(-9))
        } else {
            Ok(())
        }
    };
    assert_eq!(dev.set_mute(false, write), Err(Error::Raw(-9)));
    assert_eq!(writes.into_inner(), vec![(1, 0), (2, 0), (0, 0)]);
}

#[test]
fn set_mute_without_failures_writes_every_channel() {
    let dev = output_device(vec![1, 2]);
    let writes = RefCell::new(Vec::new());
    let write = |a: AudioObjPropAddress, v: u32| -> Result<(), Error> {
        writes.borrow_mut().push((a.element(), v));
        Ok(())
    };
    assert_eq!(dev.set_mute(true, write), Ok(()));
    assert_eq!(writes.into_inner(), vec![(1, 1), (2, 1)]);
}

#[test]
fn volume_for_channel_reads_that_element() {
    let dev = output_device(vec![1, 2]);
    let fetch = |a: AudioObjPropAddress| -> Result<u32, Error> {
        assert_eq!(a.element(), 2);
        Ok(314_159)
    };
    assert_eq!(dev.volume_for_channel(2, fetch), Ok(314_159));
}

#[test]
fn avg_volume_is_the_integer_mean() {
    let dev = output_device(vec![1, 2]);
    let fetch = |a: AudioObjPropAddress| -> Result<u32, Error> {
        if a.element() == 1 {
            Ok(250_000)
        } else {
            Ok(750_000)
        }
    };
    assert_eq!(dev.avg_volume(fetch), Ok(500_000));
}

#[test]
fn avg_volume_without_channels_is_an_error() {
    let dev = output_device(Vec::new());
    let fetch = |_a: AudioObjPropAddress| -> Result<u32, Error> { unreachable!() };
    assert_eq!(dev.avg_volume(fetch), Err(Error::UnexpectedParam));
}

#[test]
fn avg_volume_surfaces_the_first_fetch_failure() {
    let dev = output_device(vec![1, 2, 3]);
    let fetch = |a: AudioObjPropAddress| -> Result<u32, Error> {
        if a.element() == 2 {
            Err(Error::Raw(3))
        } else {
            Ok(100)
        }
    };
    assert_eq!(dev.avg_volume(fetch), Err(Error::Raw(3)));
}

#[test]
fn is_default_compares_the_resolved_identifier() {
    let dev = output_device(vec![1]);
    let fetch = |a: AudioObjPropAddress| -> Result<u32, Error> {
        assert_eq!(
            a.selector(),
            PropertySelector::Hardware(AudioHwPropSelector::DefaultOutputDevice)
        );
        Ok(42)
    };
    assert_eq!(dev.is_default(fetch), Ok(true));
    let fetch = |_a: AudioObjPropAddress| -> Result<u32, Error> { Ok(41) };
    assert_eq!(dev.is_default(fetch), Ok(false));
    let fetch = |_a: AudioObjPropAddress| -> Result<u32, Error> { Err(Error::Raw(2)) };
    assert_eq!(dev.is_default(fetch), Err(Error::Raw(2)));
}

#[test]
fn error_kind_messages_are_stable() {
    assert_eq!(Error::Raw(1).kind_message(), "OS call returned a non-zero status code");
    assert_eq!(Error::Utf8Error.kind_message(), "failed to parse UTF-8 bytes");
    assert_eq!(Error::InvalidVolume(2).kind_message(), "invalid scalar volume value");
    assert_eq!(Error::IntConversion.kind_message(), "failed to convert integer values");
    assert_eq!(Error::UnexpectedParam.kind_message(), "unexpected parameter");
    assert_eq!(Error::NotOutput.kind_message(), "device is not output capable");
    assert_eq!(Error::UnknownDeviceType(4).kind_message(), "unable to determine device type");
    assert_eq!(Error::CallbackRegister.kind_message(), "callback registration failed");
}
