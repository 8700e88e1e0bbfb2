//! Choosing the receiver device to configure among those the host has.
use vstd::prelude::*;
use crate::config::Purpose;

verus! {

/// What a lirc device reports it can do.
pub struct Capabilities {
    pub receive_raw: bool,
    pub receive_scancodes: bool,
    pub send: bool,
}

/// One remote-control device of the host, as enumerated.
pub struct DeviceInfo {
    /// Name of the rc device.
    pub name: String,
    /// Path of its lirc device, if it has one.
    pub lircdev: Option<String>,
    /// What its lirc device can do, where it has one.
    pub caps: Option<Capabilities>,
}

/// Why no device could be chosen.
pub enum DeviceError {
    /// The host has no remote-control device.
    NoDevices,
    /// No device has the requested rc name or lirc path.
    NotFound,
    /// No device has a lirc device fit for the purpose.
    NoLirc,
}

/// Whether a device's lirc device serves the purpose.
pub open spec fn suits(d: DeviceInfo, purpose: Purpose) -> bool {
    d.lircdev is Some && match d.caps {
        Some(c) => match purpose {
            Purpose::Receive => c.receive_raw || c.receive_scancodes,
            Purpose::Transmit => c.send,
        },
        None => false,
    }
}

/// Whether a device is the one asked for: by rc name, else by lirc path,
/// else any device that serves the purpose.
pub open spec fn wanted(
    d: DeviceInfo,
    rc_dev: Option<Seq<char>>,
    lirc_dev: Option<Seq<char>>,
    purpose: Purpose,
) -> bool {
    match rc_dev {
        Some(n) => d.name@ == n,
        None => match lirc_dev {
            Some(l) => match d.lircdev {
                Some(p) => p@ == l,
                None => false,
            },
            None => suits(d, purpose),
        },
    }
}

/// The first device from index `i` on that is the one asked for.
pub open spec fn first_wanted(
    devs: Seq<DeviceInfo>,
    rc_dev: Option<Seq<char>>,
    lirc_dev: Option<Seq<char>>,
    purpose: Purpose,
    i: int,
) -> Option<usize>
    decreases devs.len() - i,
{
    if i < 0 || i >= devs.len() {
        None
    } else if wanted(devs[i], rc_dev, lirc_dev, purpose) {
        Some(i as usize)
    } else {
        first_wanted(devs, rc_dev, lirc_dev, purpose, i + 1)
    }
}

/// The text of an optional string.
pub open spec fn opt_view(o: Option<String>) -> Option<Seq<char>> {
    match o {
        Some(s) => Some(s@),
        None => None,
    }
}

fn is_wanted(d: &DeviceInfo, rc_dev: &Option<String>, lirc_dev: &Option<String>, purpose: &Purpose) -> (r: bool)
    ensures
        r == wanted(*d, opt_view(*rc_dev), opt_view(*lirc_dev), *purpose),
{
    match rc_dev {
        Some(n) => d.name == *n,
        None => match lirc_dev {
            Some(l) => match &d.lircdev {
                Some(p) => *p == *l,
                None => false,
            },
            None => d.lircdev.is_some() && match &d.caps {
                Some(c) => match purpose {
                    Purpose::Receive => c.receive_raw || c.receive_scancodes,
                    Purpose::Transmit => c.send,
                },
                None => false,
            },
        },
    }
}

/// The index of the device to use: the first with the rc name `rc_dev` if
/// one is given, else the first with the lirc path `lirc_dev` if one is
/// given, else the first whose lirc device serves `purpose`.
pub fn select_device(
    devices: &Vec<DeviceInfo>,
    rc_dev: &Option<String>,
    lirc_dev: &Option<String>,
    purpose: &Purpose,
) -> (r: Result<usize, DeviceError>)
    ensures
        devices@.len() == 0 ==> r == Err::<usize, DeviceError>(DeviceError::NoDevices),
        devices@.len() > 0 ==> match first_wanted(
            devices@,
            opt_view(*rc_dev),
            opt_view(*lirc_dev),
            *purpose,
            0,
        ) {
            Some(i) => r == Ok::<usize, DeviceError>(i),
            None => r == Err::<usize, DeviceError>(
                if rc_dev.is_some() || lirc_dev.is_some() {
                    DeviceError::NotFound
                } else {
                    DeviceError::NoLirc
                },
            ),
        },
{
    if devices.len() == 0 {
        return Err(DeviceError::NoDevices);
    }
    let ghost rc = opt_view(*rc_dev);
    let ghost lirc = opt_view(*lirc_dev);
    let mut i: usize = 0;
    while i < devices.len()
        invariant
            i <= devices@.len(),
            rc == opt_view(*rc_dev),
            lirc == opt_view(*lirc_dev),
            first_wanted(devices@, rc, lirc, *purpose, 0) == first_wanted(
                devices@,
                rc,
                lirc,
                *purpose,
                i as int,
            ),
        decreases devices.len() - i,
    {
        if is_wanted(&devices[i], rc_dev, lirc_dev, purpose) {
            return Ok(i);
        }
        i += 1;
    }
    if rc_dev.is_some() || lirc_dev.is_some() {
        Err(DeviceError::NotFound)
    } else {
        Err(DeviceError::NoLirc)
    }
}

} // verus!
