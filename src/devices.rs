use vstd::prelude::*;

use crate::error::Error;

verus! {

/// The first failure to read a device name, at or after position `i`.
pub open spec fn first_name_error(names: Seq<Result<String, Error>>, i: int) -> Option<Error>
    decreases names.len() - i,
{
    if i < 0 || i >= names.len() {
        None
    } else {
        match names[i] {
            Err(e) => Some(e),
            Ok(_) => first_name_error(names, i + 1),
        }
    }
}

/// Where the default device's name is first met among the names from
/// position `i` on, comparing one device after the other: a device whose
/// name cannot be read, or a default device whose name cannot be read, ends
/// the search with that error. `None` when no device matches.
pub open spec fn find_default(names: Seq<Result<String, Error>>, default_name: Result<String, Error>, i: int) -> Option<
    Result<usize, Error>,
>
    decreases names.len() - i,
{
    if i < 0 || i >= names.len() {
        None
    } else {
        match names[i] {
            Err(e) => Some(Err(e)),
            Ok(name) => match default_name {
                Err(e) => Some(Err(e)),
                Ok(d) => if name@ == d@ { Some(Ok(i as usize)) } else { find_default(names, default_name, i + 1) },
            },
        }
    }
}

/// The names of the host's output devices, in the host's order. `devices` is
/// what enumerating them gave: an error, or each device's name or the error
/// that reading it gave. The first error met is returned.
pub fn list_host_devices(devices: Result<Vec<Result<String, Error>>, Error>) -> (r: Result<Vec<String>, Error>)
    ensures
        match devices {
            Err(e) => r == Err::<Vec<String>, Error>(e),
            Ok(names) => match first_name_error(names@, 0) {
                Some(e) => r == Err::<Vec<String>, Error>(e),
                None => r matches Ok(v) && v@ == names@.map_values(|n: Result<String, Error>| n->Ok_0),
            },
        },
{
    let names = match devices {
        Err(e) => return Err(e),
        Ok(names) => names,
    };
    let mut out: Vec<String> = Vec::new();
    let mut i: usize = 0;
    while i < names.len()
        invariant
            0 <= i <= names@.len(),
            devices == Ok::<Vec<Result<String, Error>>, Error>(names),
            first_name_error(names@, 0) == first_name_error(names@, i as int),
            out@ == names@.subrange(0, i as int).map_values(|n: Result<String, Error>| n->Ok_0),
        decreases names@.len() - i,
    {
        match &names[i] {
            Err(e) => return Err(e.copy()),
            Ok(name) => out.push(name.clone()),
        }
        assert(names@.subrange(0, i + 1) == names@.subrange(0, i as int).push(names@[i as int]));
        i = i + 1;
    }
    assert(names@.subrange(0, names@.len() as int) == names@);
    Ok(out)
}

/// The host lists its default output device among its devices, unless an
/// error comes first.
pub open spec fn default_listed(
    devices: Result<Vec<Result<String, Error>>, Error>,
    default_name: Option<Result<String, Error>>,
) -> bool {
    match (devices, default_name) {
        (Ok(names), Some(d)) => find_default(names@, d, 0) is Some,
        _ => true,
    }
}

/// Scans `names` for the default device's name, as `find_default` says.
fn find_default_idx(names: &Vec<Result<String, Error>>, wanted: &Result<String, Error>) -> (r: Option<
    Result<usize, Error>,
>)
    ensures
        r == find_default(names@, *wanted, 0),
{
    let mut idx: usize = 0;
    while idx < names.len()
        invariant
            0 <= idx <= names@.len(),
            find_default(names@, *wanted, 0) == find_default(names@, *wanted, idx as int),
        decreases names@.len() - idx,
    {
        match &names[idx] {
            Err(e) => return Some(Err(e.copy())),
            Ok(name) => match wanted {
                Err(e) => return Some(Err(e.copy())),
                Ok(d) => {
                    if *name == *d {
                        return Some(Ok(idx));
                    }
                },
            },
        }
        idx = idx + 1;
    }
    None
}

/// Whether the default device is among the devices, or an error comes
/// first: what `default_device_idx` needs of its inputs.
pub fn default_is_listed(
    devices: &Result<Vec<Result<String, Error>>, Error>,
    default_name: &Option<Result<String, Error>>,
) -> (r: bool)
    ensures
        r == default_listed(*devices, *default_name),
{
    match (devices, default_name) {
        (Ok(names), Some(d)) => find_default_idx(names, d).is_some(),
        _ => true,
    }
}

/// The position of the default output device among the host's devices, in
/// the host's order. `devices` is what enumerating them gave, and
/// `default_name` what asking for the default device gave: none, or its name
/// or the error reading it. The host always lists its default device.
pub fn default_device_idx(
    devices: Result<Vec<Result<String, Error>>, Error>,
    default_name: Option<Result<String, Error>>,
) -> (r: Result<usize, Error>)
    requires
        default_listed(devices, default_name),
    ensures
        r == match devices {
            Err(e) => Err(e),
            Ok(names) => match default_name {
                None => Err(Error::NoDefaultAudioDevice),
                Some(d) => find_default(names@, d, 0)->Some_0,
            },
        },
{
    let names = match devices {
        Err(e) => return Err(e),
        Ok(names) => names,
    };
    let wanted = match default_name {
        None => return Err(Error::NoDefaultAudioDevice),
        Some(d) => d,
    };
    match find_default_idx(&names, &wanted) {
        Some(r) => r,
        None => Err(Error::NoDefaultAudioDevice),
    }
}

/// The device at position `idx` of the host's devices, to open an output
/// stream on. `devices` is what enumerating them gave: its error is passed
/// on, and `NoSuchDevice` comes when there is no device at `idx`.
pub fn output_stream_by_device_idx<D>(devices: Result<Vec<D>, Error>, idx: usize) -> (r: Result<D, Error>)
    ensures
        match devices {
            Err(e) => r == Err::<D, Error>(e),
            Ok(v) => if idx < v@.len() {
                r == Ok::<D, Error>(v@[idx as int])
            } else {
                r == Err::<D, Error>(Error::NoSuchDevice)
            },
        },
{
    let mut devices = match devices {
        Err(e) => return Err(e),
        Ok(v) => v,
    };
    if idx < devices.len() {
        Ok(devices.remove(idx))
    } else {
        Err(Error::NoSuchDevice)
    }
}

} // verus!
