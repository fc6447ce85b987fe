//! The choice of an audio output: which device to open and at which sample
//! rate, given what the devices of the host support.

use vstd::prelude::*;

verus! {

/// Why an audio output could not be used.
#[derive(Debug, Clone, Copy, PartialEq, Eq, Structural)]
pub enum AudioOutputError {
    OpenStreamError,
    PlayStreamError,
    StreamClosedError,
}

/// The format of the samples that a device takes.
#[derive(Debug, Clone, Copy, PartialEq, Eq, Structural)]
pub enum SampleFormat {
    I16,
    U16,
    F32,
}

/// The first configuration that a device supports: a range of sample rates
/// and a sample format.
#[derive(Debug, Clone, Copy, PartialEq, Eq, Structural)]
pub struct ConfigRange {
    pub min_rate: u32,
    pub max_rate: u32,
    pub format: SampleFormat,
}

/// The output to open. `device` is the device's place in the list, or `None`
/// for the host's default device.
#[derive(Debug, Clone, Copy, PartialEq, Eq, Structural)]
pub struct OutputChoice {
    pub device: Option<usize>,
    pub rate: u32,
    pub format: SampleFormat,
}

/// The distance between two rates.
pub open spec fn gap(a: u32, b: u32) -> int {
    if a >= b {
        a - b
    } else {
        b - a
    }
}

impl ConfigRange {
    /// The range holds the rate.
    pub open spec fn holds(&self, rate: u32) -> bool {
        self.min_rate <= rate <= self.max_rate
    }

    /// How far the nearer end of the range is from the rate.
    pub open spec fn distance(&self, rate: u32) -> int {
        if gap(self.min_rate, rate) <= gap(self.max_rate, rate) {
            gap(self.min_rate, rate)
        } else {
            gap(self.max_rate, rate)
        }
    }

    /// The end of the range that is nearer to the rate; the upper end where
    /// both are as near.
    pub open spec fn nearest(&self, rate: u32) -> u32 {
        if self.distance(rate) == gap(self.max_rate, rate) {
            self.max_rate
        } else {
            self.min_rate
        }
    }
}

/// Some configuration of the host takes float samples. Devices whose first
/// configuration takes another format are then left aside.
pub open spec fn has_float(formats: Seq<SampleFormat>) -> bool {
    exists|i: int| 0 <= i < formats.len() && #[trigger] formats[i] == SampleFormat::F32
}

/// The device has a configuration and is not left aside.
pub open spec fn eligible(device: Option<ConfigRange>, floats_only: bool) -> bool {
    device matches Some(c) && (floats_only ==> c.format == SampleFormat::F32)
}

/// The device is eligible and its range holds the rate.
pub open spec fn fits(device: Option<ConfigRange>, floats_only: bool, rate: u32) -> bool {
    eligible(device, floats_only) && device->Some_0.holds(rate)
}

/// `at` is the first device that fits the rate.
pub open spec fn is_first_fit(
    devices: Seq<Option<ConfigRange>>,
    floats_only: bool,
    rate: u32,
    at: int,
) -> bool {
    &&& 0 <= at < devices.len()
    &&& fits(devices[at], floats_only, rate)
    &&& forall|j: int| 0 <= j < at ==> !fits(#[trigger] devices[j], floats_only, rate)
}

/// `at` is the eligible device whose range comes nearest to the rate, the
/// first of them where several come as near.
pub open spec fn is_nearest(
    devices: Seq<Option<ConfigRange>>,
    floats_only: bool,
    rate: u32,
    at: int,
) -> bool {
    &&& 0 <= at < devices.len()
    &&& eligible(devices[at], floats_only)
    &&& forall|j: int|
        0 <= j < at && eligible(#[trigger] devices[j], floats_only) ==> devices[j]->Some_0.distance(
            rate,
        ) > devices[at]->Some_0.distance(rate)
    &&& forall|j: int|
        at < j < devices.len() && eligible(#[trigger] devices[j], floats_only)
            ==> devices[j]->Some_0.distance(rate) >= devices[at]->Some_0.distance(rate)
}

/// No device is eligible.
pub open spec fn none_eligible(devices: Seq<Option<ConfigRange>>, floats_only: bool) -> bool {
    forall|j: int| 0 <= j < devices.len() ==> !eligible(#[trigger] devices[j], floats_only)
}

/// No device fits the rate.
pub open spec fn none_fits(devices: Seq<Option<ConfigRange>>, floats_only: bool, rate: u32) -> bool {
    forall|j: int| 0 <= j < devices.len() ==> !fits(#[trigger] devices[j], floats_only, rate)
}

/// The rule of the choice. The first device that fits the source's rate is
/// opened at that rate. Without one, the device that comes nearest is opened
/// at the nearer end of its range. Without any eligible device, the host's
/// default configuration is taken as it is. Without that, nothing can be
/// opened.
pub open spec fn is_choice(
    devices: Seq<Option<ConfigRange>>,
    floats_only: bool,
    rate: u32,
    fallback: Option<(u32, SampleFormat)>,
    choice: Option<OutputChoice>,
) -> bool {
    ||| exists|at: int|
        {
            &&& #[trigger] is_first_fit(devices, floats_only, rate, at)
            &&& choice == Some(
                OutputChoice { device: Some(at as usize), rate, format: devices[at]->Some_0.format },
            )
        }
    ||| none_fits(devices, floats_only, rate) && exists|at: int|
        {
            &&& #[trigger] is_nearest(devices, floats_only, rate, at)
            &&& choice == Some(
                OutputChoice {
                    device: Some(at as usize),
                    rate: devices[at]->Some_0.nearest(rate),
                    format: devices[at]->Some_0.format,
                },
            )
        }
    ||| none_eligible(devices, floats_only) && choice == match fallback {
        Some((r, f)) => Some(OutputChoice { device: None, rate: r, format: f }),
        None => None,
    }
}

/// The distance between two rates.
pub fn rate_gap(a: u32, b: u32) -> (d: u32)
    ensures
        d == gap(a, b),
{
    if a >= b {
        a - b
    } else {
        b - a
    }
}

/// Whether some configuration of the host takes float samples.
pub fn any_float(formats: &Vec<SampleFormat>) -> (found: bool)
    ensures
        found == has_float(formats@),
{
    let mut i: usize = 0;
    while i < formats.len()
        invariant
            i <= formats@.len(),
            forall|j: int| 0 <= j < i ==> #[trigger] formats@[j] != SampleFormat::F32,
        decreases formats@.len() - i,
    {
        if formats[i] == SampleFormat::F32 {
            return true;
        }
        i += 1;
    }
    false
}

/// The audio output of the host.
#[derive(Debug, Clone, Copy)]
pub struct CpalAudioOutput;

impl CpalAudioOutput {
    /// Chooses the output for a source with the sample rate `rate`.
    /// `devices` holds, for each output device of the host in turn, the
    /// first configuration it supports, or `None` where it has none;
    /// `formats` the sample formats of all configurations of all devices;
    /// `fallback` the rate and format of the default device's default
    /// configuration, where it has one.
    pub fn try_open(
        rate: u32,
        devices: &Vec<Option<ConfigRange>>,
        formats: &Vec<SampleFormat>,
        fallback: Option<(u32, SampleFormat)>,
    ) -> (opened: Result<OutputChoice, AudioOutputError>)
        ensures
            match opened {
                Ok(choice) => is_choice(devices@, has_float(formats@), rate, fallback, Some(choice)),
                Err(e) => e == AudioOutputError::OpenStreamError && is_choice(
                    devices@,
                    has_float(formats@),
                    rate,
                    fallback,
                    None,
                ),
            },
    {
        let floats_only = any_float(formats);
        let mut best: Option<(usize, u32)> = None;
        let mut i: usize = 0;
        while i < devices.len()
            invariant
                i <= devices@.len(),
                floats_only == has_float(formats@),
                forall|j: int| 0 <= j < i ==> !fits(#[trigger] devices@[j], floats_only, rate),
                match best {
                    Some((at, d)) => {
                        &&& is_nearest(devices@.take(i as int), floats_only, rate, at as int)
                        &&& d == devices@[at as int]->Some_0.distance(rate)
                    },
                    None => none_eligible(devices@.take(i as int), floats_only),
                },
            decreases devices@.len() - i,
        {
            let ghost seen = devices@.take(i as int);
            let ghost next = devices@.take(i + 1);
            assert(forall|j: int| 0 <= j < i ==> next[j] == seen[j]);
            assert(next[i as int] == devices@[i as int]);
            if let Some(c) = devices[i] {
                if !floats_only || c.format == SampleFormat::F32 {
                    if c.min_rate <= rate && rate <= c.max_rate {
                        assert(is_first_fit(devices@, floats_only, rate, i as int));
                        return Ok(OutputChoice { device: Some(i), rate, format: c.format });
                    }
                    let low = rate_gap(c.min_rate, rate);
                    let high = rate_gap(c.max_rate, rate);
                    let d = if low <= high {
                        low
                    } else {
                        high
                    };
                    let nearer = match best {
                        Some((_, old_d)) => d < old_d,
                        None => true,
                    };
                    if nearer {
                        best = Some((i, d));
                    }
                }
            }
            i += 1;
        }
        assert(devices@.take(i as int) =~= devices@);
        match best {
            Some((at, d)) => match devices[at] {
                Some(c) => {
                    let nearest = if d == rate_gap(c.max_rate, rate) {
                        c.max_rate
                    } else {
                        c.min_rate
                    };
                    Ok(OutputChoice { device: Some(at), rate: nearest, format: c.format })
                },
                None => Err(AudioOutputError::OpenStreamError),
            },
            None => match fallback {
                Some((r, f)) => Ok(OutputChoice { device: None, rate: r, format: f }),
                None => Err(AudioOutputError::OpenStreamError),
            },
        }
    }

    /// Whether the samples have to be resampled before they are written: the
    /// output runs at another rate than the source.
    pub fn needs_resampling(choice: &OutputChoice, source_rate: u32) -> (resample: bool)
        ensures
            resample == (choice.rate != source_rate),
    {
        choice.rate != source_rate
    }
}

} // verus!
