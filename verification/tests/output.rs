use rusty_pipe_cli::output::{
    any_float, rate_gap, AudioOutputError, ConfigRange, CpalAudioOutput, OutputChoice,
    SampleFormat,
};

fn range(min_rate: u32, max_rate: u32, format: SampleFormat) -> Option<ConfigRange> {
    Some(ConfigRange { min_rate, max_rate, format })
}

#[test]
fn first_fitting_device_runs_at_the_source_rate() {
    let devices = vec![
        range(8000, 16000, SampleFormat::I16),
        None,
        range(44100, 48000, SampleFormat::I16),
        range(44100, 44100, SampleFormat::U16),
    ];
    let formats = vec![SampleFormat::I16, SampleFormat::U16];
    let choice = CpalAudioOutput::try_open(44100, &devices, &formats, None);
    assert_eq!(
        choice,
        Ok(OutputChoice { device: Some(2), rate: 44100, format: SampleFormat::I16 })
    );
    assert!(!CpalAudioOutput::needs_resampling(&choice.unwrap(), 44100));
}

#[test]
fn nearest_device_runs_at_its_nearer_end() {
    let devices = vec![
        range(8000, 16000, SampleFormat::I16),
        range(48000, 96000, SampleFormat::I16),
        range(40000, 40200, SampleFormat::I16),
        range(48000, 48000, SampleFormat::U16),
    ];
    let formats = vec![SampleFormat::I16];
    let choice = CpalAudioOutput::try_open(44100, &devices, &formats, None).unwrap();
    assert_eq!(
        choice,
        OutputChoice { device: Some(1), rate: 48000, format: SampleFormat::I16 }
    );
    assert!(CpalAudioOutput::needs_resampling(&choice, 44100));
    let choice = CpalAudioOutput::try_open(30000, &devices, &formats, None).unwrap();
    assert_eq!(
        choice,
        OutputChoice { device: Some(2), rate: 40000, format: SampleFormat::I16 }
    );
    let choice = CpalAudioOutput::try_open(20000, &devices, &formats, None).unwrap();
    assert_eq!(
        choice,
        OutputChoice { device: Some(0), rate: 16000, format: SampleFormat::I16 }
    );
}

#[test]
fn equal_distance_takes_the_upper_end_and_the_first_device() {
    let devices = vec![
        range(100, 300, SampleFormat::I16),
        range(300, 400, SampleFormat::I16),
    ];
    let formats = vec![];
    assert_eq!(
        CpalAudioOutput::try_open(500, &devices, &formats, None),
        Ok(OutputChoice { device: Some(1), rate: 400, format: SampleFormat::I16 })
    );
    let twins = vec![
        range(300, 100, SampleFormat::I16),
        range(300, 100, SampleFormat::U16),
    ];
    assert_eq!(
        CpalAudioOutput::try_open(200, &twins, &formats, None),
        Ok(OutputChoice { device: Some(0), rate: 100, format: SampleFormat::I16 })
    );
}

#[test]
fn float_hosts_leave_other_formats_aside() {
    let devices = vec![
        range(44100, 44100, SampleFormat::I16),
        range(48000, 48000, SampleFormat::F32),
    ];
    let formats = vec![SampleFormat::I16, SampleFormat::F32];
    assert_eq!(
        CpalAudioOutput::try_open(44100, &devices, &formats, None),
        Ok(OutputChoice { device: Some(1), rate: 48000, format: SampleFormat::F32 })
    );
    let only_int = vec![range(44100, 44100, SampleFormat::I16)];
    assert_eq!(
        CpalAudioOutput::try_open(44100, &only_int, &formats, Some((22050, SampleFormat::U16))),
        Ok(OutputChoice { device: None, rate: 22050, format: SampleFormat::U16 })
    );
}

#[test]
fn no_device_and_no_default_is_an_error() {
    assert_eq!(
        CpalAudioOutput::try_open(44100, &vec![], &vec![], None),
        Err(AudioOutputError::OpenStreamError)
    );
    assert_eq!(
        CpalAudioOutput::try_open(44100, &vec![None, None], &vec![], None),
        Err(AudioOutputError::OpenStreamError)
    );
    assert_eq!(
        CpalAudioOutput::try_open(44100, &vec![None], &vec![], Some((44100, SampleFormat::F32))),
        Ok(OutputChoice { device: None, rate: 44100, format: SampleFormat::F32 })
    );
}

#[test]
fn gaps_and_floats() {
    assert_eq!(rate_gap(5, 9), 4);
    assert_eq!(rate_gap(9, 5), 4);
    assert_eq!(rate_gap(0, u32::MAX), u32::MAX);
    assert!(!any_float(&vec![]));
    assert!(!any_float(&vec![SampleFormat::I16, SampleFormat::U16]));
    assert!(any_float(&vec![SampleFormat::I16, SampleFormat::F32]));
}
