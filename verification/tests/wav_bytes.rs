use metafy::media::wav::{
    mono_i16_wav_bytes, pcm_i16_wav_bytes, PCM_FORMAT_CODE, PCM_I16_BITS_PER_SAMPLE,
};

#[test]
fn writes_mono_i16_pcm_wav() {
    let bytes = mono_i16_wav_bytes(16_000, &[-32_768, 0, 32_767]).expect("write wav");

    assert_eq!(&bytes[0..4], b"RIFF");
    assert_eq!(u32::from_le_bytes([bytes[4], bytes[5], bytes[6], bytes[7]]), 42);
    assert_eq!(&bytes[8..12], b"WAVE");
    assert_eq!(&bytes[12..16], b"fmt ");
    assert_eq!(u16::from_le_bytes([bytes[20], bytes[21]]), PCM_FORMAT_CODE);
    assert_eq!(u16::from_le_bytes([bytes[22], bytes[23]]), 1);
    assert_eq!(u32::from_le_bytes([bytes[24], bytes[25], bytes[26], bytes[27]]), 16_000);
    assert_eq!(u32::from_le_bytes([bytes[28], bytes[29], bytes[30], bytes[31]]), 32_000);
    assert_eq!(u16::from_le_bytes([bytes[32], bytes[33]]), 2);
    assert_eq!(u16::from_le_bytes([bytes[34], bytes[35]]), PCM_I16_BITS_PER_SAMPLE);
    assert_eq!(&bytes[36..40], b"data");
    assert_eq!(u32::from_le_bytes([bytes[40], bytes[41], bytes[42], bytes[43]]), 6);
    assert_eq!(i16::from_le_bytes([bytes[44], bytes[45]]), -32_768);
    assert_eq!(i16::from_le_bytes([bytes[46], bytes[47]]), 0);
    assert_eq!(i16::from_le_bytes([bytes[48], bytes[49]]), 32_767);
    assert_eq!(bytes.len(), 50);
}

#[test]
fn wav_parameters_are_checked_in_order() {
    assert_eq!(
        pcm_i16_wav_bytes(0, 0, &[1]).unwrap_err(),
        "WAV sample rate must be greater than zero."
    );
    assert_eq!(
        pcm_i16_wav_bytes(16_000, 0, &[1]).unwrap_err(),
        "WAV channel count must be greater than zero."
    );
    assert_eq!(
        pcm_i16_wav_bytes(16_000, 2, &[1, 2, 3]).unwrap_err(),
        "WAV sample data is not aligned to the channel count."
    );
    assert_eq!(
        pcm_i16_wav_bytes(4_000_000_000, 2, &[1, 2]).unwrap_err(),
        "WAV byte rate is too large."
    );
    let stereo = pcm_i16_wav_bytes(48_000, 2, &[1, -1]).expect("stereo");
    assert_eq!(u16::from_le_bytes([stereo[32], stereo[33]]), 4);
    assert_eq!(stereo.len(), 48);
}
