use istok::settings::Settings;

#[test]
fn empty_settings_encode_to_zero_bytes() {
    let settings = Settings::new();
    let mut out: Vec<u8> = Vec::new();
    let written = settings
        .encode_payload(&mut out)
        .expect("empty settings should encode");

    assert_eq!(written, 0);
}

#[test]
fn empty_settings_ignore_non_empty_output_buffer() {
    let settings = Settings::new();
    let mut out = vec![0xAAu8; 8];
    let written = settings
        .encode_payload(&mut out)
        .expect("empty settings should encode");

    assert_eq!(written, 0);
    assert_eq!(out, vec![0xAAu8; 8]);
}
