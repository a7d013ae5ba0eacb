use scv::config::{encode_config, parse_config, Config};

#[test]
fn default_configuration_round_trips_byte_for_byte() {
    let written = encode_config(&Config::default());
    let read = parse_config(written.as_str()).expect("the written document parses");
    assert_eq!(read.theme, "neon_night");
    assert_eq!(read.github_token, None);
    assert_eq!(read.animation_speed, 1000);
    assert!(read.enable_particle_effects);
    assert_eq!(read.frame_rate, 60);
    // Writing what was read reproduces the document byte for byte.
    assert_eq!(encode_config(&read), written);
}

#[test]
fn default_document_is_the_expected_json() {
    let written = encode_config(&Config::default());
    assert_eq!(
        written,
        "{\"theme\":\"neon_night\",\"github_token\":null,\"animation_speed\":1000,\
         \"enable_particle_effects\":true,\"frame_rate\":60}"
    );
}

#[test]
fn a_full_configuration_round_trips() {
    let c = Config {
        theme: "cyberpunk".to_string(),
        github_token: Some("SECRET-REDACTED".to_string()),
        animation_speed: 1500,
        enable_particle_effects: false,
        frame_rate: 30,
    };
    let written = encode_config(&c);
    let read = parse_config(written.as_str()).expect("parses");
    assert_eq!(read.theme, "cyberpunk");
    assert_eq!(read.github_token.as_deref(), Some("SECRET-REDACTED"));
    assert_eq!(read.animation_speed, 1500);
    assert!(!read.enable_particle_effects);
    assert_eq!(read.frame_rate, 30);
}

#[test]
fn garbage_documents_are_rejected() {
    assert!(parse_config("").is_none());
    assert!(parse_config("{}").is_none());
    assert!(parse_config("{\"theme\":\"x\"").is_none());
    let mut doc = encode_config(&Config::default());
    doc.push(' ');
    assert!(parse_config(doc.as_str()).is_none(), "trailing bytes are refused");
}
