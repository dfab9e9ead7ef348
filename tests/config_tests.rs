use experiment_load::config::{ConfigError, ExperimentConfiguration, ExperimentDocument, TempRange};

fn document(lower: i32, upper: i32, offset: u64) -> ExperimentDocument {
    ExperimentDocument {
        owner: "owner@example.org".to_string(),
        start_temperature: 16000,
        start_offset_secs: offset,
        num_sensors: 2,
        sample_rate: 100,
        lower_threshold: lower,
        upper_threshold: upper,
        stabilization_samples: 2,
        carry_out_samples: 20,
        secret_key: None,
    }
}

#[test]
fn temp_range_accepts_ordered_bounds() {
    let r = TempRange::new(25500, 26500).expect("ordered bounds");
    assert_eq!(r.lower(), 25500);
    assert_eq!(r.upper(), 26500);
}

#[test]
fn temp_range_rejects_reversed_bounds() {
    assert_eq!(TempRange::new(26500, 25500).unwrap_err(), ConfigError::InvalidRange);
}

#[test]
fn temp_range_rejects_equal_bounds() {
    assert_eq!(TempRange::new(25500, 25500).unwrap_err(), ConfigError::InvalidRange);
}

#[test]
fn temp_range_extremes() {
    let r = TempRange::new(i32::MIN, i32::MAX).expect("ordered bounds");
    assert_eq!((r.lower(), r.upper()), (i32::MIN, i32::MAX));
    assert!(TempRange::new(i32::MAX, i32::MIN).is_err());
}

#[test]
fn configuration_keeps_its_fields() {
    let range = TempRange::new(25500, 26500).unwrap();
    let c = ExperimentConfiguration::new("a@b.c".to_string(), 2, 100, range, 2, 20, "key".to_string());
    assert_eq!(c.owner(), "a@b.c");
    assert_eq!(c.num_sensors(), 2);
    assert_eq!(c.sample_rate(), 100);
    assert_eq!(c.temp_range().lower(), 25500);
    assert_eq!(c.temp_range().upper(), 26500);
    assert_eq!(c.stabilization_samples(), 2);
    assert_eq!(c.carry_out_samples(), 20);
    assert_eq!(c.secret_key(), "key");
}

#[test]
fn document_without_key_is_refused() {
    let doc = document(25500, 26500, 0);
    assert_eq!(ExperimentConfiguration::from_document(&doc).unwrap_err(), ConfigError::MissingSecretKey);
}

#[test]
fn document_with_key_builds_configuration() {
    let mut doc = document(25500, 26500, 0);
    doc.set_secret_key(&"secret".to_string());
    assert_eq!(doc.secret_key.as_deref(), Some("secret"));
    let c = ExperimentConfiguration::from_document(&doc).expect("valid document");
    assert_eq!(c.secret_key(), "secret");
    assert_eq!(c.owner(), "owner@example.org");
    assert_eq!(c.temp_range().lower(), 25500);
}

#[test]
fn document_with_reversed_window_is_refused() {
    let mut doc = document(26500, 25500, 0);
    doc.set_secret_key(&"secret".to_string());
    assert_eq!(ExperimentConfiguration::from_document(&doc).unwrap_err(), ConfigError::InvalidRange);
    assert_eq!(
        ExperimentConfiguration::from_document_with_key(&doc, &"k".to_string()).unwrap_err(),
        ConfigError::InvalidRange
    );
}
