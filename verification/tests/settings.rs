use smart_door_lock::settings::{Environment, MissingVariable};

fn environment() -> Environment {
    Environment {
        aws_access_key_id: Some("key".to_string()),
        aws_secret_access_key: Some("secret".to_string()),
        aws_region: Some("region".to_string()),
        collection_id: None,
        esp32_cam_capture_url: None,
        pico2_door_url: None,
        confidence_threshold: None,
    }
}

#[test]
fn defaults_stand_in_for_unset_variables() {
    let env = environment();
    assert_eq!(env.threshold_text(), "75.0");
    let threshold = env.threshold_text().parse::<f32>().ok().map(f32::to_bits);
    let settings = env.settings(threshold).ok().unwrap();
    assert_eq!(settings.collection_id, "smart-door-faces");
    assert_eq!(settings.esp32_cam_url, "http://192.168.1.140/capture");
    assert_eq!(settings.pico2_door_url, "http://192.168.1.141/door");
    assert_eq!(f32::from_bits(settings.threshold_bits), 75.0);
}

#[test]
fn set_variables_are_used_as_they_are() {
    let mut env = environment();
    env.collection_id = Some("faces".to_string());
    env.esp32_cam_capture_url = Some("http://cam/".to_string());
    env.pico2_door_url = Some(String::new());
    env.confidence_threshold = Some("92.5".to_string());
    assert_eq!(env.threshold_text(), "92.5");
    let settings = env.settings(Some(92.5f32.to_bits())).ok().unwrap();
    assert_eq!(settings.collection_id, "faces");
    assert_eq!(settings.esp32_cam_url, "http://cam/");
    assert_eq!(settings.pico2_door_url, "");
    assert_eq!(f32::from_bits(settings.threshold_bits), 92.5);
}

#[test]
fn a_threshold_that_is_no_number_is_seventy_five() {
    let mut env = environment();
    env.confidence_threshold = Some("high".to_string());
    assert_eq!(env.threshold_text(), "high");
    let settings = env.settings(None).ok().unwrap();
    assert_eq!(f32::from_bits(settings.threshold_bits), 75.0);
}

#[test]
fn credentials_must_be_set() {
    let mut env = environment();
    env.aws_region = None;
    assert!(env.settings(None).err() == Some(MissingVariable::AwsRegion));
    env.aws_secret_access_key = None;
    assert!(env.settings(None).err() == Some(MissingVariable::AwsSecretAccessKey));
    env.aws_access_key_id = None;
    assert!(env.settings(None).err() == Some(MissingVariable::AwsAccessKeyId));
    assert_eq!(MissingVariable::AwsAccessKeyId.message(), "AWS_ACCESS_KEY_ID must be set");
    assert_eq!(MissingVariable::AwsSecretAccessKey.message(), "AWS_SECRET_ACCESS_KEY must be set");
    assert_eq!(MissingVariable::AwsRegion.message(), "AWS_REGION must be set");
}
