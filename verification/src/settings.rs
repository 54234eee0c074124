//! The settings of the service, and where they come from.
use crate::text::optional_text;
use vstd::prelude::*;
use vstd::string::*;

verus! {

/// The face collection, unless the environment names one.
pub const DEFAULT_COLLECTION_ID: &'static str = "smart-door-faces";

/// Where the camera hands out a picture, unless the environment says.
pub const DEFAULT_CAMERA_URL: &'static str = "http://192.168.1.140/capture";

/// Where the door takes its commands, unless the environment says.
pub const DEFAULT_DOOR_URL: &'static str = "http://192.168.1.141/door";

/// The least similarity of a match, in percent, unless the environment gives one.
pub const DEFAULT_THRESHOLD_TEXT: &'static str = "75.0";

/// The IEEE 754 single-precision encoding of seventy-five.
pub const DEFAULT_THRESHOLD_BITS: u32 = 0x4296_0000;

/// The variables of the environment that the service reads. One that is not set, or is not
/// text, is `None`.
pub struct Environment {
    pub aws_access_key_id: Option<String>,
    pub aws_secret_access_key: Option<String>,
    pub aws_region: Option<String>,
    pub collection_id: Option<String>,
    pub esp32_cam_capture_url: Option<String>,
    pub pico2_door_url: Option<String>,
    pub confidence_threshold: Option<String>,
}

/// A variable without which the service does not start.
#[derive(Clone, Copy, Debug, PartialEq, Eq, Structural)]
pub enum MissingVariable {
    AwsAccessKeyId,
    AwsSecretAccessKey,
    AwsRegion,
}

/// What is said of a missing variable.
pub open spec fn missing_message(missing: MissingVariable) -> Seq<char> {
    match missing {
        MissingVariable::AwsAccessKeyId => "AWS_ACCESS_KEY_ID must be set"@,
        MissingVariable::AwsSecretAccessKey => "AWS_SECRET_ACCESS_KEY must be set"@,
        MissingVariable::AwsRegion => "AWS_REGION must be set"@,
    }
}

impl MissingVariable {
    /// What is said of the missing variable.
    pub fn message(&self) -> (text: String)
        ensures
            text@ == missing_message(*self),
    {
        match self {
            MissingVariable::AwsAccessKeyId => "AWS_ACCESS_KEY_ID must be set".to_string(),
            MissingVariable::AwsSecretAccessKey => "AWS_SECRET_ACCESS_KEY must be set".to_string(),
            MissingVariable::AwsRegion => "AWS_REGION must be set".to_string(),
        }
    }
}

/// The settings of the service.
pub struct Settings {
    /// The face collection.
    pub collection_id: String,
    /// Where the camera hands out a picture.
    pub esp32_cam_url: String,
    /// Where the door takes its commands.
    pub pico2_door_url: String,
    /// The least similarity of a match, in percent: its IEEE 754 single-precision encoding.
    pub threshold_bits: u32,
}

/// What [`Settings`] hold.
pub struct SettingsView {
    pub collection_id: Seq<char>,
    pub esp32_cam_url: Seq<char>,
    pub pico2_door_url: Seq<char>,
    pub threshold_bits: u32,
}

impl View for Settings {
    type V = SettingsView;

    open spec fn view(&self) -> SettingsView {
        SettingsView {
            collection_id: self.collection_id@,
            esp32_cam_url: self.esp32_cam_url@,
            pico2_door_url: self.pico2_door_url@,
            threshold_bits: self.threshold_bits,
        }
    }
}

/// The value of a variable, or the text that stands in for it when it is not set.
pub open spec fn value_or(variable: Option<String>, otherwise: Seq<char>) -> Seq<char> {
    match optional_text(variable) {
        Some(value) => value,
        None => otherwise,
    }
}

/// The first variable without a value, of those that must have one.
pub open spec fn first_missing(environment: Environment) -> Option<MissingVariable> {
    if environment.aws_access_key_id is None {
        Some(MissingVariable::AwsAccessKeyId)
    } else if environment.aws_secret_access_key is None {
        Some(MissingVariable::AwsSecretAccessKey)
    } else if environment.aws_region is None {
        Some(MissingVariable::AwsRegion)
    } else {
        None
    }
}

/// The settings that an environment asks for, given the threshold that was read out of its
/// text, where that text is a number.
pub open spec fn settings_of(environment: Environment, threshold: Option<u32>) -> SettingsView {
    SettingsView {
        collection_id: value_or(environment.collection_id, DEFAULT_COLLECTION_ID@),
        esp32_cam_url: value_or(environment.esp32_cam_capture_url, DEFAULT_CAMERA_URL@),
        pico2_door_url: value_or(environment.pico2_door_url, DEFAULT_DOOR_URL@),
        threshold_bits: match threshold {
            Some(bits) => bits,
            None => DEFAULT_THRESHOLD_BITS,
        },
    }
}

/// A copy of the value of a variable, or of the text that stands in for it.
fn value_or_default(variable: &Option<String>, otherwise: &str) -> (value: String)
    ensures
        value@ == value_or(*variable, otherwise@),
{
    match variable {
        Some(value) => value.clone(),
        None => otherwise.to_string(),
    }
}

impl Environment {
    /// The text that gives the least similarity of a match.
    pub fn threshold_text(&self) -> (text: String)
        ensures
            text@ == value_or(self.confidence_threshold, DEFAULT_THRESHOLD_TEXT@),
    {
        value_or_default(&self.confidence_threshold, DEFAULT_THRESHOLD_TEXT)
    }

    /// The settings that the environment asks for. `threshold` is the encoding of the number
    /// that [`Environment::threshold_text`] writes, or `None` where it writes none.
    pub fn settings(&self, threshold: Option<u32>) -> (settings: Result<Settings, MissingVariable>)
        ensures
            match first_missing(*self) {
                Some(missing) => settings == Err::<Settings, MissingVariable>(missing),
                None => settings is Ok && settings->Ok_0@ == settings_of(*self, threshold),
            },
    {
        if self.aws_access_key_id.is_none() {
            return Err(MissingVariable::AwsAccessKeyId);
        }
        if self.aws_secret_access_key.is_none() {
            return Err(MissingVariable::AwsSecretAccessKey);
        }
        if self.aws_region.is_none() {
            return Err(MissingVariable::AwsRegion);
        }
        let threshold_bits: u32 = match threshold {
            Some(bits) => bits,
            None => DEFAULT_THRESHOLD_BITS,
        };
        Ok(
            Settings {
                collection_id: value_or_default(&self.collection_id, DEFAULT_COLLECTION_ID),
                esp32_cam_url: value_or_default(&self.esp32_cam_capture_url, DEFAULT_CAMERA_URL),
                pico2_door_url: value_or_default(&self.pico2_door_url, DEFAULT_DOOR_URL),
                threshold_bits,
            },
        )
    }
}

/// Each setting is what its variable says, and a fixed value where the variable is not set.
/// No setting depends on a variable of another one.
pub proof fn law_each_setting_follows_its_variable(
    environment: Environment,
    threshold: Option<u32>,
)
    ensures
        ({
            let settings = settings_of(environment, threshold);
            &&& environment.collection_id is Some ==> settings.collection_id
                == environment.collection_id->0@
            &&& environment.collection_id is None ==> settings.collection_id == "smart-door-faces"@
            &&& environment.esp32_cam_capture_url is Some ==> settings.esp32_cam_url
                == environment.esp32_cam_capture_url->0@
            &&& environment.esp32_cam_capture_url is None ==> settings.esp32_cam_url
                == "http://192.168.1.140/capture"@
            &&& environment.pico2_door_url is Some ==> settings.pico2_door_url
                == environment.pico2_door_url->0@
            &&& environment.pico2_door_url is None ==> settings.pico2_door_url
                == "http://192.168.1.141/door"@
            &&& threshold is Some ==> settings.threshold_bits == threshold->0
            &&& threshold is None ==> settings.threshold_bits == 0x4296_0000
        }),
        environment.confidence_threshold is Some ==> value_or(
            environment.confidence_threshold,
            DEFAULT_THRESHOLD_TEXT@,
        ) == environment.confidence_threshold->0@,
        environment.confidence_threshold is None ==> value_or(
            environment.confidence_threshold,
            DEFAULT_THRESHOLD_TEXT@,
        ) == "75.0"@,
{
}

/// The service starts exactly where all three credentials have a value, whatever the values
/// are, and otherwise names the first without one.
pub proof fn law_credentials_must_have_values(environment: Environment)
    ensures
        first_missing(environment) is None <==> environment.aws_access_key_id is Some
            && environment.aws_secret_access_key is Some && environment.aws_region is Some,
        environment.aws_access_key_id is None ==> first_missing(environment) == Some(
            MissingVariable::AwsAccessKeyId,
        ),
        environment.aws_access_key_id is Some && environment.aws_secret_access_key is None
            ==> first_missing(environment) == Some(MissingVariable::AwsSecretAccessKey),
        environment.aws_access_key_id is Some && environment.aws_secret_access_key is Some
            && environment.aws_region is None ==> first_missing(environment) == Some(
            MissingVariable::AwsRegion,
        ),
        missing_message(MissingVariable::AwsAccessKeyId) == "AWS_ACCESS_KEY_ID must be set"@,
        missing_message(MissingVariable::AwsSecretAccessKey)
            == "AWS_SECRET_ACCESS_KEY must be set"@,
        missing_message(MissingVariable::AwsRegion) == "AWS_REGION must be set"@,
{
}

/// Settings show all that they hold.
pub proof fn law_settings_show_all_they_hold(settings: Settings)
    ensures
        settings@.collection_id == settings.collection_id@,
        settings@.esp32_cam_url == settings.esp32_cam_url@,
        settings@.pico2_door_url == settings.pico2_door_url@,
        settings@.threshold_bits == settings.threshold_bits,
{
}

} // verus!
