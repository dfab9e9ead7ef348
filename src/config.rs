use vstd::prelude::*;

verus! {

/// Why an experiment configuration could not be built.
#[derive(Debug, Clone, Copy, PartialEq, Eq, Structural)]
pub enum ConfigError {
    /// The lower temperature threshold is not strictly below the upper one.
    InvalidRange,
    /// No secret key was injected before the configuration was finalized.
    MissingSecretKey,
    /// A start offset does not fit in the millisecond clock.
    OffsetOverflow,
}

/// An acceptable temperature window, in thousandths of a degree Celsius.
/// The lower bound is always strictly below the upper bound.
#[derive(Debug, Clone, Copy)]
pub struct TempRange {
    lower: i32,
    upper: i32,
}

impl TempRange {
    #[verifier::type_invariant]
    spec fn ordered(self) -> bool {
        self.lower < self.upper
    }

    /// The lower bound, in thousandths of a degree.
    pub closed spec fn spec_lower(self) -> int {
        self.lower as int
    }

    /// The upper bound, in thousandths of a degree.
    pub closed spec fn spec_upper(self) -> int {
        self.upper as int
    }

    /// Builds the window `[lower, upper]`; fails unless `lower < upper`.
    pub fn new(lower: i32, upper: i32) -> (r: Result<TempRange, ConfigError>)
        ensures
            lower < upper <==> r is Ok,
            r is Ok ==> r->Ok_0.spec_lower() == lower && r->Ok_0.spec_upper() == upper,
            lower >= upper ==> r == Err::<TempRange, ConfigError>(ConfigError::InvalidRange),
    {
        if lower < upper {
            Ok(TempRange { lower, upper })
        } else {
            Err(ConfigError::InvalidRange)
        }
    }

    pub fn lower(&self) -> (r: i32)
        ensures
            r == self.spec_lower(),
            r < self.spec_upper(),
    {
        proof { use_type_invariant(&*self); }
        self.lower
    }

    pub fn upper(&self) -> (r: i32)
        ensures
            r == self.spec_upper(),
            self.spec_lower() < r,
    {
        proof { use_type_invariant(&*self); }
        self.upper
    }
}

/// What an experiment configuration holds, as mathematical values.
pub ghost struct ConfigurationView {
    pub owner: Seq<char>,
    pub num_sensors: nat,
    pub sample_rate: nat,
    pub lower: int,
    pub upper: int,
    pub stabilization_samples: nat,
    pub carry_out_samples: nat,
    pub secret_key: Seq<char>,
}

/// The settings that drive one experiment; immutable once built.
#[derive(Debug, Clone)]
pub struct ExperimentConfiguration {
    owner: String,
    num_sensors: u16,
    sample_rate: u64,
    temp_range: TempRange,
    stabilization_samples: u16,
    carry_out_samples: u16,
    secret_key: String,
}

impl View for ExperimentConfiguration {
    type V = ConfigurationView;

    closed spec fn view(&self) -> ConfigurationView {
        ConfigurationView {
            owner: self.owner@,
            num_sensors: self.num_sensors as nat,
            sample_rate: self.sample_rate as nat,
            lower: self.temp_range.spec_lower(),
            upper: self.temp_range.spec_upper(),
            stabilization_samples: self.stabilization_samples as nat,
            carry_out_samples: self.carry_out_samples as nat,
            secret_key: self.secret_key@,
        }
    }
}

impl ExperimentConfiguration {
    pub fn new(
        owner: String,
        num_sensors: u16,
        sample_rate: u64,
        temp_range: TempRange,
        stabilization_samples: u16,
        carry_out_samples: u16,
        secret_key: String,
    ) -> (r: ExperimentConfiguration)
        ensures
            r@ == (ConfigurationView {
                owner: owner@,
                num_sensors: num_sensors as nat,
                sample_rate: sample_rate as nat,
                lower: temp_range.spec_lower(),
                upper: temp_range.spec_upper(),
                stabilization_samples: stabilization_samples as nat,
                carry_out_samples: carry_out_samples as nat,
                secret_key: secret_key@,
            }),
    {
        ExperimentConfiguration {
            owner,
            num_sensors,
            sample_rate,
            temp_range,
            stabilization_samples,
            carry_out_samples,
            secret_key,
        }
    }

    /// Builds the configuration that a document describes. The document's
    /// secret key must have been injected, and its thresholds must form a
    /// non-empty window.
    pub fn from_document(doc: &ExperimentDocument) -> (r: Result<ExperimentConfiguration, ConfigError>)
        ensures
            r is Ok <==> doc.secret_key is Some && doc.lower_threshold < doc.upper_threshold,
            doc.secret_key is None ==> r == Err::<ExperimentConfiguration, ConfigError>(
                ConfigError::MissingSecretKey,
            ),
            doc.secret_key is Some && doc.lower_threshold >= doc.upper_threshold ==> r == Err::<
                ExperimentConfiguration,
                ConfigError,
            >(ConfigError::InvalidRange),
            r is Ok ==> r->Ok_0@ == doc.spec_configuration(),
    {
        match &doc.secret_key {
            Some(k) => ExperimentConfiguration::from_document_with_key(doc, k),
            None => Err(ConfigError::MissingSecretKey),
        }
    }

    /// Builds the configuration that a document describes, with `key` as
    /// its secret key; fails unless the document's thresholds form a
    /// non-empty window.
    pub fn from_document_with_key(doc: &ExperimentDocument, key: &String) -> (r: Result<
        ExperimentConfiguration,
        ConfigError,
    >)
        ensures
            r is Ok <==> doc.lower_threshold < doc.upper_threshold,
            r is Err ==> r == Err::<ExperimentConfiguration, ConfigError>(ConfigError::InvalidRange),
            r is Ok ==> r->Ok_0@ == doc.spec_configuration_with(key@),
    {
        let range = match TempRange::new(doc.lower_threshold, doc.upper_threshold) {
            Ok(t) => t,
            Err(e) => {
                return Err(e);
            },
        };
        Ok(
            ExperimentConfiguration::new(
                doc.owner.clone(),
                doc.num_sensors,
                doc.sample_rate,
                range,
                doc.stabilization_samples,
                doc.carry_out_samples,
                key.clone(),
            ),
        )
    }

    pub fn owner(&self) -> (r: &String)
        ensures
            r@ == self@.owner,
    {
        &self.owner
    }

    pub fn num_sensors(&self) -> (r: u16)
        ensures
            r as nat == self@.num_sensors,
    {
        self.num_sensors
    }

    pub fn sample_rate(&self) -> (r: u64)
        ensures
            r as nat == self@.sample_rate,
    {
        self.sample_rate
    }

    pub fn temp_range(&self) -> (r: TempRange)
        ensures
            r.spec_lower() == self@.lower,
            r.spec_upper() == self@.upper,
    {
        self.temp_range
    }

    pub fn stabilization_samples(&self) -> (r: u16)
        ensures
            r as nat == self@.stabilization_samples,
    {
        self.stabilization_samples
    }

    pub fn carry_out_samples(&self) -> (r: u16)
        ensures
            r as nat == self@.carry_out_samples,
    {
        self.carry_out_samples
    }

    pub fn secret_key(&self) -> (r: &String)
        ensures
            r@ == self@.secret_key,
    {
        &self.secret_key
    }
}

/// An externally supplied experiment descriptor. Temperatures are in
/// thousandths of a degree Celsius; the start offset is in whole seconds
/// from the shared epoch. The secret key is not part of the document as it
/// arrives: the scheduler injects it.
#[derive(Debug, Clone)]
pub struct ExperimentDocument {
    pub owner: String,
    pub start_temperature: i32,
    pub start_offset_secs: u64,
    pub num_sensors: u16,
    pub sample_rate: u64,
    pub lower_threshold: i32,
    pub upper_threshold: i32,
    pub stabilization_samples: u16,
    pub carry_out_samples: u16,
    pub secret_key: Option<String>,
}

impl ExperimentDocument {
    /// The configuration this document describes under the given secret key.
    pub open spec fn spec_configuration_with(&self, key: Seq<char>) -> ConfigurationView {
        ConfigurationView {
            owner: self.owner@,
            num_sensors: self.num_sensors as nat,
            sample_rate: self.sample_rate as nat,
            lower: self.lower_threshold as int,
            upper: self.upper_threshold as int,
            stabilization_samples: self.stabilization_samples as nat,
            carry_out_samples: self.carry_out_samples as nat,
            secret_key: key,
        }
    }

    /// The configuration this document describes, once its key is set and
    /// its window is valid.
    pub open spec fn spec_configuration(&self) -> ConfigurationView {
        self.spec_configuration_with(self.secret_key->Some_0@)
    }

    /// Injects the secret key; every other field is left as it was.
    pub fn set_secret_key(&mut self, key: &String)
        ensures
            final(self).secret_key is Some,
            final(self).secret_key->Some_0@ == key@,
            final(self).owner == old(self).owner,
            final(self).start_temperature == old(self).start_temperature,
            final(self).start_offset_secs == old(self).start_offset_secs,
            final(self).num_sensors == old(self).num_sensors,
            final(self).sample_rate == old(self).sample_rate,
            final(self).lower_threshold == old(self).lower_threshold,
            final(self).upper_threshold == old(self).upper_threshold,
            final(self).stabilization_samples == old(self).stabilization_samples,
            final(self).carry_out_samples == old(self).carry_out_samples,
    {
        self.secret_key = Some(key.clone());
    }
}

} // verus!
