//! The interface every generation model offers.

use vstd::prelude::*;
use super::types::{follows_check, ImageData, VideoGenError, VideoGenProvider};
use crate::decimal::{parse_u32, parse_u32_spec};

verus! {

broadcast use vstd::string::group_string_axioms;

/// `r` borrows the image `img`, or is `None` exactly when there is none.
pub open spec fn image_ref_matches(r: Option<&ImageData>, img: Option<ImageData>) -> bool {
    match r {
        Some(i) => img == Some(*i),
        None => img is None,
    }
}

/// A video (or audio) generation model.
pub trait VideoGenerator {
    /// The model's identifier.
    spec fn model_id_text(&self) -> Seq<char>;

    /// The provider that runs the model.
    spec fn provider_of(&self) -> VideoGenProvider;

    /// The outcome of input validation: the message of the first failed check.
    spec fn input_check(&self) -> Result<(), Seq<char>>;

    /// The prompt text.
    spec fn prompt_text(&self) -> Seq<char>;

    /// The input image, if any.
    spec fn image_of(&self) -> Option<ImageData>;

    /// `self` and `other` are equal but for their images.
    spec fn same_apart_from_image(&self, other: &Self) -> bool;

    /// Flow control (rate per minute, parallelism), if any.
    spec fn flow_control_of(&self) -> Option<(u32, u32)>;

    /// Whether the provider reports completion by webhook.
    spec fn webhook_callbacks(&self) -> bool;

    /// The model's identifier, used for rate limiting and identification.
    fn model_id(&self) -> (r: &'static str)
        ensures
            r@ == self.model_id_text(),
    ;

    /// The provider that runs the model.
    fn provider(&self) -> (r: VideoGenProvider)
        ensures
            r == self.provider_of(),
    ;

    /// Checks the model's input.
    fn validate_input(&self) -> (r: Result<(), VideoGenError>)
        ensures
            follows_check(r, self.input_check()),
    ;

    /// The prompt text.
    fn get_prompt(&self) -> (r: &str)
        ensures
            r@ == self.prompt_text(),
    ;

    /// The input image, if any.
    fn get_image(&self) -> (r: Option<&ImageData>)
        ensures
            image_ref_matches(r, self.image_of()),
    ;

    /// The flow control key of the task queue: `VIDEOGEN_` and the model id.
    fn flow_control_key(&self) -> (r: String)
        ensures
            r@ == "VIDEOGEN_"@ + self.model_id_text(),
    {
        crate::text::concat2("VIDEOGEN_", self.model_id())
    }

    /// The input image, if any, to be changed in place.
    fn get_image_mut(&mut self) -> (r: Option<&mut ImageData>)
        ensures
            match r {
                Some(m) => old(self).image_of() == Some(*m) && final(self).image_of() == Some(*final(m)),
                None => old(self).image_of() is None && final(self).image_of() is None,
            },
            final(self).same_apart_from_image(old(self)),
    ;

    /// Flow control (rate per minute, parallelism), if any.
    fn flow_control_config(&self) -> (r: Option<(u32, u32)>)
        ensures
            r == self.flow_control_of(),
    ;

    /// Whether the provider reports completion by webhook.
    fn supports_webhook_callbacks(&self) -> (r: bool)
        ensures
            r == self.webhook_callbacks(),
    ;
}

/// Names the environment variables that configure a model's flow control.
pub trait FlowControlFromEnv {
    /// The prefix of the model's environment variables.
    spec fn env_prefix_text(&self) -> Seq<char>;

    /// The prefix of the model's environment variables.
    fn env_prefix(&self) -> (r: &'static str)
        ensures
            r@ == self.env_prefix_text(),
    ;

    /// The names of the variables that hold the rate per minute and the
    /// parallelism: the prefix and `_FLOW_CONTROL_RATE`, the prefix and
    /// `_FLOW_CONTROL_PARALLELISM`.
    fn flow_control_env_keys(&self) -> (r: (String, String))
        ensures
            r.0@ == self.env_prefix_text() + "_FLOW_CONTROL_RATE"@,
            r.1@ == self.env_prefix_text() + "_FLOW_CONTROL_PARALLELISM"@,
    {
        let prefix = self.env_prefix();
        (crate::text::concat2(prefix, "_FLOW_CONTROL_RATE"), crate::text::concat2(prefix, "_FLOW_CONTROL_PARALLELISM"))
    }
}

/// The value of an optional variable read as a `u32`: nothing where it is
/// unset or does not parse.
pub open spec fn env_number(v: Option<Seq<char>>) -> Option<u32> {
    match v {
        Some(s) => parse_u32_spec(s),
        None => None,
    }
}

/// The flow control of a model given the values of its two variables (where
/// set) and its default: each value that parses as a `u32` overrides its part
/// of the default, as `flow_control_spec` says.
pub fn flow_control_from_env_values(
    rate: Option<&str>,
    parallelism: Option<&str>,
    default: Option<(u32, u32)>,
) -> (r: Option<(u32, u32)>)
    ensures
        r == flow_control_spec(
            env_number(match rate { Some(s) => Some(s@), None => None }),
            env_number(match parallelism { Some(s) => Some(s@), None => None }),
            default,
        ),
{
    let rate_value = match rate {
        Some(s) => parse_u32(s),
        None => None,
    };
    let parallelism_value = match parallelism {
        Some(s) => parse_u32(s),
        None => None,
    };
    combine_flow_control(rate_value, parallelism_value, default)
}

/// The flow control that a rate and a parallelism read from the environment
/// give, each filling in for the default's value where present.
pub open spec fn flow_control_spec(
    rate: Option<u32>,
    parallelism: Option<u32>,
    default: Option<(u32, u32)>,
) -> Option<(u32, u32)> {
    match (rate, parallelism) {
        (Some(r), Some(p)) => Some((r, p)),
        (Some(r), None) => match default {
            Some((_, p)) => Some((r, p)),
            None => None,
        },
        (None, Some(p)) => match default {
            Some((r, _)) => Some((r, p)),
            None => None,
        },
        (None, None) => default,
    }
}

/// Combines a rate and a parallelism read from the environment with a
/// default flow control: both values override, one value overrides its part
/// of the default (and gives nothing without a default), none keeps the default.
pub fn combine_flow_control(
    rate: Option<u32>,
    parallelism: Option<u32>,
    default: Option<(u32, u32)>,
) -> (r: Option<(u32, u32)>)
    ensures
        r == flow_control_spec(rate, parallelism, default),
{
    match (rate, parallelism) {
        (Some(r), Some(p)) => Some((r, p)),
        (Some(r), None) => match default {
            Some((_, p)) => Some((r, p)),
            None => None,
        },
        (None, Some(p)) => match default {
            Some((r, _)) => Some((r, p)),
            None => None,
        },
        (None, None) => default,
    }
}

} // verus!
