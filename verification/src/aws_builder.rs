//! Fluent assembly of the remote-sink handle.
//!
//! Every configured handle names a fresh log stream: when a stream name
//! is set, the wall clock in milliseconds is appended to it, and when
//! none is set, the defaults use the bare milliseconds as the name. The
//! stream itself is provisioned eagerly at build time — against the
//! model through `Aws::create_log_stream`, and against the live service
//! by the shell, which treats any failure there as fatal to startup.

use vstd::prelude::*;

use crate::aws::Aws;
use crate::text::dec_digits;
use crate::text::push_dec;
use crate::time::now_millis;

verus! {

/// The name a configured stream gets: the chosen base name, an
/// underscore, and the wall clock in milliseconds.
pub open spec fn suffixed_name(base: Seq<char>, millis: nat) -> Seq<char> {
    base.push('_') + dec_digits(millis)
}

/// Builder for the remote-sink handle: the service region and the names
/// of the log group and the log stream.
pub struct AwsBuilder {
    pub region: String,
    pub log_group_name: String,
    pub log_stream_name: String,
}

impl AwsBuilder {
    /// Sets the region the service is addressed in.
    pub fn set_region(self, region: String) -> (r: Self)
        ensures
            r.region == region,
            r.log_group_name == self.log_group_name,
            r.log_stream_name == self.log_stream_name,
    {
        AwsBuilder { region, ..self }
    }

    /// Sets the log group name.
    pub fn set_log_group_name(self, log_group_name: String) -> (r: Self)
        ensures
            r.region == self.region,
            r.log_group_name == log_group_name,
            r.log_stream_name == self.log_stream_name,
    {
        AwsBuilder { log_group_name, ..self }
    }

    /// Sets the log stream name; the wall clock in milliseconds is
    /// appended so that every configuration names a fresh stream.
    pub fn set_log_stream_name(self, log_stream_name: String) -> (r: Self)
        ensures
            r.region == self.region,
            r.log_group_name == self.log_group_name,
            exists|millis: u64| r.log_stream_name@ == suffixed_name(
                log_stream_name@,
                millis as nat,
            ),
    {
        let millis = clamped_now_millis();
        let mut name = log_stream_name;
        name.push('_');
        push_dec(&mut name, millis);
        proof {
            assert(name@ =~= suffixed_name(log_stream_name@, millis as nat));
        }
        AwsBuilder { log_stream_name: name, ..self }
    }

    /// Assembles the handle; the caller provisions the stream.
    pub fn build(self) -> (r: Aws)
        ensures
            r.region == self.region,
            r.log_group_name == self.log_group_name,
            r.log_stream_name == self.log_stream_name,
    {
        Aws::new(self.region, self.log_group_name, self.log_stream_name)
    }
}

impl Default for AwsBuilder {
    /// The default handle: region `eu-central-1`, group `loggify`, and
    /// the wall clock in milliseconds as the stream name.
    fn default() -> (r: Self)
        ensures
            r.region@ == "eu-central-1"@,
            r.log_group_name@ == "loggify"@,
            exists|millis: u64| r.log_stream_name@ == dec_digits(millis as nat),
    {
        let millis = clamped_now_millis();
        let mut name = String::new();
        push_dec(&mut name, millis);
        proof {
            assert(name@ =~= dec_digits(millis as nat));
        }
        AwsBuilder {
            region: String::from_str("eu-central-1"),
            log_group_name: String::from_str("loggify"),
            log_stream_name: name,
        }
    }
}

/// The wall clock in milliseconds, clamped below at zero so that it
/// always renders as plain digits.
fn clamped_now_millis() -> (r: u64) {
    let m = now_millis();
    if m < 0 {
        0
    } else {
        m as u64
    }
}

} // verus!
