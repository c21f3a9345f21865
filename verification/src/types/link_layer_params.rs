use std::time::Duration;
use vstd::prelude::*;

use crate::error::ConfigError;
use crate::types::duration::{duration_from_millis, duration_is_zero, duration_nanos};

verus! {

/// The values that link layer parameters (or their builder) hold.
pub struct LinkLayerValues {
    pub link_addr_size: u8,
    pub response_timeout: Duration,
    pub poll_interval: Duration,
}

/// The constraints: a link address of 1 or 2 bytes and non-zero timings.
pub open spec fn link_values_valid(v: LinkLayerValues) -> bool {
    &&& 1 <= v.link_addr_size <= 2
    &&& duration_nanos(v.response_timeout) > 0
    &&& duration_nanos(v.poll_interval) > 0
}

/// The error that building from these values reports, checked in this order;
/// `None` when they meet the constraints.
pub open spec fn link_build_error(v: LinkLayerValues) -> Option<ConfigError> {
    if v.link_addr_size != 1 && v.link_addr_size != 2 {
        Some(ConfigError::InvalidLinkAddrSize(v.link_addr_size))
    } else if duration_nanos(v.response_timeout) == 0 {
        Some(ConfigError::ZeroTimeout("response_timeout"))
    } else if duration_nanos(v.poll_interval) == 0 {
        Some(ConfigError::ZeroTimeout("poll_interval"))
    } else {
        None
    }
}

/// Building succeeds exactly on the values that meet the constraints.
pub proof fn lemma_link_build_error_iff_invalid(v: LinkLayerValues)
    ensures
        link_build_error(v) is None <==> link_values_valid(v),
{
}

/// The defaults: 1-byte link address, 500 ms response timeout, 1000 ms poll interval.
pub open spec fn link_default_values(v: LinkLayerValues) -> bool {
    &&& v.link_addr_size == 1
    &&& duration_nanos(v.response_timeout) == 500_000_000
    &&& duration_nanos(v.poll_interval) == 1_000_000_000
}

/// Link layer parameters for IEC 60870-5-101 (FT 1.2).
///
/// Controls link address size, response timeouts, and polling intervals.
/// Use [`LinkLayerParametersBuilder`] for custom configurations with validation.
#[derive(Debug, Clone, Copy, PartialEq, Eq)]
pub struct LinkLayerParameters {
    link_addr_size: u8,
    response_timeout: Duration,
    poll_interval: Duration,
}

impl View for LinkLayerParameters {
    type V = LinkLayerValues;

    closed spec fn view(&self) -> LinkLayerValues {
        LinkLayerValues {
            link_addr_size: self.link_addr_size,
            response_timeout: self.response_timeout,
            poll_interval: self.poll_interval,
        }
    }
}

impl Default for LinkLayerParameters {
    fn default() -> (r: Self)
        ensures
            link_default_values(r@),
    {
        LinkLayerParameters {
            link_addr_size: 1,
            response_timeout: duration_from_millis(500),
            poll_interval: duration_from_millis(1000),
        }
    }
}

impl LinkLayerParameters {
    /// Every value of this type meets the constraints.
    #[verifier::type_invariant]
    pub open spec fn valid(self) -> bool {
        link_values_valid(self@)
    }

    /// Create a builder initialized with default values.
    pub fn builder() -> (r: LinkLayerParametersBuilder)
        ensures
            link_default_values(r@),
    {
        LinkLayerParametersBuilder::default()
    }

    /// Size of the link address field (1 or 2 bytes).
    pub fn link_addr_size(&self) -> (r: u8)
        ensures
            r == self@.link_addr_size,
            1 <= r <= 2,
    {
        proof {
            use_type_invariant(self);
        }
        self.link_addr_size
    }

    /// Timeout waiting for a response from the slave station.
    pub fn response_timeout(&self) -> (r: Duration)
        ensures
            r == self@.response_timeout,
    {
        self.response_timeout
    }

    /// Interval between polling cycles when no data is pending.
    pub fn poll_interval(&self) -> (r: Duration)
        ensures
            r == self@.poll_interval,
    {
        self.poll_interval
    }
}

/// Builder for [`LinkLayerParameters`] with constraint validation.
#[derive(Debug, Clone, Copy)]
pub struct LinkLayerParametersBuilder {
    link_addr_size: u8,
    response_timeout: Duration,
    poll_interval: Duration,
}

impl View for LinkLayerParametersBuilder {
    type V = LinkLayerValues;

    closed spec fn view(&self) -> LinkLayerValues {
        LinkLayerValues {
            link_addr_size: self.link_addr_size,
            response_timeout: self.response_timeout,
            poll_interval: self.poll_interval,
        }
    }
}

impl Default for LinkLayerParametersBuilder {
    fn default() -> (r: Self)
        ensures
            link_default_values(r@),
    {
        let defaults = LinkLayerParameters::default();
        LinkLayerParametersBuilder {
            link_addr_size: defaults.link_addr_size,
            response_timeout: defaults.response_timeout,
            poll_interval: defaults.poll_interval,
        }
    }
}

impl LinkLayerParametersBuilder {
    /// Size of the link address field (1 or 2).
    pub fn link_addr_size(self, size: u8) -> (r: Self)
        ensures
            r@ == (LinkLayerValues { link_addr_size: size, ..self@ }),
    {
        let mut s = self;
        s.link_addr_size = size;
        s
    }

    /// Timeout waiting for a slave response (default 500ms).
    pub fn response_timeout(self, timeout: Duration) -> (r: Self)
        ensures
            r@ == (LinkLayerValues { response_timeout: timeout, ..self@ }),
    {
        let mut s = self;
        s.response_timeout = timeout;
        s
    }

    /// Interval between polls when idle (default 1000ms).
    pub fn poll_interval(self, interval: Duration) -> (r: Self)
        ensures
            r@ == (LinkLayerValues { poll_interval: interval, ..self@ }),
    {
        let mut s = self;
        s.poll_interval = interval;
        s
    }

    /// Build and validate the parameters.
    ///
    /// # Constraints
    /// - `link_addr_size`: must be 1 or 2
    /// - `response_timeout`: must be non-zero
    /// - `poll_interval`: must be non-zero
    pub fn build(self) -> (r: Result<LinkLayerParameters, ConfigError>)
        ensures
            match link_build_error(self@) {
                Some(e) => r == Err::<LinkLayerParameters, ConfigError>(e),
                None => r matches Ok(p) && p@ == self@,
            },
    {
        if self.link_addr_size != 1 && self.link_addr_size != 2 {
            return Err(ConfigError::InvalidLinkAddrSize(self.link_addr_size));
        }
        if duration_is_zero(&self.response_timeout) {
            return Err(ConfigError::ZeroTimeout("response_timeout"));
        }
        if duration_is_zero(&self.poll_interval) {
            return Err(ConfigError::ZeroTimeout("poll_interval"));
        }
        Ok(
            LinkLayerParameters {
                link_addr_size: self.link_addr_size,
                response_timeout: self.response_timeout,
                poll_interval: self.poll_interval,
            },
        )
    }
}

} // verus!
