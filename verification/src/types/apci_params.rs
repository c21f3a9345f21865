use std::time::Duration;
use vstd::prelude::*;

use crate::error::ConfigError;
use crate::types::duration::{duration_from_secs, duration_is_zero, duration_lt, duration_nanos};

verus! {

/// The values that APCI parameters (or their builder) hold.
pub struct ApciValues {
    pub k: u16,
    pub w: u16,
    pub t0: Duration,
    pub t1: Duration,
    pub t2: Duration,
    pub t3: Duration,
}

/// The constraints of IEC 60870-5-104 on the APCI parameters.
pub open spec fn apci_values_valid(v: ApciValues) -> bool {
    &&& 1 <= v.k <= 32767
    &&& 1 <= v.w <= 32767
    &&& v.w <= v.k
    &&& duration_nanos(v.t0) > 0
    &&& duration_nanos(v.t1) > 0
    &&& duration_nanos(v.t2) > 0
    &&& duration_nanos(v.t3) > 0
    &&& duration_nanos(v.t2) < duration_nanos(v.t1)
}

/// The error that building from these values reports, checked in this order;
/// `None` when they meet the constraints.
pub open spec fn apci_build_error(v: ApciValues) -> Option<ConfigError> {
    if v.k == 0 || v.k > 32767 {
        Some(ConfigError::InvalidK(v.k))
    } else if v.w == 0 || v.w > 32767 {
        Some(ConfigError::InvalidW(v.w))
    } else if v.w > v.k {
        Some(ConfigError::WExceedsK { w: v.w, k: v.k })
    } else if duration_nanos(v.t0) == 0 {
        Some(ConfigError::ZeroTimeout("t0"))
    } else if duration_nanos(v.t1) == 0 {
        Some(ConfigError::ZeroTimeout("t1"))
    } else if duration_nanos(v.t2) == 0 {
        Some(ConfigError::ZeroTimeout("t2"))
    } else if duration_nanos(v.t3) == 0 {
        Some(ConfigError::ZeroTimeout("t3"))
    } else if duration_nanos(v.t2) >= duration_nanos(v.t1) {
        Some(ConfigError::T2NotLessThanT1 { t2: v.t2, t1: v.t1 })
    } else {
        None
    }
}

/// Building succeeds exactly on the values that meet the constraints.
pub proof fn lemma_apci_build_error_iff_invalid(v: ApciValues)
    ensures
        apci_build_error(v) is None <==> apci_values_valid(v),
{
}

/// The standard defaults: k = 12, w = 8, t0 = 10 s, t1 = 15 s, t2 = 10 s, t3 = 20 s.
pub open spec fn apci_default_values(v: ApciValues) -> bool {
    &&& v.k == 12
    &&& v.w == 8
    &&& duration_nanos(v.t0) == 10_000_000_000
    &&& duration_nanos(v.t1) == 15_000_000_000
    &&& duration_nanos(v.t2) == 10_000_000_000
    &&& duration_nanos(v.t3) == 20_000_000_000
}

/// APCI (Application Protocol Control Information) parameters for CS 104.
///
/// Controls connection timeouts and flow control windows.
/// Use [`ApciParametersBuilder`] to construct with validation.
#[derive(Debug, Clone, Copy, PartialEq, Eq)]
pub struct ApciParameters {
    k: u16,
    w: u16,
    t0: Duration,
    t1: Duration,
    t2: Duration,
    t3: Duration,
}

impl View for ApciParameters {
    type V = ApciValues;

    closed spec fn view(&self) -> ApciValues {
        ApciValues { k: self.k, w: self.w, t0: self.t0, t1: self.t1, t2: self.t2, t3: self.t3 }
    }
}

impl ApciParameters {
    /// Every value of this type meets the constraints of the standard.
    #[verifier::type_invariant]
    pub open spec fn valid(self) -> bool {
        apci_values_valid(self@)
    }

    /// Max unconfirmed I-frames sent before waiting for ack.
    pub fn k(&self) -> (r: u16)
        ensures
            r == self@.k,
            1 <= r <= 32767,
    {
        proof {
            use_type_invariant(self);
        }
        self.k
    }

    /// I-frames received before sending S-frame ack.
    pub fn w(&self) -> (r: u16)
        ensures
            r == self@.w,
            1 <= r <= self@.k,
    {
        proof {
            use_type_invariant(self);
        }
        self.w
    }

    /// Timeout for connection establishment (T0).
    pub fn t0(&self) -> (r: Duration)
        ensures
            r == self@.t0,
    {
        self.t0
    }

    /// Timeout for send or test APDUs (T1).
    pub fn t1(&self) -> (r: Duration)
        ensures
            r == self@.t1,
    {
        self.t1
    }

    /// Timeout for acknowledges in case of no data (T2). Less than T1.
    pub fn t2(&self) -> (r: Duration)
        ensures
            r == self@.t2,
            duration_nanos(r) < duration_nanos(self@.t1),
    {
        proof {
            use_type_invariant(self);
        }
        self.t2
    }

    /// Timeout for sending test frames when idle (T3).
    pub fn t3(&self) -> (r: Duration)
        ensures
            r == self@.t3,
    {
        self.t3
    }

    /// Create a builder initialized with default values.
    pub fn builder() -> (r: ApciParametersBuilder)
        ensures
            apci_default_values(r@),
    {
        ApciParametersBuilder::default()
    }
}

impl Default for ApciParameters {
    fn default() -> (r: Self)
        ensures
            apci_default_values(r@),
    {
        ApciParameters {
            k: 12,
            w: 8,
            t0: duration_from_secs(10),
            t1: duration_from_secs(15),
            t2: duration_from_secs(10),
            t3: duration_from_secs(20),
        }
    }
}

/// Builder for [`ApciParameters`] with IEC 60870-5-104 constraint validation.
///
/// All fields start with standard default values.
#[derive(Debug, Clone, Copy)]
pub struct ApciParametersBuilder {
    k: u16,
    w: u16,
    t0: Duration,
    t1: Duration,
    t2: Duration,
    t3: Duration,
}

impl View for ApciParametersBuilder {
    type V = ApciValues;

    closed spec fn view(&self) -> ApciValues {
        ApciValues { k: self.k, w: self.w, t0: self.t0, t1: self.t1, t2: self.t2, t3: self.t3 }
    }
}

impl Default for ApciParametersBuilder {
    fn default() -> (r: Self)
        ensures
            apci_default_values(r@),
    {
        let defaults = ApciParameters::default();
        ApciParametersBuilder {
            k: defaults.k,
            w: defaults.w,
            t0: defaults.t0,
            t1: defaults.t1,
            t2: defaults.t2,
            t3: defaults.t3,
        }
    }
}

impl ApciParametersBuilder {
    pub fn k(self, k: u16) -> (r: Self)
        ensures
            r@ == (ApciValues { k, ..self@ }),
    {
        let mut s = self;
        s.k = k;
        s
    }

    pub fn w(self, w: u16) -> (r: Self)
        ensures
            r@ == (ApciValues { w, ..self@ }),
    {
        let mut s = self;
        s.w = w;
        s
    }

    pub fn t0(self, t0: Duration) -> (r: Self)
        ensures
            r@ == (ApciValues { t0, ..self@ }),
    {
        let mut s = self;
        s.t0 = t0;
        s
    }

    pub fn t1(self, t1: Duration) -> (r: Self)
        ensures
            r@ == (ApciValues { t1, ..self@ }),
    {
        let mut s = self;
        s.t1 = t1;
        s
    }

    pub fn t2(self, t2: Duration) -> (r: Self)
        ensures
            r@ == (ApciValues { t2, ..self@ }),
    {
        let mut s = self;
        s.t2 = t2;
        s
    }

    pub fn t3(self, t3: Duration) -> (r: Self)
        ensures
            r@ == (ApciValues { t3, ..self@ }),
    {
        let mut s = self;
        s.t3 = t3;
        s
    }

    /// Build and validate the parameters.
    ///
    /// # Constraints (IEC 60870-5-104)
    /// - `k` must be in 1..=32767
    /// - `w` must be in 1..=32767
    /// - `w` must not exceed `k`
    /// - All timeouts must be non-zero
    /// - `t2` must be less than `t1`
    pub fn build(self) -> (r: Result<ApciParameters, ConfigError>)
        ensures
            match apci_build_error(self@) {
                Some(e) => r == Err::<ApciParameters, ConfigError>(e),
                None => r matches Ok(p) && p@ == self@,
            },
    {
        if self.k == 0 || self.k > 32767 {
            return Err(ConfigError::InvalidK(self.k));
        }
        if self.w == 0 || self.w > 32767 {
            return Err(ConfigError::InvalidW(self.w));
        }
        if self.w > self.k {
            return Err(ConfigError::WExceedsK { w: self.w, k: self.k });
        }
        if duration_is_zero(&self.t0) {
            return Err(ConfigError::ZeroTimeout("t0"));
        }
        if duration_is_zero(&self.t1) {
            return Err(ConfigError::ZeroTimeout("t1"));
        }
        if duration_is_zero(&self.t2) {
            return Err(ConfigError::ZeroTimeout("t2"));
        }
        if duration_is_zero(&self.t3) {
            return Err(ConfigError::ZeroTimeout("t3"));
        }
        if !duration_lt(&self.t2, &self.t1) {
            return Err(ConfigError::T2NotLessThanT1 { t2: self.t2, t1: self.t1 });
        }
        Ok(
            ApciParameters {
                k: self.k,
                w: self.w,
                t0: self.t0,
                t1: self.t1,
                t2: self.t2,
                t3: self.t3,
            },
        )
    }
}

/// Default IEC 60870-5-104 port.
pub const DEFAULT_PORT: u16 = 2404;

/// Default TLS port for IEC 62351.
pub const DEFAULT_TLS_PORT: u16 = 19998;

} // verus!
