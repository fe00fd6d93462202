use crate::alpha::Alpha;
use crate::consts::{DEFAULT_ALPHA_LEVEL, DEFAULT_DURATION, DEFAULT_FADE_MS};
use vstd::prelude::*;

verus! {

/// The settings of a run, each optional until defaults are applied.
#[derive(Clone, Copy, Debug, PartialEq, Eq)]
pub struct DimOpts {
    /// Seconds until the program ends by itself; `0` means never.
    pub duration: Option<u64>,
    pub alpha: Option<Alpha>,
    /// Length of the fade-in, in milliseconds.
    pub fade: Option<u64>,
    /// Let input through to the surfaces below.
    pub passthrough: bool,
}

#[derive(Clone, Copy, Debug, PartialEq, Eq, Structural)]
pub enum OptsError {
    /// The fade-in is longer than the whole run.
    FadeTooLong,
}

/// `first` where it is set, else `second`.
pub open spec fn either<T>(first: Option<T>, second: Option<T>) -> Option<T> {
    match first {
        Some(v) => Some(v),
        None => second,
    }
}

pub open spec fn value_or<T>(o: Option<T>, default: T) -> T {
    match o {
        Some(v) => v,
        None => default,
    }
}

impl DimOpts {
    pub open spec fn spec_duration(self) -> u64 {
        value_or(self.duration, DEFAULT_DURATION)
    }

    pub open spec fn spec_alpha(self) -> Alpha {
        value_or(self.alpha, Alpha { level: DEFAULT_ALPHA_LEVEL })
    }

    pub open spec fn spec_fade(self) -> u64 {
        value_or(self.fade, DEFAULT_FADE_MS)
    }

    /// Whether the fade, where it is set, fits in the run.
    pub open spec fn is_valid(self) -> bool {
        self.fade matches Some(f) ==> f <= self.spec_duration() * 1000
    }

    /// Merges `other` onto `self`: `other`'s values win where set, and
    /// passthrough holds if either asks for it.
    pub fn merge_onto_self(self, other: DimOpts) -> (r: DimOpts)
        ensures
            r == (DimOpts {
                duration: either(other.duration, self.duration),
                alpha: either(other.alpha, self.alpha),
                fade: either(other.fade, self.fade),
                passthrough: self.passthrough || other.passthrough,
            }),
    {
        DimOpts {
            duration: match other.duration {
                Some(d) => Some(d),
                None => self.duration,
            },
            alpha: match other.alpha {
                Some(a) => Some(a),
                None => self.alpha,
            },
            fade: match other.fade {
                Some(f) => Some(f),
                None => self.fade,
            },
            passthrough: self.passthrough || other.passthrough,
        }
    }

    /// Checks that the values are within limits; to be called before the
    /// options are used.
    pub fn validate(&self) -> (r: Result<(), OptsError>)
        ensures
            r is Ok <==> self.is_valid(),
            r is Err ==> r == Err::<(), OptsError>(OptsError::FadeTooLong),
    {
        match self.fade {
            Some(f) => {
                let limit = self.duration() as u128 * 1000;
                if f as u128 <= limit {
                    Ok(())
                } else {
                    Err(OptsError::FadeTooLong)
                }
            },
            None => Ok(()),
        }
    }

    /// The alpha asked for, or the default.
    pub fn alpha(&self) -> (r: Alpha)
        ensures
            r == self.spec_alpha(),
    {
        match self.alpha {
            Some(a) => a,
            None => Alpha::from_level(DEFAULT_ALPHA_LEVEL),
        }
    }

    /// The duration asked for, or the default.
    pub fn duration(&self) -> (r: u64)
        ensures
            r == self.spec_duration(),
    {
        match self.duration {
            Some(d) => d,
            None => DEFAULT_DURATION,
        }
    }

    /// The fade asked for, or the default.
    pub fn fade(&self) -> (r: u64)
        ensures
            r == self.spec_fade(),
    {
        match self.fade {
            Some(f) => f,
            None => DEFAULT_FADE_MS,
        }
    }
}

} // verus!
