//! Run-level outcome: the fatal error taxonomy, its diagnostics, and the
//! accumulated pass/fail verdict that decides the exit status.

use vstd::prelude::*;

verus! {

/// A condition that aborts the remaining run at once.  Ordinary validation
/// errors are never fatal; they are the expected output of a failing run.
#[derive(Clone, Copy, PartialEq, Eq, Structural, Debug)]
pub enum Fatal {
    /// The schema input was not one well-formed JSON document of the
    /// expected shape.
    SchemaJson,
    /// The schema document combined or spelled its keywords illegally.
    SchemaMalformed,
    /// The schema failed its structural-validity check.
    SchemaInvalid,
    /// An instance in the stream was not well-formed JSON.
    InstanceParse,
    /// The validator exceeded the configured reference depth.
    MaxDepthExceeded,
}

/// The human-readable diagnostic for each fatal condition.
pub open spec fn diagnostic_of(f: Fatal) -> Seq<char> {
    match f {
        Fatal::SchemaJson => "Failed to parse schema"@,
        Fatal::SchemaMalformed => "Malformed schema"@,
        Fatal::SchemaInvalid => "Invalid schema"@,
        Fatal::InstanceParse => "Failed to parse instance"@,
        Fatal::MaxDepthExceeded => "Failed to validate instance"@,
    }
}

impl Fatal {
    /// The diagnostic to print on the error stream for this condition.
    pub fn diagnostic(&self) -> (r: &'static str)
        ensures
            r@ == diagnostic_of(*self),
    {
        match self {
            Fatal::SchemaJson => "Failed to parse schema",
            Fatal::SchemaMalformed => "Malformed schema",
            Fatal::SchemaInvalid => "Invalid schema",
            Fatal::InstanceParse => "Failed to parse instance",
            Fatal::MaxDepthExceeded => "Failed to validate instance",
        }
    }
}

/// The one piece of state shared across instances: whether any instance has
/// failed so far.
pub struct RunState {
    pub any_failed: bool,
}

impl RunState {
    /// A fresh run has seen no failure.
    pub fn new() -> (r: Self)
        ensures
            !r.any_failed,
    {
        RunState { any_failed: false }
    }

    /// Fold one instance's verdict into the run: a failure is never
    /// forgotten.
    pub fn record(&mut self, failed: bool)
        ensures
            final(self).any_failed == (old(self).any_failed || failed),
    {
        self.any_failed = self.any_failed || failed;
    }

    /// The process exit status: `1` exactly when some instance failed,
    /// `0` otherwise.
    pub fn exit_code(&self) -> (r: i32)
        ensures
            r == (if self.any_failed {
                1i32
            } else {
                0i32
            }),
    {
        if self.any_failed {
            1
        } else {
            0
        }
    }
}

} // verus!
