use vstd::prelude::*;

verus! {

/// The cooldown that the built-in error types use, in milliseconds: a unit
/// of work that fails the same way on every run is reported once a second,
/// not on every run.
pub const DEFAULT_COOLDOWN_MS: u64 = 1000;

/// An error that knows which stream of repeated errors it belongs to, and how
/// long that stream stays quiet after a report.
///
/// Errors with the same identity form one throttled stream; errors with
/// different identities never hold each other back.
pub trait Dedup {
    /// The identity of this error, as characters.
    spec fn spec_identify(&self) -> Seq<char>;

    /// The cooldown of this error, in milliseconds.
    spec fn spec_cooldown(&self) -> u64;

    /// What makes two errors "the same" for throttling.
    fn identify(&self) -> (r: String)
        ensures
            r@ == self.spec_identify(),
    ;

    /// How long, in milliseconds, an error must not be reported again after a
    /// report with the same identity. Zero turns throttling off. The usual
    /// choice is [`DEFAULT_COOLDOWN_MS`].
    fn cooldown(&self) -> (r: u64)
        ensures
            r == self.spec_cooldown(),
    ;
}

/// A failure with no information: all of them share one identity.
impl Dedup for () {
    open spec fn spec_identify(&self) -> Seq<char> {
        Seq::empty()
    }

    open spec fn spec_cooldown(&self) -> u64 {
        DEFAULT_COOLDOWN_MS
    }

    fn identify(&self) -> (r: String) {
        String::new()
    }

    fn cooldown(&self) -> (r: u64) {
        DEFAULT_COOLDOWN_MS
    }
}

/// A message: one throttled stream for each distinct text.
impl Dedup for &'static str {
    open spec fn spec_identify(&self) -> Seq<char> {
        (*self)@
    }

    open spec fn spec_cooldown(&self) -> u64 {
        DEFAULT_COOLDOWN_MS
    }

    fn identify(&self) -> (r: String) {
        (*self).to_owned()
    }

    fn cooldown(&self) -> (r: u64) {
        DEFAULT_COOLDOWN_MS
    }
}

#[verifier::external_type_specification]
#[verifier::external_body]
pub struct ExAnyhowError(anyhow::Error);

/// An opaque error tells nothing finer apart, so all opaque errors of one
/// unit of work share a single throttled stream.
impl Dedup for anyhow::Error {
    open spec fn spec_identify(&self) -> Seq<char> {
        Seq::empty()
    }

    open spec fn spec_cooldown(&self) -> u64 {
        DEFAULT_COOLDOWN_MS
    }

    fn identify(&self) -> (r: String) {
        String::new()
    }

    fn cooldown(&self) -> (r: u64) {
        DEFAULT_COOLDOWN_MS
    }
}

} // verus!
