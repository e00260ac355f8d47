//! A minimal error-decoration library.
//!
//! [`FullError`] wraps a single inner error value and, on request, renders the
//! inner error's message followed by every underlying cause on its own line,
//! each cause line prefixed by a configurable separator header.

use vstd::prelude::*;

pub mod render;

pub use render::cause_line;
pub use render::cause_lines;
pub use render::default_sep;
pub use render::opt_str_view;
pub use render::render_parts;
pub use render::rendered;
pub use render::resolve_sep;

verus! {

/// Name of the process-wide configuration key (an environment variable) that
/// selects the separator header used when rendering cause lines. When the key
/// is unset the header defaults to `from =>`.
pub const TAB_ENV: &'static str = "FULLERROR_SOURCE_HEADER";

/// The error capability an inner type must offer for cause-chain rendering:
/// a display message, and the display messages of its underlying causes,
/// nearest cause first. An implementor that reports no cause returns an empty
/// cause list; one with a cause returns that cause's message followed by the
/// cause's own cause messages.
pub trait SourceError {
    /// The display message, as a sequence of characters. An implementor that
    /// keeps the default leaves the message unspecified; overriding it is
    /// what gives [`message`](Self::message) (and rendering) an exact
    /// contract.
    open spec fn msg_spec(&self) -> Seq<char> {
        vstd::pervasive::arbitrary()
    }

    /// The display messages of the cause chain, nearest cause first.
    /// Unspecified unless overridden, like [`msg_spec`](Self::msg_spec).
    open spec fn causes_spec(&self) -> Seq<Seq<char>> {
        vstd::pervasive::arbitrary()
    }

    /// Produces the display message.
    fn message(&self) -> (m: String)
        ensures
            m@ == self.msg_spec(),
    ;

    /// Produces the cause-chain messages, nearest cause first.
    fn cause_messages(&self) -> (c: Vec<String>)
        ensures
            c@.map_values(|s: String| s@) == self.causes_spec(),
    ;
}

/// The full error: a transparent container owning exactly one inner error
/// value of caller-chosen type `E`.
pub struct FullError<E>(pub E);

impl<E: SourceError> FullError<E> {
    /// Renders the wrapped error as display text: the inner error's message,
    /// then each cause on its own line prefixed by the separator header and a
    /// single space, nearest cause first, every line ending with a line
    /// break.
    ///
    /// `tab` is the current value of the [`TAB_ENV`] configuration key,
    /// looked up fresh by the caller for this one call: `None` when the key
    /// is unset (or its value is not a valid string), in which case the
    /// default header `from =>` is used.
    pub fn render(&self, tab: Option<&str>) -> (out: String)
        ensures
            out@ == rendered(
                self.0.msg_spec(),
                self.0.causes_spec(),
                resolve_sep(opt_str_view(tab)),
            ),
    {
        let message = self.0.message();
        let causes = self.0.cause_messages();
        render_parts(message.as_str(), &causes, tab)
    }
}

/// The wrapper offers the error capability itself, sitting at the outermost
/// layer: its message is the full rendering of the wrapped error (with the
/// default separator header), and it reports no further cause of its own.
impl<E: SourceError> SourceError for FullError<E> {
    open spec fn msg_spec(&self) -> Seq<char> {
        rendered(self.0.msg_spec(), self.0.causes_spec(), default_sep())
    }

    open spec fn causes_spec(&self) -> Seq<Seq<char>> {
        Seq::empty()
    }

    fn message(&self) -> (m: String) {
        self.render(None)
    }

    fn cause_messages(&self) -> (c: Vec<String>) {
        let c: Vec<String> = Vec::new();
        proof {
            assert(c@.map_values(|s: String| s@) =~= Seq::<Seq<char>>::empty());
        }
        c
    }
}

impl<E> FullError<E> {
    /// Wraps an inner value. Construction always succeeds and stores the value
    /// unchanged.
    pub fn new(inner: E) -> (r: Self)
        ensures
            r.0 == inner,
    {
        FullError(inner)
    }

    /// Transparent read access: a reference to the owned inner value.
    pub fn as_inner(&self) -> (r: &E)
        ensures
            *r == self.0,
    {
        &self.0
    }

    /// Transparent mutable access: the inner value may be modified in place;
    /// the wrapper afterwards holds exactly the value left behind the
    /// returned reference.
    pub fn as_inner_mut(&mut self) -> (r: &mut E)
        ensures
            *r == old(self).0,
            final(self).0 == *final(r),
    {
        &mut self.0
    }

    /// Consumes the wrapper and hands the inner value back unchanged.
    pub fn into_inner(self) -> (r: E)
        ensures
            r == self.0,
    {
        self.0
    }
}

impl<E> From<E> for FullError<E> {
    /// Implicit construction: propagating an `E` into a context that expects
    /// a `FullError<E>` wraps it unchanged.
    fn from(value: E) -> (r: Self)
        ensures
            r.0 == value,
    {
        FullError(value)
    }
}

impl<E> vstd::std_specs::convert::FromSpecImpl<E> for FullError<E> {
    open spec fn obeys_from_spec() -> bool {
        true
    }

    open spec fn from_spec(v: E) -> Self {
        FullError(v)
    }
}

/// Implicit construction preserves the inner value: the wrapper that a
/// propagated inner error converts into holds exactly the original value.
pub proof fn lemma_from_transparent<E>(e: E)
    ensures
        <FullError<E> as vstd::std_specs::convert::FromSpec<E>>::obeys_from_spec(),
        (<FullError<E> as vstd::std_specs::convert::FromSpec<E>>::from_spec(e)).0 == e,
{
}

} // verus!
