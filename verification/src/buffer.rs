//! Models of the engine's error-reporting surface.
//!
//! The engine reports a failed call through an out-parameter sentinel whose
//! `test` predicate is inspected after every fallible call, and renders a
//! human-readable message into a reusable buffer on demand.  The buffer's
//! text accessor lives on its base string-view type, so the derived buffer
//! re-exposes the base explicitly through an exclusive-access adapter instead
//! of any handle reinterpretation.

use vstd::prelude::*;

verus! {

/// The style code used for every rendered failure message.
pub const MESSAGE_STYLE: i32 = 0x02;

/// Base string-view type: owns rendered bytes and hands them out.
pub struct StrView {
    text: Vec<u8>,
}

impl View for StrView {
    type V = Seq<u8>;

    closed spec fn view(&self) -> Seq<u8> {
        self.text@
    }
}

impl StrView {
    pub fn empty() -> (r: StrView)
        ensures
            r@ == Seq::<u8>::empty(),
    {
        StrView { text: Vec::new() }
    }

    /// Replaces the held text.
    pub fn store(&mut self, text: Vec<u8>)
        ensures
            final(self)@ == text@,
    {
        self.text = text;
    }

    /// The text accessor of the base type: hands the rendered bytes out,
    /// leaving the view empty.
    pub fn take_text(&mut self) -> (t: Vec<u8>)
        ensures
            t@ == old(self)@,
            final(self)@ == Seq::<u8>::empty(),
    {
        let mut t: Vec<u8> = Vec::new();
        core::mem::swap(&mut self.text, &mut t);
        t
    }
}

/// The message buffer the orchestration reuses for every error-formatting
/// step.  Its text accessor lives on the base [`StrView`]; the buffer
/// re-exposes the base through [`MessageBuffer::as_base`].
pub struct MessageBuffer {
    base: StrView,
}

impl View for MessageBuffer {
    type V = Seq<u8>;

    closed spec fn view(&self) -> Seq<u8> {
        self.base@
    }
}

impl MessageBuffer {
    pub fn new() -> (r: MessageBuffer)
        ensures
            r@ == Seq::<u8>::empty(),
    {
        MessageBuffer { base: StrView::empty() }
    }

    /// Base-access adapter: an exclusive view of the buffer as its base
    /// string-view type, referring to the same underlying text.  Exclusive
    /// access is forced by the mutable borrow: while the base view lives, no
    /// other view of the buffer can.
    pub fn as_base(&mut self) -> (b: &mut StrView)
        ensures
            (*b)@ == old(self)@,
            final(self)@ == (*final(b))@,
    {
        &mut self.base
    }
}

/// What a sentinel in state (`status`, `message`) renders into a buffer under
/// a style code, whatever the buffer held before: the recorded message bytes.
pub open spec fn fmt_result(prior: Seq<u8>, status: int, message: Seq<u8>, style: i32) -> Seq<u8> {
    message
}

/// Formatting the same sentinel state twice into the same buffer with the
/// same style code leaves the text byte-identical: the second rendering
/// changes nothing.
pub proof fn lemma_fmt_idempotent(prior: Seq<u8>, status: int, message: Seq<u8>, style: i32)
    ensures
        fmt_result(fmt_result(prior, status, message, style), status, message, style)
            == fmt_result(prior, status, message, style),
{
}

/// Model of the engine's error sentinel: the out-parameter every fallible
/// engine call writes into.  The orchestration never constructs failure state
/// itself; it only inspects the sentinel through [`ErrorSentinel::test`]
/// after each call.  [`ErrorSentinel::record`] models the engine's side of
/// the contract and is meant for engine implementations alone.
pub struct ErrorSentinel {
    code: i32,
    detail: Vec<u8>,
}

impl ErrorSentinel {
    /// The status code a `test` call reports; zero means success.
    pub closed spec fn status(&self) -> int {
        self.code as int
    }

    /// The message bytes a `fmt` call renders.
    pub closed spec fn message(&self) -> Seq<u8> {
        self.detail@
    }

    /// A clear sentinel: no failure recorded.
    pub fn new() -> (r: ErrorSentinel)
        ensures
            r.status() == 0,
            r.message() == Seq::<u8>::empty(),
    {
        ErrorSentinel { code: 0, detail: Vec::new() }
    }

    /// Models the engine writing its out-parameter: the call's status code
    /// and, when the call failed, the bytes of its diagnostic.
    pub fn record(&mut self, code: i32, detail: Vec<u8>)
        ensures
            final(self).status() == code as int,
            final(self).message() == detail@,
    {
        self.code = code;
        self.detail = detail;
    }

    /// The failure predicate: non-zero exactly when the last recorded call
    /// failed.
    pub fn test(&self) -> (r: i32)
        ensures
            r as int == self.status(),
    {
        self.code
    }

    /// Renders the sentinel's message into the buffer.  The result depends
    /// only on the sentinel state and the style code, never on what the
    /// buffer held before.
    pub fn fmt(&self, buffer: &mut MessageBuffer, style: i32)
        ensures
            final(buffer)@ == fmt_result(old(buffer)@, self.status(), self.message(), style),
    {
        let mut copy: Vec<u8> = Vec::new();
        let n = self.detail.len();
        let mut i: usize = 0;
        while i < n
            invariant
                n == self.detail@.len(),
                0 <= i <= n,
                copy@ == self.detail@.take(i as int),
            decreases n - i,
        {
            copy.push(self.detail[i]);
            assert(self.detail@.take(i as int).push(self.detail@[i as int]) =~= self.detail@.take(
                i + 1,
            ));
            i += 1;
        }
        assert(self.detail@.take(n as int) =~= self.detail@);
        buffer.as_base().store(copy);
    }
}

/// The whole failure-reporting step in one place: renders the sentinel's
/// message into the buffer, then extracts the display text through the
/// base-access adapter.
pub fn extract_failure_text(sentinel: &ErrorSentinel, buffer: &mut MessageBuffer, style: i32) -> (t:
    Vec<u8>)
    ensures
        t@ == fmt_result(old(buffer)@, sentinel.status(), sentinel.message(), style),
        final(buffer)@ == Seq::<u8>::empty(),
{
    sentinel.fmt(buffer, style);
    buffer.as_base().take_text()
}

} // verus!
