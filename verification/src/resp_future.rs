//! The future that a client call hands back: a boxed, pinned transport future
//! behind a wrapper that gives access to it only through `&mut` or by value.

use std::future::Future;
use std::pin::Pin;
use std::task::Context;
use std::task::Poll;
use vstd::future::FutureAdditionalSpecFns;
use vstd::prelude::*;

verus! {

/// `hyper::Response`, the head and body of an HTTP response. Carried through,
/// never looked into.
#[verifier::external_type_specification]
#[verifier::external_body]
#[verifier::reject_recursive_types(T)]
pub struct ExResponse<T>(hyper::Response<T>);

/// `tonic::body::Body`, the type-erased body of a gRPC message. Carried through.
#[verifier::external_type_specification]
#[verifier::external_body]
pub struct ExBody(tonic::body::Body);

/// `hyper_util::client::legacy::Error`, the transport's error. Carried through.
#[verifier::external_type_specification]
#[verifier::external_body]
pub struct ExClientError(hyper_util::client::legacy::Error);

/// `std::task::Context`, which holds the waker of the task that polls.
#[verifier::external_type_specification]
#[verifier::external_body]
pub struct ExContext<'a>(Context<'a>);

/// `std::task::Poll`, with the two variants that std declares: `Ready` with a
/// value, and `Pending`.
#[verifier::external_type_specification]
#[verifier::reject_recursive_types(T)]
pub struct ExPoll<T>(Poll<T>);

/// `std::fmt::Formatter`, the sink of a `Debug` impl.
#[verifier::external_type_specification]
#[verifier::external_body]
pub struct ExFormatter<'a>(std::fmt::Formatter<'a>);

/// `std::fmt::Error`, what a formatter's sink fails with.
#[verifier::external_type_specification]
#[verifier::external_body]
pub struct ExFmtError(std::fmt::Error);

/// What the transport resolves to: a response, or the transport's error.
pub type Reply = Result<hyper::Response<tonic::body::Body>, hyper_util::client::legacy::Error>;

/// What one poll reports.
pub type Polled = Poll<Reply>;

/// A value that can be reached only through `&mut` or by giving the wrapper up,
/// so that no two holders ever look at it at once.
pub struct SyncWrapper<T>(T);

impl<T> SyncWrapper<T> {
    /// The wrapped value.
    pub closed spec fn view(&self) -> T {
        self.0
    }

    /// Wraps `value`.
    pub fn new(value: T) -> (wrapper: Self)
        ensures
            wrapper@ == value,
    {
        Self(value)
    }

    /// Lends the wrapped value. What the borrower leaves behind is what the
    /// wrapper holds afterwards.
    pub fn get_mut(&mut self) -> (value: &mut T)
        ensures
            *value == old(self)@,
            final(self)@ == *final(value),
    {
        &mut self.0
    }

    /// Gives the wrapped value back.
    pub fn into_inner(self) -> (value: T)
        ensures
            value == self@,
    {
        self.0
    }
}

/// A transport future on the heap, pinned, its concrete type erased:
/// `Pin<Box<dyn Future<Output = Reply> + Send>>`. Verus takes no trait object
/// of two traits, so the field is hidden from it; [`observed`] stands for what
/// has happened to the future, [`resolution`] for what it resolves to.
#[verifier::external_body]
pub struct BoxedFuture {
    future: Pin<Box<dyn Future<Output = Reply> + Send>>,
}

/// What the polls of `future` have returned since it was boxed, oldest first.
pub uninterp spec fn observed(future: BoxedFuture) -> Seq<Polled>;

/// The reply that `future` resolves to: the view that vstd gives the future
/// in the box, which is what awaiting it returns.
pub uninterp spec fn resolution(future: BoxedFuture) -> Reply;

/// No entry of `record` is `Ready`.
pub open spec fn all_pending(record: Seq<Polled>) -> bool {
    forall|i: int| 0 <= i < record.len() ==> #[trigger] record[i] is Pending
}

/// `Box::pin`, and the coercion to the trait object. The box is new, so nothing
/// has polled it yet; it holds `value` and no other future, so it resolves to
/// what `value` resolves to.
#[verifier::external_body]
fn box_pin<F>(value: F) -> (boxed: BoxedFuture) where
    F: Future<Output = Reply> + Send + 'static,

    ensures
        observed(boxed) == Seq::<Polled>::empty(),
        resolution(boxed) == value@,
{
    BoxedFuture { future: Box::pin(value) }
}

/// `Future::poll` on the boxed future, through `Pin::as_mut`. What the call
/// returns is, by the meaning of [`observed`], the next entry of the record.
/// Whether this poll finds the future ready is the future's business; where it
/// does, the value is the one that the future resolves to, as awaiting it
/// would have returned it, and a poll changes nothing of that. A future that
/// has returned `Ready` may panic when polled again, so such a call is left
/// out.
#[verifier::external_body]
fn poll_boxed(boxed: &mut BoxedFuture, cx: &mut Context<'_>) -> (outcome: Polled)
    requires
        all_pending(observed(*old(boxed))),
    ensures
        observed(*final(boxed)) == observed(*old(boxed)).push(outcome),
        resolution(*final(boxed)) == resolution(*old(boxed)),
        outcome is Ready ==> outcome == Poll::<Reply>::Ready(resolution(*old(boxed))),
{
    boxed.future.as_mut().poll(cx)
}

/// The calls of `pad` that `f` has taken, oldest first: the text that each was
/// handed, and what it returned.
pub uninterp spec fn handed(f: std::fmt::Formatter<'_>) -> Seq<(Seq<char>, Result<(), std::fmt::Error>)>;

/// `Formatter::pad`: hands `text` to the formatter, which writes it to its
/// sink, padded or cut as its width and precision ask, and returns what the
/// sink answered. By the meaning of [`handed`] the call is the next entry of
/// that record. Whether the sink takes the text is not ours to say.
#[verifier::external_body]
fn pad(f: &mut std::fmt::Formatter<'_>, text: &str) -> (done: Result<(), std::fmt::Error>)
    ensures
        handed(*final(f)) == handed(*old(f)).push((text@, done)),
{
    f.pad(text)
}

/// Where a response future stands.
pub enum Phase {
    /// No poll has seen the transport finish.
    Pending,
    /// A poll has seen the transport finish with this reply.
    Resolved(Reply),
}

/// The phase after one more poll that reported `outcome`. The first `Ready`
/// settles the phase for good.
pub open spec fn step(phase: Phase, outcome: Polled) -> Phase {
    match phase {
        Phase::Pending => match outcome {
            Poll::Pending => Phase::Pending,
            Poll::Ready(reply) => Phase::Resolved(reply),
        },
        Phase::Resolved(reply) => Phase::Resolved(reply),
    }
}

/// The phase after the polls of `record`, starting from `Pending`.
pub open spec fn phase_after(record: Seq<Polled>) -> Phase
    decreases record.len(),
{
    if record.len() == 0 {
        Phase::Pending
    } else {
        step(phase_after(record.drop_last()), record.last())
    }
}

/// A record as polls in the `Pending` phase alone can leave it of a future
/// that resolves to `reply`: `Ready` is its last entry or none, and holds
/// `reply`.
pub open spec fn single_completion(record: Seq<Polled>, reply: Reply) -> bool {
    &&& forall|i: int| 0 <= i < record.len() - 1 ==> #[trigger] record[i] is Pending
    &&& record.len() > 0 && record.last() is Ready ==> record.last() == Poll::<Reply>::Ready(reply)
}

/// A future that resolves to an HTTP response.
#[must_use]
pub struct ResponseFuture {
    inner: SyncWrapper<BoxedFuture>,
}

impl ResponseFuture {
    /// What the polls of this future have reported, oldest first.
    pub closed spec fn record(&self) -> Seq<Polled> {
        observed(self.inner@)
    }

    /// Where this future stands.
    pub open spec fn phase(&self) -> Phase {
        phase_after(self.record())
    }

    /// The reply that the wrapped future resolves to.
    pub closed spec fn resolution(&self) -> Reply {
        resolution(self.inner@)
    }

    /// At most the last poll has reported `Ready`, and then with the reply
    /// that the wrapped future resolves to.
    pub open spec fn well_formed(&self) -> bool {
        single_completion(self.record(), self.resolution())
    }

    /// Boxes and pins `value`. The result wraps that very future: it resolves
    /// to what `value` resolves to, and nothing has been polled yet.
    pub fn new<F>(value: F) -> (fut: Self) where
        F: Future<Output = Reply> + Send + 'static,

        ensures
            fut.resolution() == value@,
            fut.record() == Seq::<Polled>::empty(),
            fut.phase() is Pending,
            fut.well_formed(),
    {
        Self { inner: SyncWrapper::new(box_pin(value)) }
    }

    /// Polls the transport once and reports what it reported, unchanged: a
    /// pending poll stays pending, a reply or an error comes out as it is.
    /// A future that has resolved is not polled again.
    pub fn poll(&mut self, cx: &mut Context<'_>) -> (outcome: Polled)
        requires
            old(self).phase() is Pending,
        ensures
            final(self).record() == old(self).record().push(outcome),
            final(self).resolution() == old(self).resolution(),
            outcome is Ready ==> outcome == Poll::<Reply>::Ready(old(self).resolution()),
            final(self).phase() == step(Phase::Pending, outcome),
            final(self).well_formed(),
    {
        proof {
            lemma_pending_iff_all_pending(self.record());
        }
        let ghost before = self.record();
        let outcome = poll_boxed(self.inner.get_mut(), cx);
        proof {
            assert(before.push(outcome).drop_last() == before);
        }
        outcome
    }

    /// The text that stands for any response future in debug output. It does
    /// not depend on the future: to look inside would be to poll it.
    pub fn debug_label(&self) -> (label: &'static str)
        ensures
            label@ == "Future<Response>"@,
    {
        "Future<Response>"
    }
}

impl std::fmt::Debug for ResponseFuture {
    /// Hands the formatter the label of [`ResponseFuture::debug_label`], once,
    /// and returns what the formatter answered: the same text for every
    /// future, whatever it wraps and wherever it stands.
    fn fmt(&self, f: &mut std::fmt::Formatter<'_>) -> (done: Result<(), std::fmt::Error>)
        ensures
            handed(*final(f)) == handed(*old(f)).push(("Future<Response>"@, done)),
    {
        pad(f, self.debug_label())
    }
}

/// The phase is `Pending` exactly as long as no poll has reported `Ready`.
pub proof fn lemma_pending_iff_all_pending(record: Seq<Polled>)
    ensures
        phase_after(record) is Pending <==> all_pending(record),
    decreases record.len(),
{
    if record.len() > 0 {
        let front = record.drop_last();
        lemma_pending_iff_all_pending(front);
        if all_pending(record) {
            assert forall|i: int| 0 <= i < front.len() implies #[trigger] front[i] is Pending by {
                assert(front[i] == record[i]);
            }
            assert(record.last() == record[record.len() - 1]);
        }
        if phase_after(record) is Pending {
            assert forall|i: int| 0 <= i < record.len() implies #[trigger] record[i] is Pending by {
                if i < front.len() {
                    assert(record[i] == front[i]);
                }
            }
        }
    }
}

/// Pass-through over a whole run: where the transport is pending on every poll
/// but the last and finishes with `reply` on the last, every earlier poll
/// leaves the future `Pending`, the last one leaves it `Resolved` with that
/// very reply, success or error alike.
pub proof fn lemma_resolves_on_last_poll(record: Seq<Polled>, reply: Reply)
    requires
        record.len() >= 1,
        all_pending(record.drop_last()),
        record.last() == Poll::Ready(reply),
    ensures
        forall|n: int| 0 <= n < record.len() ==> #[trigger] phase_after(record.take(n)) is Pending,
        phase_after(record) == Phase::Resolved(reply),
{
    let front = record.drop_last();
    lemma_pending_iff_all_pending(front);
    assert forall|n: int| 0 <= n < record.len() implies #[trigger] phase_after(
        record.take(n),
    ) is Pending by {
        let prefix = record.take(n);
        assert forall|i: int| 0 <= i < prefix.len() implies #[trigger] prefix[i] is Pending by {
            assert(prefix[i] == front[i]);
        }
        lemma_pending_iff_all_pending(prefix);
    }
}

/// A future that has resolved did so on its last poll, and with the reply that
/// this poll reported, which is the reply that the wrapped future resolves to:
/// nothing was reported `Ready` before it, and nothing else in its place.
pub proof fn lemma_resolved_by_last_poll(fut: ResponseFuture, reply: Reply)
    requires
        fut.well_formed(),
        fut.phase() == Phase::Resolved(reply),
    ensures
        fut.record().len() >= 1,
        fut.record().last() == Poll::Ready(reply),
        all_pending(fut.record().drop_last()),
        reply == fut.resolution(),
{
    let record = fut.record();
    lemma_pending_iff_all_pending(record);
    if record.len() >= 1 {
        let front = record.drop_last();
        assert forall|i: int| 0 <= i < front.len() implies #[trigger] front[i] is Pending by {
            assert(front[i] == record[i]);
        }
        lemma_pending_iff_all_pending(front);
    }
}

} // verus!
