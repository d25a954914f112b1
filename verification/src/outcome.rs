//! Classification of a submission's lifecycle notifications into its
//! final outcome: the first terminal notification — finalized or
//! rejected — decides, later ones are ignored, and a stream that never
//! reaches a terminal state leaves the submission pending.

use vstd::prelude::*;

use crate::event::EventRecord;

verus! {

/// One lifecycle notification of a watched submission, as the ledger's
/// subscription yields them. A `Finalized` notice carries the event
/// log of the submitted transaction in its finalized block; `Invalid`
/// and `Dropped` carry the ledger's reason verbatim.
pub enum LedgerNotice {
    Broadcast,
    InBlock,
    Finalized(Vec<EventRecord>),
    Invalid(String),
    Dropped(String),
}

/// The outcome of one submission: the finalized event log, a rejection
/// carrying the ledger's reason verbatim, or still pending — the
/// stream never reached a terminal state (there is no timeout).
pub enum SubmissionOutcome {
    Finalized(Vec<EventRecord>),
    Rejected(String),
    Pending,
}

/// Whether a notification ends the wait.
pub open spec fn is_terminal(n: LedgerNotice) -> bool {
    n is Finalized || n is Invalid || n is Dropped
}

/// The first terminal notification of a stream, if any arrived.
pub open spec fn first_terminal(s: Seq<LedgerNotice>) -> Option<LedgerNotice>
    decreases s.len(),
{
    if s.len() == 0 {
        None
    } else if is_terminal(s[0]) {
        Some(s[0])
    } else {
        first_terminal(s.drop_first())
    }
}

/// The outcome that a terminal notification decides.
pub open spec fn outcome_of(n: LedgerNotice) -> SubmissionOutcome {
    match n {
        LedgerNotice::Finalized(log) => SubmissionOutcome::Finalized(log),
        LedgerNotice::Invalid(reason) => SubmissionOutcome::Rejected(reason),
        LedgerNotice::Dropped(reason) => SubmissionOutcome::Rejected(reason),
        _ => SubmissionOutcome::Pending,
    }
}

/// The position and identity of the first terminal notification.
pub proof fn lemma_first_terminal(s: Seq<LedgerNotice>)
    ensures
        match first_terminal(s) {
            Some(n) => exists|i: int|
                0 <= i < s.len() && s[i] == n && is_terminal(s[i]) && (forall|j: int|
                    0 <= j < i ==> !is_terminal(s[j])),
            None => forall|j: int| 0 <= j < s.len() ==> !is_terminal(s[j]),
        },
    decreases s.len(),
{
    if s.len() > 0 && !is_terminal(s[0]) {
        lemma_first_terminal(s.drop_first());
        match first_terminal(s.drop_first()) {
            Some(n) => {
                let i = choose|i: int|
                    0 <= i < s.drop_first().len() && s.drop_first()[i] == n && is_terminal(
                        s.drop_first()[i],
                    ) && (forall|j: int| 0 <= j < i ==> !is_terminal(s.drop_first()[j]));
                assert(s[i + 1] == s.drop_first()[i]);
                assert forall|j: int| 0 <= j < i + 1 implies !is_terminal(s[j]) by {
                    if j > 0 {
                        assert(s.drop_first()[j - 1] == s[j]);
                    }
                };
            },
            None => {
                assert forall|j: int| 0 <= j < s.len() implies !is_terminal(s[j]) by {
                    if j > 0 {
                        assert(s.drop_first()[j - 1] == s[j]);
                    }
                };
            },
        }
    }
}

/// Whatever follows the first terminal notification plays no part:
/// the stream up to and including it already decides.
pub proof fn lemma_first_terminal_decides(
    pre: Seq<LedgerNotice>,
    n: LedgerNotice,
    post: Seq<LedgerNotice>,
)
    requires
        forall|j: int| 0 <= j < pre.len() ==> !is_terminal(pre[j]),
        is_terminal(n),
    ensures
        first_terminal(pre + seq![n] + post) == Some(n),
    decreases pre.len(),
{
    let s = pre + seq![n] + post;
    if pre.len() == 0 {
        assert(s[0] == n);
    } else {
        assert(s[0] == pre[0]);
        lemma_first_terminal_decides(pre.drop_first(), n, post);
        assert(s.drop_first() =~= pre.drop_first() + seq![n] + post);
    }
}

/// A stream with no terminal notification decides nothing.
pub proof fn lemma_no_terminal_pending(s: Seq<LedgerNotice>)
    requires
        forall|j: int| 0 <= j < s.len() ==> !is_terminal(s[j]),
    ensures
        first_terminal(s) is None,
{
    lemma_first_terminal(s);
    if first_terminal(s) is Some {
        let i = choose|i: int|
            0 <= i < s.len() && s[i] == first_terminal(s)->0 && is_terminal(s[i]) && (forall|
                j: int,
            |
                0 <= j < i ==> !is_terminal(s[j]));
        assert(is_terminal(s[i]));
    }
}

/// Classify a recorded notification stream: the first terminal notice
/// decides — the finalized block's event log, or the ledger's reason
/// verbatim — and a stream with no terminal notice is still pending.
pub fn classify(input: &mut Vec<LedgerNotice>) -> (r: SubmissionOutcome)
    ensures
        match first_terminal(old(input)@) {
            None => r is Pending,
            Some(n) => r == outcome_of(n),
        },
{
    let ghost orig = old(input)@;
    let mut k: usize = 0;
    while k < input.len()
        invariant
            0 <= k <= input@.len(),
            orig == old(input)@,
            input@ == orig,
            forall|j: int| 0 <= j < k ==> !is_terminal(input@[j]),
        decreases input@.len() - k,
    {
        let terminal = match &input[k] {
            LedgerNotice::Finalized(_) => true,
            LedgerNotice::Invalid(_) => true,
            LedgerNotice::Dropped(_) => true,
            _ => false,
        };
        if terminal {
            proof {
                assert(orig.subrange(0, k as int) =~= orig.take(k as int));
                lemma_first_terminal_decides(
                    orig.take(k as int),
                    orig[k as int],
                    orig.skip(k + 1),
                );
                assert(orig.take(k as int) + seq![orig[k as int]] + orig.skip(k + 1) =~= orig);
            }
            let n = input.remove(k);
            match n {
                LedgerNotice::Finalized(log) => {
                    return SubmissionOutcome::Finalized(log);
                },
                LedgerNotice::Invalid(reason) => {
                    return SubmissionOutcome::Rejected(reason);
                },
                LedgerNotice::Dropped(reason) => {
                    return SubmissionOutcome::Rejected(reason);
                },
                _ => {
                    return vstd::pervasive::unreached();
                },
            }
        }
        k = k + 1;
    }
    proof {
        lemma_no_terminal_pending(orig);
    }
    SubmissionOutcome::Pending
}

/// The state of a live watch on one submission: the first terminal
/// notification seen so far, if any.
pub struct SubmissionWatch {
    seen: Option<LedgerNotice>,
}

/// One step of the watch: a terminal notification is kept only while
/// none has been kept yet; everything else is ignored.
pub open spec fn watch_step(st: Option<LedgerNotice>, n: LedgerNotice) -> Option<LedgerNotice> {
    if st is Some {
        st
    } else if is_terminal(n) {
        Some(n)
    } else {
        None
    }
}

/// The watch state after a whole stream, one step at a time.
pub open spec fn watch_run(s: Seq<LedgerNotice>) -> Option<LedgerNotice>
    decreases s.len(),
{
    if s.len() == 0 {
        None
    } else {
        watch_step(watch_run(s.drop_last()), s.last())
    }
}

impl SubmissionWatch {
    /// The first terminal notification this watch has seen.
    pub closed spec fn seen_view(&self) -> Option<LedgerNotice> {
        self.seen
    }

    /// A fresh watch: nothing seen yet.
    pub fn new() -> (r: SubmissionWatch)
        ensures
            r.seen_view() is None,
    {
        SubmissionWatch { seen: None }
    }

    /// Feed one notification to the watch.
    pub fn observe(&mut self, n: LedgerNotice)
        ensures
            final(self).seen_view() == watch_step(old(self).seen_view(), n),
    {
        if self.seen.is_none() {
            let terminal = match &n {
                LedgerNotice::Finalized(_) => true,
                LedgerNotice::Invalid(_) => true,
                LedgerNotice::Dropped(_) => true,
                _ => false,
            };
            if terminal {
                self.seen = Some(n);
            }
        }
    }

    /// Whether the wait has ended.
    pub fn is_done(&self) -> (r: bool)
        ensures
            r == (self.seen_view() is Some),
    {
        self.seen.is_some()
    }

    /// The outcome the watch has decided on: pending while no terminal
    /// notification has arrived.
    pub fn outcome(self) -> (r: SubmissionOutcome)
        ensures
            match self.seen_view() {
                None => r is Pending,
                Some(n) => r == outcome_of(n),
            },
    {
        match self.seen {
            None => SubmissionOutcome::Pending,
            Some(LedgerNotice::Finalized(log)) => SubmissionOutcome::Finalized(log),
            Some(LedgerNotice::Invalid(reason)) => SubmissionOutcome::Rejected(reason),
            Some(LedgerNotice::Dropped(reason)) => SubmissionOutcome::Rejected(reason),
            Some(_) => SubmissionOutcome::Pending,
        }
    }
}

/// Stepping a watch through a whole stream decides exactly what the
/// stream's first terminal notification decides: only the first
/// terminal one is acted upon, later ones are ignored.
pub proof fn lemma_watch_agrees(s: Seq<LedgerNotice>)
    ensures
        watch_run(s) == first_terminal(s),
    decreases s.len(),
{
    if s.len() > 0 {
        lemma_watch_agrees(s.drop_last());
        lemma_first_terminal_snoc(s.drop_last(), s.last());
        assert(s.drop_last().push(s.last()) =~= s);
    }
}

/// Appending one notification to a stream: the first terminal notice
/// stays, or becomes the new one if none had arrived.
proof fn lemma_first_terminal_snoc(s: Seq<LedgerNotice>, x: LedgerNotice)
    ensures
        first_terminal(s.push(x)) == (if first_terminal(s) is Some {
            first_terminal(s)
        } else if is_terminal(x) {
            Some(x)
        } else {
            None
        }),
    decreases s.len(),
{
    if s.len() == 0 {
        assert(s.push(x)[0] == x);
        assert(s.push(x).drop_first() =~= Seq::<LedgerNotice>::empty());
        assert(first_terminal(Seq::<LedgerNotice>::empty()) is None);
    } else {
        assert(s.push(x)[0] == s[0]);
        lemma_first_terminal_snoc(s.drop_first(), x);
        assert(s.push(x).drop_first() =~= s.drop_first().push(x));
        assert(first_terminal(s.push(x).drop_first()) == first_terminal(s.drop_first().push(x)));
    }
}

} // verus!
