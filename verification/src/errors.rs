//! Error taxonomy of the worker, and the ordered, non-empty aggregate of
//! failures collected by the retry executor.

use vstd::prelude::*;

verus! {

/// A failure raised while publishing one extracted file tree to object
/// storage.  Each variant carries the collaborator's message as plain text.
#[derive(Debug)]
pub enum PublishError {
    Io(String),
    ReadDir(String),
    StripPrefix(String),
    Aws(String),
}

/// A classified failure of one deployment job.
#[derive(Debug)]
pub enum ProcessFileError {
    /// The object store failed for a reason other than a missing key.
    S3Error,
    /// The fetched object carried no metadata map at all.
    EmptyMeta,
    /// The metadata map carried no job descriptor entry.
    NoMeta,
    /// The job descriptor entry was present but not valid JSON.
    InvalidMeta { meta: String },
    /// The deploy tool exited with a non-zero status.
    DeployFail(Option<i32>),
    /// The deploy tool outlived its time budget.
    WranglerTimeout,
    /// Every attempt of a retried step failed.
    Aggregate(Box<AggregateError<ProcessFileError>>),
    /// Publishing assets to object storage failed.
    R2Error(PublishError),
    /// A filesystem operation failed.
    Io(String),
    /// A background task did not complete cleanly.
    JoinError,
}

/// An ordered, non-empty collection of errors from repeated attempts of one
/// logical operation.  The first element is the root cause; no error is ever
/// silently dropped.
#[derive(Debug)]
pub struct AggregateError<E> {
    root: AggregateErrorNode<E>,
}

#[derive(Debug)]
struct AggregateErrorNode<E> {
    error: E,
    next: Option<Box<AggregateErrorNode<E>>>,
}

impl<E> AggregateErrorNode<E> {
    spec fn chain(self) -> Seq<E>
        decreases self,
    {
        match self.next {
            None => seq![self.error],
            Some(rest) => seq![self.error] + rest.chain(),
        }
    }

    proof fn lemma_chain_nonempty(self)
        ensures
            self.chain().len() >= 1,
        decreases self,
    {
    }
}

impl<E> View for AggregateError<E> {
    type V = Seq<E>;

    closed spec fn view(&self) -> Seq<E> {
        self.root.chain()
    }
}

/// Law: an aggregate error always holds at least one error; it cannot be
/// built from an empty list of failures.
pub proof fn lemma_aggregate_error_nonempty<E>(agg: AggregateError<E>)
    ensures
        agg@.len() >= 1,
{
    agg.root.lemma_chain_nonempty();
}

impl<E> AggregateError<E> {
    /// Wrap a single error.
    pub fn new(error: E) -> (r: Self)
        ensures
            r@ == seq![error],
    {
        Self { root: AggregateErrorNode { error, next: None } }
    }

    /// Collect a non-empty list of errors, keeping their order.
    pub fn from_iter(errors: Vec<E>) -> (r: Self)
        requires
            errors@.len() >= 1,
        ensures
            r@ == errors@,
    {
        let ghost orig: Seq<E> = errors@;
        let mut v = errors;
        let e0 = v.pop().unwrap();
        let mut node = AggregateErrorNode { error: e0, next: None };
        proof {
            assert(node.chain() =~= orig.skip(orig.len() - 1));
        }
        while v.len() > 0
            invariant
                v@.len() < orig.len(),
                v@ == orig.take(v@.len() as int),
                node.chain() =~= orig.skip(v@.len() as int),
            decreases v@.len(),
        {
            let ghost k = v@.len() as int;
            let ghost prefix = v@;
            let e = v.pop().unwrap();
            proof {
                assert(prefix == orig.take(k));
                assert(prefix[k - 1] == orig.take(k)[k - 1]);
                assert(orig.take(k)[k - 1] == orig[k - 1]);
                assert(e == orig[k - 1]);
                assert(v@ == prefix.subrange(0, k - 1));
                assert forall|i: int| 0 <= i < k - 1 implies v@[i] == orig[i] by {
                    assert(prefix.subrange(0, k - 1)[i] == prefix[i]);
                    assert(prefix[i] == orig.take(k)[i]);
                    assert(orig.take(k)[i] == orig[i]);
                }
                assert(v@ =~= orig.take(k - 1));
            }
            node = AggregateErrorNode { error: e, next: Some(Box::new(node)) };
            proof {
                assert(node.chain() =~= orig.skip(k - 1));
            }
        }
        let r = Self { root: node };
        proof {
            assert(r@ =~= orig);
        }
        r
    }

    /// Flatten the aggregate back into the list of errors, in attempt order.
    pub fn into_vec(self) -> (r: Vec<E>)
        ensures
            r@ == self@,
    {
        let ghost whole: Seq<E> = self@;
        let AggregateError { root } = self;
        let AggregateErrorNode { error, next } = root;
        let mut res: Vec<E> = Vec::new();
        res.push(error);
        let mut rest = next;
        while rest.is_some()
            invariant
                match rest {
                    Some(node) => res@ + node.chain() == whole,
                    None => res@ == whole,
                },
            decreases rest,
        {
            let node = *rest.unwrap();
            let AggregateErrorNode { error, next } = node;
            res.push(error);
            rest = next;
            proof {
                if let Some(n) = &rest {
                    assert(res@ + n.chain() =~= whole);
                } else {
                    assert(res@ =~= whole);
                }
            }
        }
        res
    }
}

} // verus!
