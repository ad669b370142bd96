//! The opaque aggregating error container: wraps any concrete failure behind
//! one type-erased interface and supports attaching contextual messages as it
//! propagates upward. Callers cannot branch on the failure kind by design;
//! those that need to must use [`crate::enumerated::IdNumberError`] instead.

use vstd::prelude::*;

verus! {

/// The minimal capability a concrete failure must offer to be wrapped by an
/// [`OpaqueError`]: produce its own display text.
pub trait Failure {
    /// The display text of this failure, at the specification level.
    spec fn spec_text(&self) -> Seq<char>;

    /// The display text of this failure.
    fn text(&self) -> (r: String)
        ensures
            r@ == self.spec_text(),
    ;
}

/// A type-erased aggregating failure value. It owns a chain of messages,
/// most recent first; each propagation layer may push exactly one new
/// "caused by" link in front of the previous chain, and the chain is never
/// otherwise mutated. The view of an `OpaqueError` is that chain, as a
/// sequence of message texts.
pub struct OpaqueError {
    chain: Vec<String>,
}

impl View for OpaqueError {
    type V = Seq<Seq<char>>;

    closed spec fn view(&self) -> Seq<Seq<char>> {
        Seq::new(self.chain@.len(), |i: int| self.chain@[i]@)
    }
}

/// The indented "caused by" lines for every link after the first, defined
/// back to front so that a renderer that walks the chain forwards can unfold
/// it one link at a time.
pub open spec fn cause_lines(rest: Seq<Seq<char>>) -> Seq<char>
    decreases rest.len(),
{
    if rest.len() == 0 {
        Seq::<char>::empty()
    } else {
        cause_lines(rest.drop_last()) + "\n    "@ + rest.last()
    }
}

/// The full rendering of a non-empty message chain: the top message on the
/// first line; if earlier links exist, a "Caused by:" section follows,
/// listing them most recent first, one indented line each.
pub open spec fn render_spec(chain: Seq<Seq<char>>) -> Seq<char>
    recommends
        chain.len() >= 1,
{
    if chain.len() <= 1 {
        chain[0]
    } else {
        chain[0] + "\n\nCaused by:"@ + cause_lines(chain.drop_first())
    }
}

impl OpaqueError {
    /// A container is well formed when it holds at least one message: one is
    /// placed there at construction and propagation only adds more.
    pub open spec fn wf(&self) -> bool {
        self@.len() >= 1
    }

    /// Builds a fresh container holding a single message and no underlying
    /// cause.
    pub fn from_message(text: String) -> (r: OpaqueError)
        ensures
            r@ == seq![text@],
            r.wf(),
    {
        let chain = vec![text];
        let r = OpaqueError { chain };
        proof {
            assert(r@ =~= seq![text@]);
        }
        r
    }

    /// Wraps any concrete failure by type erasure, preserving that failure's
    /// own display text as the innermost cause.
    pub fn from_failure<E: Failure>(failure: &E) -> (r: OpaqueError)
        ensures
            r@ == seq![failure.spec_text()],
            r.wf(),
    {
        OpaqueError::from_message(failure.text())
    }

    /// Pushes a new message in front of the existing chain. This is the one
    /// permitted mutation during propagation; no earlier link is lost.
    pub fn context(self, msg: String) -> (r: OpaqueError)
        ensures
            r@ == seq![msg@] + self@,
            r.wf(),
    {
        let mut chain = self.chain;
        chain.insert(0, msg);
        let r = OpaqueError { chain };
        proof {
            assert(r@ =~= seq![msg@] + self@);
        }
        r
    }

    /// Every layer's message, most recent first. Propagation never loses
    /// information: each link placed by construction or by [`Self::context`]
    /// remains retrievable here, in order.
    pub fn messages(&self) -> (r: &Vec<String>)
        ensures
            r@.len() == self@.len(),
            forall|i: int| 0 <= i < r@.len() ==> r@[i]@ == self@[i],
    {
        &self.chain
    }

    /// Produces the top message on the first line, followed by a
    /// "Caused by:" section listing every earlier link in the chain, most
    /// recent first.
    pub fn render(&self) -> (r: String)
        requires
            self.wf(),
        ensures
            r@ == render_spec(self@),
    {
        let mut s = String::from_str(self.chain[0].as_str());
        if self.chain.len() > 1 {
            s.append("\n\nCaused by:");
            let mut i: usize = 1;
            while i < self.chain.len()
                invariant
                    1 <= i <= self.chain@.len(),
                    self.chain@.len() > 1,
                    s@ == self@[0] + "\n\nCaused by:"@ + cause_lines(self@.subrange(1, i as int)),
                decreases self.chain@.len() - i,
            {
                s.append("\n    ");
                s.append(self.chain[i].as_str());
                i += 1;
                proof {
                    let sub = self@.subrange(1, i as int);
                    assert(sub.drop_last() =~= self@.subrange(1, i - 1));
                    assert(sub.last() == self@[i - 1]);
                }
            }
            proof {
                assert(self@.subrange(1, self.chain@.len() as int) =~= self@.drop_first());
            }
        }
        s
    }
}

/// The uniform propagation rule for the opaque representation: a success
/// passes through untouched, while a failure gets one new context message
/// pushed in front of its chain. The message builder `f` is evaluated lazily,
/// only on the failing path, so the formatting cost is not paid on success.
pub fn with_context<T, F: FnOnce() -> String>(r: Result<T, OpaqueError>, f: F) -> (res: Result<
    T,
    OpaqueError,
>)
    requires
        call_requires(f, ()),
    ensures
        r is Ok ==> res == r,
        r is Err ==> res is Err && exists|m: String|
            #[trigger] call_ensures(f, (), m) && res->Err_0@ == seq![m@] + r->Err_0@,
        r is Err && r->Err_0.wf() ==> res->Err_0.wf(),
{
    match r {
        Ok(v) => Ok(v),
        Err(e) => {
            let msg = f();
            Err(e.context(msg))
        },
    }
}

/// Rendering is a pure function of the message chain: any two renderings of
/// the same chain are the same text. Together with the postcondition of
/// [`OpaqueError::render`], rendering the same constructed error twice
/// produces identical text.
pub proof fn lemma_render_deterministic(chain: Seq<Seq<char>>, r1: Seq<char>, r2: Seq<char>)
    requires
        r1 == render_spec(chain),
        r2 == render_spec(chain),
    ensures
        r1 == r2,
{
}

} // verus!
