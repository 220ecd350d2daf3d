//! Helper bodies and the builder that only ever produces well-structured ones.
//!
//! A body is well structured when, read from the start, every `else` closes an
//! `if`, every `end` closes an open construct, the last `end` closes the
//! function itself and nothing follows it, every branch targets an enclosing
//! construct, and every local index names a parameter or a declared local.
use vstd::prelude::*;
use crate::wasm::model::{BlockTy, Ins, ValTy};

verus! {

/// An open control construct while reading a body.
#[derive(PartialEq, Eq, Structural)]
pub enum Frame {
    Func,
    Block,
    Loop,
    If,
    Else,
}

/// Number of locals a body can name: its parameters and its declared locals.
pub open spec fn local_count(params: nat, locals: Seq<(u32, ValTy)>) -> nat
    decreases locals.len(),
{
    if locals.len() == 0 {
        params
    } else {
        local_count(params, locals.drop_last()) + locals.last().0 as nat
    }
}

/// The open constructs after reading `ins` with `stack` open, or `None` when
/// `ins` is out of place.
pub open spec fn step(stack: Seq<Frame>, ins: Ins, nlocals: nat) -> Option<Seq<Frame>> {
    if stack.len() == 0 {
        None
    } else {
        match ins {
            Ins::Block(_) => Some(stack.push(Frame::Block)),
            Ins::Loop(_) => Some(stack.push(Frame::Loop)),
            Ins::If(_) => Some(stack.push(Frame::If)),
            Ins::Else => if stack.last() == Frame::If {
                Some(stack.drop_last().push(Frame::Else))
            } else {
                None
            },
            Ins::End => Some(stack.drop_last()),
            Ins::Br(depth) => if depth < stack.len() { Some(stack) } else { None },
            Ins::BrIf(depth) => if depth < stack.len() { Some(stack) } else { None },
            Ins::BrTable { targets, default } => if targets <= stack.len() && default < stack.len() {
                Some(stack)
            } else {
                None
            },
            Ins::LocalGet(i) => if i < nlocals { Some(stack) } else { None },
            Ins::LocalSet(i) => if i < nlocals { Some(stack) } else { None },
            Ins::LocalTee(i) => if i < nlocals { Some(stack) } else { None },
            _ => Some(stack),
        }
    }
}

/// The open constructs after reading all of `code`, starting inside the
/// function; `None` when some instruction is out of place.
pub open spec fn frames_after(code: Seq<Ins>, nlocals: nat) -> Option<Seq<Frame>>
    decreases code.len(),
{
    if code.len() == 0 {
        Some(seq![Frame::Func])
    } else {
        match frames_after(code.drop_last(), nlocals) {
            Some(stack) => step(stack, code.last(), nlocals),
            None => None,
        }
    }
}

/// `code` reads as a complete, well-structured function body.
pub open spec fn well_structured(code: Seq<Ins>, nlocals: nat) -> bool {
    frames_after(code, nlocals) == Some(Seq::<Frame>::empty())
}

/// A generated function body: parameter count, declared locals and code.
pub struct Body {
    pub params: u32,
    pub locals: Vec<(u32, ValTy)>,
    pub code: Vec<Ins>,
}

impl Body {
    /// Number of locals the body can name.
    pub open spec fn nlocals(&self) -> nat {
        local_count(self.params as nat, self.locals@)
    }

    /// The body is a complete, well-structured function body.
    pub open spec fn valid(&self) -> bool {
        well_structured(self.code@, self.nlocals())
    }
}


/// The declared locals and the code of each body, in order.
pub open spec fn body_views(bodies: Seq<Body>) -> Seq<(Seq<(u32, ValTy)>, Seq<Ins>)> {
    bodies.map_values(|b: Body| (b.locals@, b.code@))
}

/// A helper signature as parameter and result types.
pub open spec fn signature_views(sigs: Seq<(Vec<ValTy>, Vec<ValTy>)>) -> Seq<(Seq<ValTy>, Seq<ValTy>)> {
    sigs.map_values(|sig: (Vec<ValTy>, Vec<ValTy>)| (sig.0@, sig.1@))
}

/// Each body is valid and takes as many parameters as its signature lists.
pub open spec fn bodies_fit(bodies: Seq<Body>, sigs: Seq<(Seq<ValTy>, Seq<ValTy>)>) -> bool {
    &&& bodies.len() == sigs.len()
    &&& forall|i: int| 0 <= i < bodies.len() ==> {
        &&& #[trigger] bodies[i].valid()
        &&& bodies[i].params == sigs[i].0.len()
    }
}

/// Appending fitting bodies to fitting bodies fits the joined signatures.
pub proof fn lemma_bodies_fit_append(
    a: Seq<Body>,
    b: Seq<Body>,
    s: Seq<(Seq<ValTy>, Seq<ValTy>)>,
    t: Seq<(Seq<ValTy>, Seq<ValTy>)>,
)
    requires
        bodies_fit(a, s),
        bodies_fit(b, t),
    ensures
        bodies_fit(a + b, s + t),
{
    assert forall|i: int| 0 <= i < (a + b).len() implies {
        &&& #[trigger] (a + b)[i].valid()
        &&& (a + b)[i].params == (s + t)[i].0.len()
    } by {
        if i >= a.len() {
            assert((a + b)[i] == b[i - a.len()]);
            assert((s + t)[i] == t[i - a.len()]);
            assert(b[i - a.len()].valid());
        } else {
            assert(a[i].valid());
        }
    }
}

/// Collects bodies into a vector, preserving fit.
pub(crate) fn append_bodies(dst: &mut Vec<Body>, src: Vec<Body>, Ghost(s): Ghost<Seq<(Seq<ValTy>, Seq<ValTy>)>>, Ghost(t): Ghost<Seq<(Seq<ValTy>, Seq<ValTy>)>>)
    requires
        bodies_fit(old(dst)@, s),
        bodies_fit(src@, t),
    ensures
        bodies_fit(final(dst)@, s + t),
        final(dst)@ == old(dst)@ + src@,
{
    let mut src = src;
    proof {
        lemma_bodies_fit_append(dst@, src@, s, t);
    }
    dst.append(&mut src);
}


/// Signature views distribute over concatenation.
pub proof fn lemma_signature_views_append(a: Seq<(Vec<ValTy>, Vec<ValTy>)>, b: Seq<(Vec<ValTy>, Vec<ValTy>)>)
    ensures
        signature_views(a + b) == signature_views(a) + signature_views(b),
{
    assert(signature_views(a + b) =~= signature_views(a) + signature_views(b));
}

/// Collects signatures into a vector, keeping track of their views.
pub(crate) fn append_signatures(dst: &mut Vec<(Vec<ValTy>, Vec<ValTy>)>, src: Vec<(Vec<ValTy>, Vec<ValTy>)>)
    ensures
        signature_views(final(dst)@) == signature_views(old(dst)@) + signature_views(src@),
{
    let mut src = src;
    proof {
        lemma_signature_views_append(dst@, src@);
    }
    dst.append(&mut src);
}

/// Builds a body instruction by instruction, refusing (by contract) any
/// instruction that would break its structure.
pub struct Builder {
    params: u32,
    locals: Vec<(u32, ValTy)>,
    code: Vec<Ins>,
    frames: Ghost<Seq<Frame>>,
}

impl Builder {
    pub closed spec fn params(&self) -> u32 {
        self.params
    }

    pub closed spec fn locals(&self) -> Seq<(u32, ValTy)> {
        self.locals@
    }

    pub closed spec fn code(&self) -> Seq<Ins> {
        self.code@
    }

    /// The constructs that are open at the end of the code so far.
    pub closed spec fn frames(&self) -> Seq<Frame> {
        self.frames@
    }

    pub open spec fn nlocals(&self) -> nat {
        local_count(self.params() as nat, self.locals())
    }

    pub closed spec fn wf(&self) -> bool {
        frames_after(self.code@, self.nlocals()) == Some(self.frames@)
    }

    /// An empty body with `params` parameters and no declared locals.
    pub fn new(params: u32) -> (b: Builder)
        ensures
            b.wf(),
            b.params() == params,
            b.locals() == Seq::<(u32, ValTy)>::empty(),
            b.code() == Seq::<Ins>::empty(),
            b.frames() == seq![Frame::Func],
            b.nlocals() == params,
    {
        let frames: Ghost<Seq<Frame>> = Ghost(Seq::empty().push(Frame::Func));
        Builder { params, locals: Vec::new(), code: Vec::new(), frames }
    }

    /// Declares `count` more locals of type `ty`; allowed before any code.
    pub fn declare(&mut self, count: u32, ty: ValTy)
        requires
            old(self).wf(),
            old(self).code().len() == 0,
        ensures
            final(self).wf(),
            final(self).params() == old(self).params(),
            final(self).locals() == old(self).locals().push((count, ty)),
            final(self).code() == old(self).code(),
            final(self).frames() == old(self).frames(),
            final(self).nlocals() == old(self).nlocals() + count,
    {
        let ghost before = self.locals@;
        self.locals.push((count, ty));
        assert(self.locals@.drop_last() =~= before);
    }

    /// Appends `ins`, which must fit the open constructs and the locals.
    pub fn push(&mut self, ins: Ins)
        requires
            old(self).wf(),
            step(old(self).frames(), ins, old(self).nlocals()) is Some,
        ensures
            final(self).wf(),
            final(self).params() == old(self).params(),
            final(self).locals() == old(self).locals(),
            final(self).code() == old(self).code().push(ins),
            final(self).frames() == step(old(self).frames(), ins, old(self).nlocals())->0,
    {
        let ghost before = self.code@;
        self.code.push(ins);
        proof {
            assert(self.code@.drop_last() =~= before);
            self.frames = Ghost(step(self.frames@, ins, self.nlocals())->0);
        }
    }

    /// The finished body; every construct, the function included, is closed.
    pub fn finish(self) -> (body: Body)
        requires
            self.wf(),
            self.frames().len() == 0,
        ensures
            body.valid(),
            body.params == self.params(),
            body.locals@ == self.locals(),
            body.code@ == self.code(),
    {
        assert(self.frames@ =~= Seq::<Frame>::empty());
        Body { params: self.params, locals: self.locals, code: self.code }
    }
}

} // verus!
