//! The marshaling rules for values crossing the script/host boundary.
//!
//! Every parameter and result of a registered host function falls into a
//! small closed set of categories: numbers passed by value, references to
//! null-terminated text, a caller-supplied output buffer, the UI context
//! passed by reference and never by copy, and opaque handles. A declared
//! signature is accepted only when its whole shape is one of the supported
//! variants, so a mismatched declaration is caught at registration rather
//! than trusted blindly at link time.

use vstd::prelude::*;

use crate::errors::BoundaryError;

verus! {

/// The marshaling category of one parameter of a registered host function.
#[derive(Clone, Copy, Debug, PartialEq, Eq, Structural)]
pub enum ParamKind {
    /// A fixed-width number passed by value (carried as its bit pattern).
    Float,
    /// An index or count passed by value.
    Int,
    /// A truth value passed by value.
    Bool,
    /// A reference to a null-terminated byte sequence the callee may read.
    TextRef,
    /// A reference to a caller-supplied output buffer of fixed capacity.
    BufRef,
    /// The UI context, always passed by reference, never by copy.
    UiRef,
    /// An opaque handle: an address-sized token the script must never
    /// dereference, only pass back into registered operations.
    Handle,
}

/// The marshaling category of the result of a registered host function.
#[derive(Clone, Copy, Debug, PartialEq, Eq, Structural)]
pub enum RetKind {
    Unit,
    Float,
    Bool,
    Handle,
    TextRef,
}

/// A declared parameter and return signature.
#[derive(Debug)]
pub struct Signature {
    pub params: Vec<ParamKind>,
    pub ret: RetKind,
}

/// The closed set of signature shapes a host function may be declared with:
/// render a label, render a button, render a slider, format text into a
/// caller-supplied buffer, and create, fill, read or release an opaque
/// container.
pub open spec fn supported_shape(p: Seq<ParamKind>, ret: RetKind) -> bool {
    ||| (p.len() == 2 && p[0] == ParamKind::UiRef && p[1] == ParamKind::TextRef
        && ret == RetKind::Unit)
    ||| (p.len() == 2 && p[0] == ParamKind::UiRef && p[1] == ParamKind::TextRef
        && ret == RetKind::Bool)
    ||| (p.len() == 5 && p[0] == ParamKind::UiRef && p[1] == ParamKind::TextRef
        && p[2] == ParamKind::Float && p[3] == ParamKind::Float && p[4] == ParamKind::Float
        && ret == RetKind::Float)
    ||| (p.len() == 3 && p[0] == ParamKind::BufRef && p[1] == ParamKind::TextRef
        && p[2] == ParamKind::Float && ret == RetKind::TextRef)
    ||| (p.len() == 0 && ret == RetKind::Handle)
    ||| (p.len() == 2 && p[0] == ParamKind::Handle && p[1] == ParamKind::Float
        && ret == RetKind::Unit)
    ||| (p.len() == 2 && p[0] == ParamKind::Handle && p[1] == ParamKind::Int
        && ret == RetKind::Float)
    ||| (p.len() == 1 && p[0] == ParamKind::Handle && ret == RetKind::Unit)
}

impl Signature {
    /// The declared shape is one of the supported variants.
    pub open spec fn supported(&self) -> bool {
        supported_shape(self.params@, self.ret)
    }

    /// Decides whether this declared signature is one of the supported
    /// shapes.
    pub fn is_supported(&self) -> (r: bool)
        ensures
            r == self.supported(),
    {
        let n = self.params.len();
        match self.ret {
            RetKind::Unit => {
                (n == 2 && self.params[0] == ParamKind::UiRef
                    && self.params[1] == ParamKind::TextRef)
                || (n == 2 && self.params[0] == ParamKind::Handle
                    && self.params[1] == ParamKind::Float)
                || (n == 1 && self.params[0] == ParamKind::Handle)
            },
            RetKind::Bool => {
                n == 2 && self.params[0] == ParamKind::UiRef
                    && self.params[1] == ParamKind::TextRef
            },
            RetKind::Float => {
                (n == 5 && self.params[0] == ParamKind::UiRef
                    && self.params[1] == ParamKind::TextRef
                    && self.params[2] == ParamKind::Float
                    && self.params[3] == ParamKind::Float
                    && self.params[4] == ParamKind::Float)
                || (n == 2 && self.params[0] == ParamKind::Handle
                    && self.params[1] == ParamKind::Int)
            },
            RetKind::Handle => n == 0,
            RetKind::TextRef => {
                n == 3 && self.params[0] == ParamKind::BufRef
                    && self.params[1] == ParamKind::TextRef
                    && self.params[2] == ParamKind::Float
            },
        }
    }
}

/// The byte sequence holds a zero somewhere: the shape of text that can be
/// read back from the boundary.
pub open spec fn has_terminator(b: Seq<u8>) -> bool {
    exists|i: int| 0 <= i < b.len() && b[i] == 0
}

/// Encodes host text for the script side of the boundary: the bytes
/// followed by a terminating null. Text holding an interior null cannot
/// cross and is a reported precondition violation, not a truncation.
pub fn encode_text(s: &Vec<u8>) -> (r: Result<Vec<u8>, BoundaryError>)
    ensures
        match r {
            Ok(t) => t@ == s@.push(0u8) && (forall|j: int| 0 <= j < s@.len() ==> s@[j] != 0),
            Err(e) => e == BoundaryError::PreconditionViolation && (exists|j: int|
                0 <= j < s@.len() && s@[j] == 0),
        },
{
    let mut out: Vec<u8> = Vec::new();
    let mut i: usize = 0;
    while i < s.len()
        invariant
            i <= s@.len(),
            out@ == s@.take(i as int),
            forall|j: int| 0 <= j < i ==> s@[j] != 0,
        decreases s@.len() - i,
    {
        let b = s[i];
        if b == 0 {
            return Err(BoundaryError::PreconditionViolation);
        }
        out.push(b);
        proof {
            assert(out@ =~= s@.take(i + 1));
        }
        i = i + 1;
    }
    out.push(0u8);
    proof {
        assert(s@.take(s@.len() as int) =~= s@);
    }
    Ok(out)
}

/// Reads script-visible text back from the boundary: the bytes before the
/// first null. Text without a terminator within the given bytes cannot be
/// read and is a reported precondition violation, never an over-read.
pub fn decode_text(b: &Vec<u8>) -> (r: Result<Vec<u8>, BoundaryError>)
    ensures
        match r {
            Ok(t) => t@.len() < b@.len() && b@[t@.len() as int] == 0 && t@ == b@.take(
                t@.len() as int,
            ) && (forall|j: int| 0 <= j < t@.len() ==> b@[j] != 0),
            Err(e) => e == BoundaryError::PreconditionViolation && !has_terminator(b@),
        },
{
    let mut out: Vec<u8> = Vec::new();
    let mut i: usize = 0;
    while i < b.len()
        invariant
            i <= b@.len(),
            out@ == b@.take(i as int),
            forall|j: int| 0 <= j < i ==> b@[j] != 0,
        decreases b@.len() - i,
    {
        let x = b[i];
        if x == 0 {
            return Ok(out);
        }
        out.push(x);
        proof {
            assert(out@ =~= b@.take(i + 1));
        }
        i = i + 1;
    }
    proof {
        assert(!has_terminator(b@));
    }
    Err(BoundaryError::PreconditionViolation)
}

} // verus!
