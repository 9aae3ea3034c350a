//! Formatted text for the boundary, with an explicit capacity contract.
//!
//! A script-invoked formatting call hands the host a template, a rendered
//! value and the capacity of the buffer the script allocated. The host
//! substitutes the value for the first `{}` placeholder and writes the
//! bytes plus a terminating null — but only when they fit: output that
//! would exceed the declared capacity is a reported capacity overflow,
//! never a silent write past the buffer.

use vstd::prelude::*;

use crate::errors::BoundaryError;

verus! {

/// The opening placeholder byte `{`.
pub const PLACEHOLDER_OPEN: u8 = 0x7b;

/// The closing placeholder byte `}`.
pub const PLACEHOLDER_CLOSE: u8 = 0x7d;

/// The template with its first `{}` placeholder replaced by `v`; a
/// template without a placeholder stands as it is.
pub open spec fn substituted(t: Seq<u8>, v: Seq<u8>) -> Seq<u8>
    decreases t.len(),
{
    if t.len() >= 2 && t[0] == 0x7bu8 && t[1] == 0x7du8 {
        v + t.skip(2)
    } else if t.len() == 0 {
        t
    } else {
        seq![t[0]] + substituted(t.skip(1), v)
    }
}

/// Substitution at the first placeholder, located at `p`: the prefix, the
/// value, then everything after the placeholder.
proof fn lemma_substituted_at(t: Seq<u8>, v: Seq<u8>, p: int)
    requires
        0 <= p,
        p + 2 <= t.len(),
        t[p] == 0x7bu8,
        t[p + 1] == 0x7du8,
        forall|j: int| 0 <= j < p ==> !((#[trigger] t[j]) == 0x7bu8 && t[j + 1] == 0x7du8),
    ensures
        substituted(t, v) == t.take(p) + v + t.skip(p + 2),
    decreases p,
{
    if p == 0 {
        assert(substituted(t, v) == v + t.skip(2));
        assert(t.take(0) + v + t.skip(2) =~= v + t.skip(2));
    } else {
        let tk = t.skip(1);
        assert(!(t[0] == 0x7bu8 && t[1] == 0x7du8));
        assert forall|j: int| 0 <= j < p - 1 implies !((#[trigger] tk[j]) == 0x7bu8 && tk[j + 1]
            == 0x7du8) by {
            assert(tk[j] == t[j + 1]);
            assert(tk[j + 1] == t[j + 2]);
        }
        assert(tk[p - 1] == t[p]);
        assert(tk[p] == t[p + 1]);
        lemma_substituted_at(tk, v, p - 1);
        assert(substituted(t, v) == seq![t[0]] + substituted(tk, v));
        assert(seq![t[0]] + (tk.take(p - 1) + v + tk.skip(p + 1)) =~= t.take(p) + v + t.skip(
            p + 2,
        ));
    }
}

/// A template with no placeholder anywhere substitutes to itself.
proof fn lemma_substituted_none(t: Seq<u8>, v: Seq<u8>)
    requires
        forall|j: int| 0 <= j && j + 1 < t.len() ==> !((#[trigger] t[j]) == 0x7bu8 && t[j + 1]
            == 0x7du8),
    ensures
        substituted(t, v) == t,
    decreases t.len(),
{
    if t.len() > 0 {
        let tk = t.skip(1);
        if t.len() >= 2 {
            assert(!(t[0] == 0x7bu8 && t[1] == 0x7du8));
        }
        assert forall|j: int| 0 <= j && j + 1 < tk.len() implies !((#[trigger] tk[j]) == 0x7bu8
            && tk[j + 1] == 0x7du8) by {
            assert(tk[j] == t[j + 1]);
            assert(tk[j + 1] == t[j + 2]);
        }
        lemma_substituted_none(tk, v);
        assert(seq![t[0]] + tk =~= t);
    }
}

/// Formats one value into a fresh buffer bound by the capacity the caller
/// declared for it: the first `{}` of the template is replaced by the
/// rendered value, and a terminating null follows the bytes. Output that
/// would not fit — terminator included — is a reported capacity overflow
/// and nothing is produced.
pub fn format_text(template: &Vec<u8>, value_text: &Vec<u8>, capacity: usize) -> (r: Result<
    Vec<u8>,
    BoundaryError,
>)
    requires
        template@.len() + value_text@.len() < usize::MAX,
    ensures
        r is Ok <==> substituted(template@, value_text@).len() + 1 <= capacity,
        match r {
            Ok(out) => out@ == substituted(template@, value_text@).push(0u8) && out@.len()
                <= capacity,
            Err(e) => e == BoundaryError::CapacityOverflow,
        },
{
    let n = template.len();
    let mut found = false;
    let mut p: usize = 0;
    let mut i: usize = 0;
    while n >= 1 && i < n - 1
        invariant
            n == template@.len(),
            i <= n,
            !found ==> forall|j: int| 0 <= j < i ==> !((#[trigger] template@[j]) == 0x7bu8
                && template@[j + 1] == 0x7du8),
            found ==> p + 2 <= n && template@[p as int] == 0x7bu8 && template@[p + 1] == 0x7du8
                && (forall|j: int| 0 <= j < p ==> !((#[trigger] template@[j]) == 0x7bu8
                && template@[j + 1] == 0x7du8)),
        decreases n - i,
    {
        if !found && template[i] == PLACEHOLDER_OPEN && template[i + 1] == PLACEHOLDER_CLOSE {
            found = true;
            p = i;
        }
        i = i + 1;
    }
    let mut out: Vec<u8> = Vec::new();
    if found {
        let mut k: usize = 0;
        while k < p
            invariant
                found,
                n == template@.len(),
                p + 2 <= n,
                k <= p,
                out@ == template@.take(k as int),
            decreases p - k,
        {
            out.push(template[k]);
            proof {
                assert(out@ =~= template@.take(k + 1));
            }
            k = k + 1;
        }
        let mut j: usize = 0;
        while j < value_text.len()
            invariant
                n == template@.len(),
                p + 2 <= n,
                j <= value_text@.len(),
                out@ == template@.take(p as int) + value_text@.take(j as int),
            decreases value_text@.len() - j,
        {
            out.push(value_text[j]);
            proof {
                assert(out@ =~= template@.take(p as int) + value_text@.take(j + 1));
            }
            j = j + 1;
        }
        proof {
            assert(value_text@.take(value_text@.len() as int) =~= value_text@);
        }
        let mut k2: usize = p + 2;
        while k2 < n
            invariant
                n == template@.len(),
                p + 2 <= k2 <= n,
                out@ == template@.take(p as int) + value_text@ + template@.subrange(
                    p + 2,
                    k2 as int,
                ),
            decreases n - k2,
        {
            out.push(template[k2]);
            proof {
                assert(out@ =~= template@.take(p as int) + value_text@ + template@.subrange(
                    p + 2,
                    k2 + 1,
                ));
            }
            k2 = k2 + 1;
        }
        proof {
            assert(template@.subrange(p + 2, n as int) =~= template@.skip(p + 2));
            lemma_substituted_at(template@, value_text@, p as int);
        }
    } else {
        let mut k: usize = 0;
        while k < n
            invariant
                n == template@.len(),
                k <= n,
                out@ == template@.take(k as int),
            decreases n - k,
        {
            out.push(template[k]);
            proof {
                assert(out@ =~= template@.take(k + 1));
            }
            k = k + 1;
        }
        proof {
            assert(template@.take(n as int) =~= template@);
            lemma_substituted_none(template@, value_text@);
        }
    }
    if out.len() < capacity {
        out.push(0u8);
        Ok(out)
    } else {
        Err(BoundaryError::CapacityOverflow)
    }
}

} // verus!
