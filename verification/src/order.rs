//! Lexicographic order on character sequences, by scalar value, with a
//! three-way exec comparison.

use vstd::prelude::*;
use vstd::string::*;
use vstd::utf8::char_u32_cast;

verus! {

/// Strict lexicographic order: a proper prefix comes first, otherwise the
/// first differing character decides by scalar value.
pub open spec fn chars_lt(a: Seq<char>, b: Seq<char>) -> bool
    decreases a.len(),
{
    if b.len() == 0 {
        false
    } else if a.len() == 0 {
        true
    } else if (a[0] as u32) < (b[0] as u32) {
        true
    } else if (a[0] as u32) > (b[0] as u32) {
        false
    } else {
        chars_lt(a.drop_first(), b.drop_first())
    }
}

/// The order never relates a sequence to itself.
pub proof fn lemma_chars_lt_irreflexive(a: Seq<char>)
    ensures
        !chars_lt(a, a),
    decreases a.len(),
{
    if a.len() > 0 {
        lemma_chars_lt_irreflexive(a.drop_first());
    }
}

/// The order is transitive.
pub proof fn lemma_chars_lt_transitive(a: Seq<char>, b: Seq<char>, c: Seq<char>)
    requires
        chars_lt(a, b),
        chars_lt(b, c),
    ensures
        chars_lt(a, c),
    decreases a.len() + b.len() + c.len(),
{
    if a.len() == 0 {
    } else {
        // b and c are non-empty, else the hypotheses fail
        if (a[0] as u32) < (b[0] as u32) {
            if (b[0] as u32) < (c[0] as u32) {
            } else {
                assert((b[0] as u32) == (c[0] as u32));
            }
        } else {
            assert((a[0] as u32) == (b[0] as u32));
            if (b[0] as u32) < (c[0] as u32) {
            } else {
                assert((b[0] as u32) == (c[0] as u32));
                lemma_chars_lt_transitive(a.drop_first(), b.drop_first(), c.drop_first());
            }
        }
    }
}

proof fn lemma_chars_lt_skip(a: Seq<char>, b: Seq<char>, i: int)
    requires
        0 <= i <= a.len(),
        i <= b.len(),
        forall|j: int| 0 <= j < i ==> a[j] == b[j],
    ensures
        chars_lt(a, b) == chars_lt(a.skip(i), b.skip(i)),
    decreases i,
{
    if i > 0 {
        assert(a.len() > 0 && b.len() > 0);
        assert(a[0] == b[0]);
        assert(forall|j: int| 0 <= j < i - 1 ==> a.drop_first()[j] == b.drop_first()[j]);
        lemma_chars_lt_skip(a.drop_first(), b.drop_first(), i - 1);
        assert(a.drop_first().skip(i - 1) =~= a.skip(i));
        assert(b.drop_first().skip(i - 1) =~= b.skip(i));
    } else {
        assert(a.skip(0) =~= a);
        assert(b.skip(0) =~= b);
    }
}

/// Three-way comparison result.
#[derive(Clone, Copy, Debug, PartialEq, Eq, Structural)]
pub enum CmpResult {
    Less,
    Equal,
    Greater,
}

/// Compare two strings in the lexicographic order of their characters.
pub fn str_compare(a: &str, b: &str) -> (r: CmpResult)
    ensures
        (r == CmpResult::Less) == chars_lt(a@, b@),
        (r == CmpResult::Equal) == (a@ == b@),
        (r == CmpResult::Greater) == chars_lt(b@, a@),
{
    let an = a.unicode_len();
    let bn = b.unicode_len();
    let min: usize = if an < bn {
        an
    } else {
        bn
    };
    let mut i: usize = 0;
    while i < min
        invariant
            an == a@.len(),
            bn == b@.len(),
            min == if an < bn {
                an
            } else {
                bn
            },
            i <= min,
            forall|j: int| 0 <= j < i ==> a@[j] == b@[j],
        decreases min - i,
    {
        let ca = a.get_char(i);
        let cb = b.get_char(i);
        let ua = ca as u32;
        let ub = cb as u32;
        if ua < ub {
            proof {
                lemma_chars_lt_skip(a@, b@, i as int);
                lemma_chars_lt_skip(b@, a@, i as int);
                if a@ == b@ {
                    assert(a@[i as int] == b@[i as int]);
                }
            }
            return CmpResult::Less;
        }
        if ua > ub {
            proof {
                lemma_chars_lt_skip(a@, b@, i as int);
                lemma_chars_lt_skip(b@, a@, i as int);
                if a@ == b@ {
                    assert(a@[i as int] == b@[i as int]);
                }
            }
            return CmpResult::Greater;
        }
        proof {
            char_u32_cast(ca, ua);
            char_u32_cast(cb, ub);
        }
        i = i + 1;
    }
    proof {
        lemma_chars_lt_skip(a@, b@, min as int);
        lemma_chars_lt_skip(b@, a@, min as int);
    }
    if an == bn {
        proof {
            assert(a@ =~= b@);
            assert(a@.skip(min as int).len() == 0);
        }
        CmpResult::Equal
    } else if an < bn {
        proof {
            assert(a@.skip(min as int).len() == 0);
            assert(b@.skip(min as int).len() > 0);
            if a@ == b@ {
                assert(a@.len() == b@.len());
            }
        }
        CmpResult::Less
    } else {
        proof {
            assert(b@.skip(min as int).len() == 0);
            assert(a@.skip(min as int).len() > 0);
            if a@ == b@ {
                assert(a@.len() == b@.len());
            }
        }
        CmpResult::Greater
    }
}

} // verus!
