//! The glyph table: the fixed, ordered sequence of the 100 characters the
//! device's type wheel offers, and the lookup from a character to its
//! numeric glyph code.
//!
//! A character's glyph code is its 1-based index in the table.  A
//! character that appears in the table more than once takes the later
//! position; a character absent from the table yields the defined
//! fallback code 1, not an error.

use vstd::prelude::*;

verus! {

/// The device's character set, in type-wheel order.
pub open spec fn glyph_seq() -> Seq<char> {
    seq![
        '.', ',', '-', 'v', 'l', 'm', 'j', 'w', '²', 'µ', 'f', '^', '>', '´', '+', '1', '2', '3',
        '4', '5', '6', '7', '8', '9', '0', 'E', '£', 'B', 'F', 'P', 'S', 'Z', 'V', '&', 'Y', 'A',
        'T', 'L', '$', 'R', '*', 'C', '\'', 'D', '?', 'N', 'I', 'U', ')', 'W', '_', '=', ';', ':',
        'M', '\'', 'H', '(', 'K', '/', 'O', '!', 'X', '§', 'Q', 'J', '%', '³', 'G', '°', 'Ü', '`',
        'Ö', '<', 'Ä', '#', 't', 'x', 'q', 'ß', 'ü', 'ö', 'ä', 'y', 'k', 'p', 'h', 'c', 'g', 'n',
        'r', 's', 'e', 'a', 'i', 'd', 'u', 'b', 'o', 'z',
    ]
}

/// The last index at which `c` occurs in `s`, or -1 when it does not.
pub open spec fn last_index_in(s: Seq<char>, c: char) -> int
    decreases s.len(),
{
    if s.len() == 0 {
        -1
    } else if s[s.len() - 1] == c {
        s.len() - 1
    } else {
        last_index_in(s.drop_last(), c)
    }
}

/// The index the glyph table assigns to `c`: its last occurrence, or -1
/// when the table does not offer it.
pub open spec fn glyph_index(c: char) -> int {
    last_index_in(glyph_seq(), c)
}

/// The glyph code of `c`: one more than its index in the table, or the
/// fallback code 1 when the table does not offer it.
pub open spec fn glyph_code_spec(c: char) -> u8 {
    if last_index_in(glyph_seq(), c) >= 0 {
        (last_index_in(glyph_seq(), c) + 1) as u8
    } else {
        1
    }
}

/// `last_index_in` finds an occurrence exactly when one exists, points at
/// one, and nothing later in the sequence matches.
pub proof fn lemma_last_index_in(s: Seq<char>, c: char)
    ensures
        -1 <= last_index_in(s, c) < s.len(),
        last_index_in(s, c) >= 0 <==> s.contains(c),
        last_index_in(s, c) >= 0 ==> s[last_index_in(s, c)] == c,
        forall|j: int| last_index_in(s, c) < j < s.len() ==> s[j] != c,
    decreases s.len(),
{
    if s.len() == 0 {
    } else if s[s.len() - 1] == c {
        assert(s.contains(c));
    } else {
        lemma_last_index_in(s.drop_last(), c);
        assert forall|j: int| last_index_in(s, c) < j < s.len() implies s[j] != c by {
            if j < s.len() - 1 {
                assert(0 <= j < s.drop_last().len());
                assert(s.drop_last()[j] == s[j]);
            }
        }
        if s.contains(c) {
            let i = choose|i: int| 0 <= i < s.len() && s[i] == c;
            assert(s.drop_last()[i] == c);
            assert(s.drop_last().contains(c));
        }
        if s.drop_last().contains(c) {
            let i = choose|i: int| 0 <= i < s.drop_last().len() && s.drop_last()[i] == c;
            assert(s[i] == c);
            assert(s.contains(c));
        }
    }
}

/// The glyph table as owned data, for callers that want to walk it.
pub fn glyph_table() -> (t: Vec<char>)
    ensures
        t@ == glyph_seq(),
{
    let t = vec![
        '.', ',', '-', 'v', 'l', 'm', 'j', 'w', '²', 'µ', 'f', '^', '>', '´', '+', '1', '2', '3',
        '4', '5', '6', '7', '8', '9', '0', 'E', '£', 'B', 'F', 'P', 'S', 'Z', 'V', '&', 'Y', 'A',
        'T', 'L', '$', 'R', '*', 'C', '\'', 'D', '?', 'N', 'I', 'U', ')', 'W', '_', '=', ';', ':',
        'M', '\'', 'H', '(', 'K', '/', 'O', '!', 'X', '§', 'Q', 'J', '%', '³', 'G', '°', 'Ü', '`',
        'Ö', '<', 'Ä', '#', 't', 'x', 'q', 'ß', 'ü', 'ö', 'ä', 'y', 'k', 'p', 'h', 'c', 'g', 'n',
        'r', 's', 'e', 'a', 'i', 'd', 'u', 'b', 'o', 'z',
    ];
    proof {
        assert(t@ =~= glyph_seq());
    }
    t
}

/// Looks a character up in the glyph table: its 1-based index (the later
/// one if it appears twice), or the fallback code 1 when it is absent.
pub fn glyph_code(c: char) -> (r: u8)
    ensures
        r == glyph_code_spec(c),
{
    let t = glyph_table();
    let mut i: usize = t.len();
    proof {
        assert(glyph_seq().take(100) =~= glyph_seq());
    }
    while i > 0
        invariant
            i <= t@.len(),
            t@ == glyph_seq(),
            t@.len() == 100,
            last_index_in(glyph_seq(), c) == last_index_in(glyph_seq().take(i as int), c),
        decreases i,
    {
        if t[i - 1] == c {
            proof {
                let pre = glyph_seq().take(i as int);
                assert(pre[pre.len() - 1] == c);
                assert(last_index_in(pre, c) == i - 1);
            }
            return i as u8;
        }
        proof {
            let pre = glyph_seq().take(i as int);
            assert(pre[pre.len() - 1] != c);
            assert(pre.drop_last() =~= glyph_seq().take(i - 1));
        }
        i = i - 1;
    }
    proof {
        assert(glyph_seq().take(0) =~= Seq::<char>::empty());
    }
    1
}

} // verus!
