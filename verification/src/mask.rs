//! The masking character filter.
//!
//! Masking a text replaces every character by `'*'`, except line breaks,
//! which pass through unchanged. Lengths, line counts and line lengths are
//! therefore preserved exactly.

use vstd::prelude::*;

verus! {

/// What one character masks to: a line break stays, anything else becomes `'*'`.
pub open spec fn mask_char_s(c: char) -> char {
    if c == '\n' {
        '\n'
    } else {
        '*'
    }
}

/// What a whole text masks to, character by character.
pub open spec fn mask_text_s(s: Seq<char>) -> Seq<char> {
    s.map_values(|c: char| mask_char_s(c))
}

/// Mask one character.
pub fn mask_char(c: char) -> (r: char)
    ensures
        r == mask_char_s(c),
{
    if c == '\n' {
        '\n'
    } else {
        '*'
    }
}

/// Mask a whole text: the result has the same length, with every character
/// other than a line break replaced by the mask character.
pub fn mask_str(s: &str) -> (r: String)
    ensures
        r@ == mask_text_s(s@),
{
    let n: usize = s.unicode_len();
    let mut out = String::new();
    let mut i: usize = 0;
    while i < n
        invariant
            n == s@.len(),
            i <= n,
            out@.len() == i,
            forall|j: int| 0 <= j < i ==> out@[j] == mask_char_s(s@[j]),
        decreases n - i,
    {
        let c = s.get_char(i);
        proof {
            reveal_strlit("\n");
            reveal_strlit("*");
        }
        if c == '\n' {
            out.append("\n");
        } else {
            out.append("*");
        }
        i = i + 1;
    }
    proof {
        assert(out@ =~= mask_text_s(s@));
    }
    out
}

/// A masking text sink: characters written to it are collected with every
/// character other than a line break replaced by the mask character.
///
/// At render time a hidden field's normal rendering is driven through such a
/// sink, so the field's text comes out fully masked while its line structure
/// survives.
pub struct HiddenWriter {
    out: String,
}

impl HiddenWriter {
    /// The text collected so far (already masked).
    pub closed spec fn written(&self) -> Seq<char> {
        self.out@
    }

    /// A fresh sink with nothing written yet.
    pub fn new() -> (r: HiddenWriter)
        ensures
            r.written() == Seq::<char>::empty(),
    {
        HiddenWriter { out: String::new() }
    }

    /// Accept one character: a line break is kept, anything else is masked.
    pub fn write_char(&mut self, c: char)
        ensures
            final(self).written() == old(self).written().push(mask_char_s(c)),
    {
        proof {
            reveal_strlit("\n");
            reveal_strlit("*");
        }
        if c == '\n' {
            self.out.append("\n");
        } else {
            self.out.append("*");
        }
        proof {
            assert(self.written() =~= old(self).written().push(mask_char_s(c)));
        }
    }

    /// Accept a whole text, masking it character by character.
    pub fn write_str(&mut self, s: &str)
        ensures
            final(self).written() == old(self).written() + mask_text_s(s@),
    {
        let n: usize = s.unicode_len();
        let mut i: usize = 0;
        while i < n
            invariant
                n == s@.len(),
                i <= n,
                self.written().len() == old(self).written().len() + i,
                forall|j: int|
                    0 <= j < old(self).written().len() ==> self.written()[j] == old(
                        self,
                    ).written()[j],
                forall|j: int|
                    0 <= j < i ==> self.written()[old(self).written().len() + j] == mask_char_s(
                        s@[j],
                    ),
            decreases n - i,
        {
            let c = s.get_char(i);
            self.write_char(c);
            i = i + 1;
        }
        proof {
            assert(self.written() =~= old(self).written() + mask_text_s(s@));
        }
    }

    /// Hand the collected, masked text out.
    pub fn into_output(self) -> (r: String)
        ensures
            r@ == self.written(),
    {
        self.out
    }
}

/// No leakage: a masked text consists of mask characters and line breaks
/// alone, so no character of the original survives — except one that happened
/// to equal the mask character or a line break in the first place.
pub proof fn lemma_no_leakage(s: Seq<char>)
    ensures
        forall|i: int|
            0 <= i < mask_text_s(s).len() ==> mask_text_s(s)[i] == '*' || mask_text_s(s)[i]
                == '\n',
{
}

/// Line structure is preserved exactly: a masked text has the same length as
/// the original and a line break in exactly the original's positions.
pub proof fn lemma_mask_preserves_line_structure(s: Seq<char>)
    ensures
        mask_text_s(s).len() == s.len(),
        forall|i: int| 0 <= i < s.len() ==> ((mask_text_s(s)[i] == '\n') <==> (s[i] == '\n')),
{
}

/// The lines of a text: the segments between line breaks, in order. A text
/// with no break is one line; every break ends a line and starts the next.
pub open spec fn split_lines(s: Seq<char>) -> Seq<Seq<char>>
    decreases s.len(),
{
    if s.len() == 0 {
        seq![Seq::<char>::empty()]
    } else if s[0] == '\n' {
        seq![Seq::<char>::empty()] + split_lines(s.drop_first())
    } else {
        let rest = split_lines(s.drop_first());
        seq![seq![s[0]] + rest[0]] + rest.drop_first()
    }
}

/// A text always has at least one line.
pub proof fn lemma_split_lines_nonempty(s: Seq<char>)
    ensures
        split_lines(s).len() >= 1,
    decreases s.len(),
{
    if s.len() > 0 {
        lemma_split_lines_nonempty(s.drop_first());
    }
}

/// The masking length invariant, line by line: a text of `L` lines masks to a
/// text of the same `L` lines, each with the same character count as the
/// corresponding original line, and every character of every masked line is
/// the mask character.
pub proof fn lemma_mask_lines(s: Seq<char>)
    ensures
        split_lines(mask_text_s(s)).len() == split_lines(s).len(),
        forall|i: int|
            0 <= i < split_lines(s).len() ==> (#[trigger] split_lines(mask_text_s(s))[i]).len()
                == split_lines(s)[i].len(),
        forall|i: int, j: int|
            0 <= i < split_lines(s).len() && 0 <= j < split_lines(mask_text_s(s))[i].len()
                ==> #[trigger] split_lines(mask_text_s(s))[i][j] == '*',
    decreases s.len(),
{
    let m = mask_text_s(s);
    if s.len() == 0 {
        assert(m =~= Seq::<char>::empty());
    } else {
        lemma_mask_lines(s.drop_first());
        lemma_split_lines_nonempty(s.drop_first());
        let tail = s.drop_first();
        let mtail = mask_text_s(tail);
        assert(m.drop_first() =~= mtail);
        assert(m.len() == s.len());
        assert(m[0] == mask_char_s(s[0]));
        if s[0] == '\n' {
            assert(split_lines(s) == seq![Seq::<char>::empty()] + split_lines(tail));
            assert(split_lines(m) == seq![Seq::<char>::empty()] + split_lines(mtail));
            assert forall|i: int| 0 <= i < split_lines(s).len() implies (
            #[trigger] split_lines(m)[i]).len() == split_lines(s)[i].len() by {
                if i > 0 {
                    assert(split_lines(m)[i] == split_lines(mtail)[i - 1]);
                    assert(split_lines(s)[i] == split_lines(tail)[i - 1]);
                }
            }
            assert forall|i: int, j: int|
                0 <= i < split_lines(s).len() && 0 <= j < split_lines(m)[i].len()
                implies #[trigger] split_lines(m)[i][j] == '*' by {
                if i > 0 {
                    assert(split_lines(m)[i] == split_lines(mtail)[i - 1]);
                }
            }
        } else {
            let rest = split_lines(tail);
            let mrest = split_lines(mtail);
            assert(split_lines(s) == seq![seq![s[0]] + rest[0]] + rest.drop_first());
            assert(split_lines(m) == seq![seq![m[0]] + mrest[0]] + mrest.drop_first());
            assert forall|i: int| 0 <= i < split_lines(s).len() implies (
            #[trigger] split_lines(m)[i]).len() == split_lines(s)[i].len() by {
                if i == 0 {
                    assert(split_lines(m)[0] == seq![m[0]] + mrest[0]);
                    assert(split_lines(s)[0] == seq![s[0]] + rest[0]);
                } else {
                    assert(split_lines(m)[i] == mrest.drop_first()[i - 1]);
                    assert(split_lines(s)[i] == rest.drop_first()[i - 1]);
                    assert(mrest.drop_first()[i - 1] == mrest[i]);
                    assert(rest.drop_first()[i - 1] == rest[i]);
                }
            }
            assert forall|i: int, j: int|
                0 <= i < split_lines(s).len() && 0 <= j < split_lines(m)[i].len()
                implies #[trigger] split_lines(m)[i][j] == '*' by {
                if i == 0 {
                    assert(split_lines(m)[0] == seq![m[0]] + mrest[0]);
                    assert(m[0] == '*');
                    if j > 0 {
                        assert(split_lines(m)[0][j] == mrest[0][j - 1]);
                    }
                } else {
                    assert(split_lines(m)[i] == mrest.drop_first()[i - 1]);
                    assert(mrest.drop_first()[i - 1] == mrest[i]);
                }
            }
        }
    }
}

} // verus!
