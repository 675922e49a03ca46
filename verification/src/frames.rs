//! Frame handling: one transport message may carry several JSON
//! documents back to back, each closed by the terminator character.

use vstd::prelude::*;

use crate::TERMINATOR;
use crate::text::{chars_to_string, str_to_chars};

verus! {

/// The position of the first terminator in `s`, or `s.len()` if there is
/// none.
pub open spec fn first_term(s: Seq<char>) -> int
    decreases s.len(),
{
    if s.len() == 0 {
        0
    } else if s[0] == TERMINATOR {
        0
    } else {
        1 + first_term(s.drop_first())
    }
}

/// `first_term` finds the first terminator: nothing before it is one,
/// and it is one unless the text has none at all.
pub proof fn lemma_first_term(s: Seq<char>)
    ensures
        0 <= first_term(s) <= s.len(),
        forall|j: int| 0 <= j < first_term(s) ==> s[j] != TERMINATOR,
        first_term(s) < s.len() ==> s[first_term(s)] == TERMINATOR,
    decreases s.len(),
{
    if s.len() > 0 && s[0] != TERMINATOR {
        lemma_first_term(s.drop_first());
        assert forall|j: int| 0 <= j < first_term(s) implies s[j] != TERMINATOR by {
            if j > 0 {
                assert(s.drop_first()[j - 1] == s[j]);
            }
        }
    }
}

/// A position that is no terminator up to `k`, and a terminator at `k`
/// or the end, is exactly `first_term`.
pub proof fn lemma_first_term_at(s: Seq<char>, k: int)
    requires
        0 <= k <= s.len(),
        forall|j: int| 0 <= j < k ==> s[j] != TERMINATOR,
        k < s.len() ==> s[k] == TERMINATOR,
    ensures
        first_term(s) == k,
    decreases s.len(),
{
    if s.len() > 0 && k > 0 {
        assert forall|j: int| 0 <= j < k - 1 implies s.drop_first()[j] != TERMINATOR by {
            assert(s.drop_first()[j] == s[j + 1]);
        }
        assert(k - 1 < s.drop_first().len() ==> s.drop_first()[k - 1] == s[k]);
        lemma_first_term_at(s.drop_first(), k - 1);
    }
}

/// The terminator-splitting of a transport message's text: every
/// terminator closes a frame, and text after the last terminator forms a
/// final frame, so a trailing terminator yields no empty frame.
pub open spec fn split_frames(s: Seq<char>) -> Seq<Seq<char>>
    decreases s.len(),
    via split_frames_dec
{
    if s.len() == 0 {
        Seq::empty()
    } else {
        let i = first_term(s);
        if i == s.len() {
            seq![s]
        } else {
            seq![s.take(i)] + split_frames(s.skip(i + 1))
        }
    }
}

#[via_fn]
proof fn split_frames_dec(s: Seq<char>) {
    lemma_first_term(s);
}

/// The concatenation of `docs`, each closed by one terminator.
pub open spec fn join_terminated(docs: Seq<Seq<char>>) -> Seq<char>
    decreases docs.len(),
{
    if docs.len() == 0 {
        Seq::empty()
    } else {
        docs[0] + seq![TERMINATOR] + join_terminated(docs.drop_first())
    }
}

/// Frame splitting: a transport message made of any number of
/// terminator-closed documents, none containing the terminator, splits
/// back into exactly those documents, in order.
pub proof fn lemma_frame_splitting(docs: Seq<Seq<char>>)
    requires
        forall|i: int| 0 <= i < docs.len() ==> !(#[trigger] docs[i]).contains(TERMINATOR),
    ensures
        split_frames(join_terminated(docs)) == docs,
    decreases docs.len(),
{
    if docs.len() == 0 {
    } else {
        let s = join_terminated(docs);
        let d0 = docs[0];
        let rest = join_terminated(docs.drop_first());
        assert(s == d0 + seq![TERMINATOR] + rest);
        assert(s.len() == d0.len() + 1 + rest.len());
        assert forall|j: int| 0 <= j < d0.len() implies s[j] != TERMINATOR by {
            assert(s[j] == d0[j]);
            assert(!d0.contains(TERMINATOR));
            assert(d0[j] != TERMINATOR);
        }
        assert(s[d0.len() as int] == TERMINATOR);
        lemma_first_term_at(s, d0.len() as int);
        assert(s.take(d0.len() as int) =~= d0);
        assert(s.skip(d0.len() as int + 1) =~= rest);
        lemma_frame_splitting(docs.drop_first());
        assert(split_frames(s) == seq![d0] + docs.drop_first());
        assert(seq![d0] + docs.drop_first() =~= docs);
    }
}

/// One terminator-closed document splits back to exactly that document:
/// the shape of every frame the library emits.
pub proof fn lemma_single_frame(doc: Seq<char>)
    requires
        !doc.contains(TERMINATOR),
    ensures
        split_frames(doc + seq![TERMINATOR]) == seq![doc],
{
    lemma_frame_splitting(seq![doc]);
    reveal_with_fuel(join_terminated, 2);
    assert(seq![doc].drop_first() =~= Seq::<Seq<char>>::empty());
    assert(join_terminated(seq![doc]) =~= doc + seq![TERMINATOR]);
}

/// Splits the characters of `s` from position `from` on, as
/// [`split_frames`] says.
fn split_chars(s: &Vec<char>, from: usize) -> (r: Vec<String>)
    requires
        from <= s.len(),
    ensures
        r.deep_view() == split_frames(s@.skip(from as int)),
    decreases s.len() - from,
{
    let ghost tail = s@.skip(from as int);
    if from == s.len() {
        let r: Vec<String> = Vec::new();
        proof {
            assert(tail.len() == 0);
            assert(r.deep_view() =~= Seq::<Seq<char>>::empty());
        }
        return r;
    }
    let mut j = from;
    while j < s.len() && s[j] != TERMINATOR
        invariant
            from <= j <= s.len(),
            forall|k: int| from <= k < j ==> s@[k] != TERMINATOR,
        decreases s.len() - j,
    {
        j += 1;
    }
    proof {
        assert forall|k: int| 0 <= k < j - from implies tail[k] != TERMINATOR by {
            assert(tail[k] == s@[from + k]);
        }
        if j < s.len() {
            assert(tail[j - from] == s@[j as int]);
        }
        lemma_first_term_at(tail, j - from);
    }
    let mut frame_chars: Vec<char> = Vec::new();
    let mut k = from;
    while k < j
        invariant
            from <= k <= j <= s.len(),
            frame_chars@ == s@.subrange(from as int, k as int),
        decreases j - k,
    {
        frame_chars.push(s[k]);
        proof {
            assert(s@.subrange(from as int, k as int) + seq![s@[k as int]] =~= s@.subrange(
                from as int,
                k + 1,
            ));
        }
        k += 1;
    }
    let frame = chars_to_string(&frame_chars);
    proof {
        assert(frame@ =~= tail.take(j - from));
    }
    if j == s.len() {
        let mut r: Vec<String> = Vec::new();
        r.push(frame);
        proof {
            assert(tail.take(j - from) =~= tail);
            assert(r.deep_view() =~= seq![tail]);
        }
        r
    } else {
        let mut rest = split_chars(s, j + 1);
        let ghost rest0 = rest@;
        let ghost rest_dv = rest.deep_view();
        let mut r: Vec<String> = Vec::new();
        r.push(frame);
        r.append(&mut rest);
        proof {
            assert(tail.skip((j - from) + 1) =~= s@.skip(j + 1));
            assert(r@ =~= seq![frame] + rest0);
            assert forall|t: int| 0 <= t < r@.len() implies r.deep_view()[t] == (seq![tail.take(
                j - from,
            )] + rest_dv)[t] by {
                if t == 0 {
                    assert(r@[0] == frame);
                } else {
                    assert(r@[t] == rest0[t - 1]);
                    assert(rest_dv[t - 1] == rest0[t - 1]@);
                }
            }
            assert(r.deep_view() =~= seq![tail.take(j - from)] + rest_dv);
            assert(split_frames(tail) == seq![tail.take(j - from)] + split_frames(
                tail.skip((j - from) + 1),
            ));
        }
        r
    }
}

/// Splits one transport message into its frames: every terminator closes
/// a frame, a trailing terminator yields no empty frame, and the frames
/// come back in their original order.
pub fn decode_frames(s: &str) -> (r: Vec<String>)
    ensures
        r.deep_view() == split_frames(s@),
{
    let chars = str_to_chars(s);
    let r = split_chars(&chars, 0);
    proof {
        assert(chars@.skip(0) =~= chars@);
    }
    r
}

} // verus!
