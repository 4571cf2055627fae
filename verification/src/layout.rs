//! Viewport arithmetic: how many inbox rows fit in a terminal of a given
//! height.

use vstd::prelude::*;

use crate::strings::push_char;
use vstd::std_specs::iter::IteratorSpec;

verus! {

broadcast use vstd::string::next_postcondition, vstd::string::axiom_spec_iter;

/// The preview text for a summary: the whole text when it has at most
/// `max` characters, else its first `max` characters with an ellipsis
/// appended.
pub fn truncate(s: &str, max: usize) -> (r: String)
    ensures
        s@.len() <= max ==> r@ == s@,
        s@.len() > max ==> r@ == s@.take(max as int).push('…'),
{
    let mut out = String::new();
    let mut count: usize = 0;
    let mut it = s.chars();
    loop
        invariant
            count <= max,
            count <= s@.len(),
            it.remaining() == s@.skip(count as int),
            out@ == s@.take(count as int),
        decreases s@.len() - count,
    {
        match it.next() {
            Some(c) => {
                proof {
                    assert(s@.skip(count as int)[0] == s@[count as int]);
                }
                if count < max {
                    push_char(&mut out, c);
                    proof {
                        assert(s@.skip(count as int).drop_first() =~= s@.skip(count as int + 1));
                        assert(s@.take(count as int).push(c) =~= s@.take(count as int + 1));
                    }
                    count += 1;
                } else {
                    push_char(&mut out, '…');
                    return out;
                }
            },
            None => {
                proof {
                    assert(s@.skip(count as int).len() == 0);
                    assert(s@.take(count as int) =~= s@);
                }
                return out;
            },
        }
    }
}

/// Number of article rows the inbox pane can show in a terminal of
/// `term_height` rows: one top bar and one status bar are taken off, the
/// inbox pane gets 75% of what is left, and its two border rows are taken
/// off that. A terminal too small for any content row yields 0.
pub fn inbox_page_size(term_height: u16) -> (page: usize)
    ensures
        term_height < 4 ==> page == 0,
        term_height >= 4 ==> page as int == vstd::math::max(
            (term_height - 2) * 75 / 100 - 2,
            0,
        ),
{
    if term_height < 4 {
        return 0;
    }
    let main: usize = term_height as usize - 2;
    let inbox: usize = (main * 75) / 100;
    if inbox >= 2 {
        inbox - 2
    } else {
        0
    }
}

} // verus!
