//! Small verified text utilities shared by the tokenizer, the error-message
//! splitter and the help renderer.

use vstd::prelude::*;

verus! {

/// Relies on `String: FromIterator<char>` (`collect`): the collected string
/// holds exactly the characters of the iterator, in order.
#[verifier::external_body]
pub fn chars_to_string(cs: &Vec<char>) -> (r: String)
    ensures
        r@ == cs@,
{
    cs.iter().collect()
}

/// One display line of `cur`, as it is emitted when a line feed is reached:
/// a carriage return immediately before the line feed is not part of the line.
pub open spec fn strip_cr(cur: Seq<char>) -> Seq<char> {
    if cur.len() > 0 && cur.last() == '\r' {
        cur.drop_last()
    } else {
        cur
    }
}

/// The display lines of `s`, starting with `cur` characters already read:
/// lines are separated by line feeds, a carriage return before a separating
/// line feed is dropped, and a trailing line feed ends the last line rather
/// than opening an empty one.
pub open spec fn split_lines_from(cur: Seq<char>, s: Seq<char>) -> Seq<Seq<char>>
    decreases s.len(),
{
    if s.len() == 0 {
        if cur.len() == 0 {
            Seq::empty()
        } else {
            seq![cur]
        }
    } else if s[0] == '\n' {
        seq![strip_cr(cur)] + split_lines_from(Seq::empty(), s.drop_first())
    } else {
        split_lines_from(cur.push(s[0]), s.drop_first())
    }
}

/// The display lines of a rendered text.
pub open spec fn spec_split_lines(s: Seq<char>) -> Seq<Seq<char>> {
    split_lines_from(Seq::empty(), s)
}

/// Splits a rendered text into one string per display line.
pub fn split_lines(text: &str) -> (r: Vec<String>)
    ensures
        r.deep_view() == spec_split_lines(text@),
{
    let n = text.unicode_len();
    let mut cur: Vec<char> = Vec::new();
    let mut out: Vec<String> = Vec::new();
    let mut i: usize = 0;
    proof {
        assert(text@.skip(0) =~= text@);
        assert(out.deep_view() =~= Seq::<Seq<char>>::empty());
        assert(out.deep_view() + split_lines_from(cur@, text@.skip(0)) =~= spec_split_lines(
            text@,
        ));
    }
    while i < n
        invariant
            n == text@.len(),
            i <= n,
            spec_split_lines(text@) == out.deep_view() + split_lines_from(
                cur@,
                text@.skip(i as int),
            ),
        decreases n - i,
    {
        let ghost prev_out = out.deep_view();
        let ghost prev_cur = cur@;
        let ghost s = text@.skip(i as int);
        let c = text.get_char(i);
        proof {
            assert(s[0] == c);
            assert(s.drop_first() =~= text@.skip(i as int + 1));
        }
        if c == '\n' {
            if cur.len() > 0 && cur[cur.len() - 1] == '\r' {
                cur.pop();
            }
            assert(cur@ == strip_cr(prev_cur));
            out.push(chars_to_string(&cur));
            cur.clear();
            proof {
                assert(out.deep_view() =~= prev_out.push(strip_cr(prev_cur)));
                assert(prev_out + split_lines_from(prev_cur, s) =~= out.deep_view()
                    + split_lines_from(Seq::empty(), text@.skip(i as int + 1)));
            }
        } else {
            cur.push(c);
            assert(cur@ == prev_cur.push(c));
        }
        i = i + 1;
    }
    assert(text@.skip(n as int) =~= Seq::<char>::empty());
    if cur.len() > 0 {
        let ghost prev_out = out.deep_view();
        out.push(chars_to_string(&cur));
        proof {
            assert(out.deep_view() =~= prev_out.push(cur@));
        }
    }
    out
}

/// A run of `n` spaces.
pub open spec fn spec_spaces(n: nat) -> Seq<char> {
    Seq::new(n, |i: int| ' ')
}

/// Builds a string of `n` spaces.
pub fn spaces(n: usize) -> (r: String)
    ensures
        r@ == spec_spaces(n as nat),
{
    let mut cs: Vec<char> = Vec::new();
    let mut i: usize = 0;
    while i < n
        invariant
            i <= n,
            cs@ =~= spec_spaces(i as nat),
        decreases n - i,
    {
        cs.push(' ');
        i = i + 1;
        assert(cs@ =~= spec_spaces(i as nat));
    }
    chars_to_string(&cs)
}

} // verus!
