//! Text helpers shared by the sampler, the judge prompt and the ledger:
//! trimming, splitting into lines, joining lines and decimal rendering.

use vstd::prelude::*;
use vstd::string::*;

verus! {

/// Whether `c` has the Unicode `White_Space` property: tab, line feed,
/// vertical tab, form feed, carriage return, space, next line, no-break
/// space, ogham space mark, the spaces from en quad to hair space, line and
/// paragraph separators, narrow no-break space, medium mathematical space
/// and ideographic space.
pub open spec fn white_space(c: char) -> bool {
    let v = c as u32;
    (0x9 <= v <= 0xD) || v == 0x20 || v == 0x85 || v == 0xA0 || v == 0x1680
        || (0x2000 <= v <= 0x200A) || v == 0x2028 || v == 0x2029 || v == 0x202F
        || v == 0x205F || v == 0x3000
}

/// Relies on `char::is_whitespace`: true exactly for the characters with the
/// Unicode `White_Space` property, which `white_space` lists.
#[verifier::external_body]
fn is_space(c: char) -> (r: bool)
    ensures
        r == white_space(c),
{
    c.is_whitespace()
}

/// `s` without its leading white space.
pub open spec fn trim_start(s: Seq<char>) -> Seq<char>
    decreases s.len(),
{
    if s.len() > 0 && white_space(s[0]) {
        trim_start(s.drop_first())
    } else {
        s
    }
}

/// `s` without its trailing white space.
pub open spec fn trim_end(s: Seq<char>) -> Seq<char>
    decreases s.len(),
{
    if s.len() > 0 && white_space(s.last()) {
        trim_end(s.drop_last())
    } else {
        s
    }
}

/// `s` without leading or trailing white space.
pub open spec fn trimmed(s: Seq<char>) -> Seq<char> {
    trim_end(trim_start(s))
}

/// The characters of `s`, in order.
pub fn chars_of(s: &str) -> (r: Vec<char>)
    ensures
        r@ == s@,
{
    let mut r: Vec<char> = Vec::new();
    for c in it: s.chars()
        invariant
            r@ == it.seq().take(it.index() as int),
    {
        r.push(c);
    }
    r
}


proof fn lemma_trim_start_step(s: Seq<char>, i: int)
    requires
        0 <= i < s.len(),
        white_space(s[i]),
    ensures
        trim_start(s.subrange(i, s.len() as int)) == trim_start(s.subrange(i + 1, s.len() as int)),
{
    assert(s.subrange(i, s.len() as int).drop_first() =~= s.subrange(i + 1, s.len() as int));
}

proof fn lemma_trim_end_step(s: Seq<char>, j: int)
    requires
        0 < j <= s.len(),
        white_space(s[j - 1]),
    ensures
        trim_end(s.subrange(0, j)) == trim_end(s.subrange(0, j - 1)),
{
    assert(s.subrange(0, j).drop_last() =~= s.subrange(0, j - 1));
}

/// `line` without leading or trailing white space.
pub fn trim(line: &str) -> (r: String)
    ensures
        r@ == trimmed(line@),
{
    let cs = chars_of(line);
    let n = cs.len();
    let mut i: usize = 0;
    assert(line@.subrange(0, n as int) =~= line@);
    while i < n && is_space(cs[i])
        invariant
            cs@ == line@,
            n == cs.len(),
            i <= n,
            trim_start(line@) == trim_start(line@.subrange(i as int, n as int)),
        decreases n - i,
    {
        proof {
            lemma_trim_start_step(line@, i as int);
        }
        i = i + 1;
    }
    let ghost rest = line@.subrange(i as int, n as int);
    assert(trim_start(line@) == rest) by {
        if i < n {
            assert(rest[0] == line@[i as int]);
        } else {
            assert(rest.len() == 0);
        }
    }
    let mut j: usize = n;
    assert(rest.subrange(0, j - i) =~= rest);
    while j > i && is_space(cs[j - 1])
        invariant
            cs@ == line@,
            n == cs.len(),
            i <= j <= n,
            rest == line@.subrange(i as int, n as int),
            trim_end(rest) == trim_end(rest.subrange(0, j - i)),
        decreases j,
    {
        proof {
            lemma_trim_end_step(rest, j - i);
        }
        j = j - 1;
    }
    assert(trim_end(rest) == rest.subrange(0, j - i)) by {
        if j > i {
            assert(rest.subrange(0, j - i).last() == line@[j - 1]);
        }
    }
    assert(rest.subrange(0, j - i) =~= line@.subrange(i as int, j as int));
    let piece = line.substring_char(i, j);
    String::from_str(piece)
}

proof fn lemma_trim_start_idem(s: Seq<char>)
    ensures
        trim_start(trim_start(s)) == trim_start(s),
        trim_start(s).len() == 0 || !white_space(trim_start(s)[0]),
    decreases s.len(),
{
    if s.len() > 0 && white_space(s[0]) {
        lemma_trim_start_idem(s.drop_first());
    }
}

proof fn lemma_trim_end_keeps_start(s: Seq<char>)
    requires
        s.len() == 0 || !white_space(s[0]),
    ensures
        trim_end(s).len() == 0 || !white_space(trim_end(s)[0]),
        trim_start(trim_end(s)) == trim_end(s),
    decreases s.len(),
{
    if s.len() > 0 && white_space(s.last()) {
        lemma_trim_end_keeps_start(s.drop_last());
    }
}

proof fn lemma_trim_end_idem(s: Seq<char>)
    ensures
        trim_end(trim_end(s)) == trim_end(s),
    decreases s.len(),
{
    if s.len() > 0 && white_space(s.last()) {
        lemma_trim_end_idem(s.drop_last());
    }
}

/// Trimming a trimmed line leaves it as it is.
pub proof fn lemma_trimmed_idem(s: Seq<char>)
    ensures
        trimmed(trimmed(s)) == trimmed(s),
{
    let a = trim_start(s);
    lemma_trim_start_idem(s);
    assert(a.len() == 0 || !white_space(a[0]));
    lemma_trim_end_keeps_start(a);
    lemma_trim_end_idem(a);
}

/// A line of white space alone trims to nothing.
pub proof fn lemma_blank_trims_to_empty(s: Seq<char>)
    requires
        forall|i: int| 0 <= i < s.len() ==> white_space(#[trigger] s[i]),
    ensures
        trimmed(s).len() == 0,
    decreases s.len(),
{
    if s.len() > 0 {
        assert forall|i: int| 0 <= i < s.drop_first().len() implies white_space(#[trigger] s.drop_first()[i]) by {
            assert(s.drop_first()[i] == s[i + 1]);
        }
        lemma_blank_trims_to_empty(s.drop_first());
    } else {
        assert(trim_start(s) == s);
    }
}

/// The pieces of `s` between its newline characters: one more piece than
/// there are newlines.
pub open spec fn pieces(s: Seq<char>) -> Seq<Seq<char>>
    decreases s.len(),
{
    if s.len() == 0 {
        seq![Seq::empty()]
    } else if s.last() == '\n' {
        pieces(s.drop_last()).push(Seq::empty())
    } else {
        let p = pieces(s.drop_last());
        p.update(p.len() - 1, p.last().push(s.last()))
    }
}

/// `line` without one trailing carriage return, if it has one.
pub open spec fn strip_cr(line: Seq<char>) -> Seq<char> {
    if line.len() > 0 && line.last() == '\r' {
        line.drop_last()
    } else {
        line
    }
}

/// The lines of `s`: split at `\n` or `\r\n`, with no empty line after a
/// final line ending, and none at all for empty text.
pub open spec fn lines_of(s: Seq<char>) -> Seq<Seq<char>> {
    let p = pieces(s);
    let done = p.drop_last().map_values(|l: Seq<char>| strip_cr(l));
    if p.last().len() == 0 {
        done
    } else {
        done.push(p.last())
    }
}

/// The views of a sequence of strings.
pub open spec fn views(v: Seq<String>) -> Seq<Seq<char>> {
    v.map_values(|x: String| x@)
}

/// The lines of `text`, as `lines_of` describes them.
pub fn split_lines(text: &str) -> (r: Vec<String>)
    ensures
        views(r@) == lines_of(text@),
{
    let cs = chars_of(text);
    let n = cs.len();
    let mut out: Vec<String> = Vec::new();
    let mut start: usize = 0;
    let mut k: usize = 0;
    let ghost done: Seq<Seq<char>> = Seq::empty();
    assert(text@.subrange(0, 0) =~= Seq::<char>::empty());
    assert(pieces(Seq::<char>::empty()) =~= seq![Seq::<char>::empty()]);
    while k < n
        invariant
            cs@ == text@,
            n == cs.len(),
            start <= k <= n,
            pieces(text@.subrange(0, k as int)) == done.push(text@.subrange(start as int, k as int)),
            views(out@) == done.map_values(|l: Seq<char>| strip_cr(l)),
        decreases n - k,
    {
        let ghost pre = text@.subrange(0, k as int);
        let ghost cur = text@.subrange(0, k + 1);
        assert(cur.drop_last() =~= pre);
        if cs[k] == '\n' {
            let mut end = k;
            if end > start && cs[end - 1] == '\r' {
                end = end - 1;
            }
            let piece = String::from_str(text.substring_char(start, end));
            proof {
                let raw = text@.subrange(start as int, k as int);
                assert(strip_cr(raw) =~= piece@);
                assert(views(out@.push(piece)) =~= views(out@).push(piece@));
                assert(done.push(raw).map_values(|l: Seq<char>| strip_cr(l))
                    =~= done.map_values(|l: Seq<char>| strip_cr(l)).push(strip_cr(raw)));
                done = done.push(raw);
                assert(text@.subrange(k + 1, k + 1) =~= Seq::<char>::empty());
            }
            out.push(piece);
            start = k + 1;
        } else {
            proof {
                assert(text@.subrange(start as int, k + 1) =~= text@.subrange(start as int, k as int).push(text@[k as int]));
                assert(done.push(text@.subrange(start as int, k as int)).update(done.len() as int, text@.subrange(start as int, k + 1))
                    =~= done.push(text@.subrange(start as int, k + 1)));
            }
        }
        k = k + 1;
    }
    assert(text@.subrange(0, n as int) =~= text@);
    let ghost last = text@.subrange(start as int, n as int);
    assert(pieces(text@).drop_last() =~= done);
    if start < n {
        let piece = String::from_str(text.substring_char(start, n));
        proof {
            assert(views(out@.push(piece)) =~= views(out@).push(piece@));
        }
        out.push(piece);
    }
    out
}

/// The lines of `ls` joined by newline characters.
pub open spec fn joined(ls: Seq<Seq<char>>) -> Seq<char>
    decreases ls.len(),
{
    if ls.len() == 0 {
        Seq::empty()
    } else if ls.len() == 1 {
        ls[0]
    } else {
        joined(ls.drop_last()) + seq!['\n'] + ls.last()
    }
}


proof fn lemma_joined_push(ls: Seq<Seq<char>>, l: Seq<char>)
    ensures
        joined(ls.push(l)) == if ls.len() == 0 {
            l
        } else {
            joined(ls) + seq!['\n'] + l
        },
{
    assert(ls.push(l).drop_last() =~= ls);
}

/// `line` appended to `acc`, the join of `done`, keeps `acc` the join of
/// `done` with `line` after it.
pub(crate) proof fn lemma_join_step(done: Seq<Seq<char>>, acc: Seq<char>, line: Seq<char>, sep: Seq<char>)
    requires
        acc == joined(done),
        sep == (if done.len() == 0 { Seq::<char>::empty() } else { seq!['\n'] }),
    ensures
        acc + sep + line == joined(done.push(line)),
{
    lemma_joined_push(done, line);
    if done.len() == 0 {
        assert(acc + sep + line =~= line);
    }
}

/// The strings of `v` joined by newline characters.
pub fn join_lines(v: &Vec<String>) -> (r: String)
    ensures
        r@ == joined(views(v@)),
{
    let mut r = String::new();
    let mut i: usize = 0;
    assert(views(v@).subrange(0, 0) =~= Seq::<Seq<char>>::empty());
    while i < v.len()
        invariant
            i <= v.len(),
            r@ == joined(views(v@).subrange(0, i as int)),
        decreases v.len() - i,
    {
        let ghost before = r@;
        let ghost sep: Seq<char> = if i == 0 { Seq::empty() } else { seq!['\n'] };
        if i > 0 {
            proof {
                reveal_strlit("\n");
            }
            r.append("\n");
            assert(r@ =~= before + sep);
        }
        r.append(v[i].as_str());
        proof {
            lemma_join_step(views(v@).subrange(0, i as int), before, v@[i as int]@, sep);
            assert(views(v@).subrange(0, i as int).push(v@[i as int]@) =~= views(v@).subrange(0, i + 1));
            assert(r@ =~= before + sep + v@[i as int]@);
        }
        i = i + 1;
    }
    assert(views(v@).subrange(0, v.len() as int) =~= views(v@));
    r
}

/// The decimal digit for `d`, which is below ten.
pub open spec fn digit(d: nat) -> char {
    if d == 0 { '0' }
    else if d == 1 { '1' }
    else if d == 2 { '2' }
    else if d == 3 { '3' }
    else if d == 4 { '4' }
    else if d == 5 { '5' }
    else if d == 6 { '6' }
    else if d == 7 { '7' }
    else if d == 8 { '8' }
    else { '9' }
}

/// The decimal rendering of `n`, without sign or leading zeros.
pub open spec fn decimal_of(n: nat) -> Seq<char>
    decreases n,
{
    if n < 10 {
        seq![digit(n)]
    } else {
        decimal_of(n / 10) + seq![digit(n % 10)]
    }
}

fn digit_text(d: usize) -> (r: &'static str)
    requires
        d < 10,
    ensures
        r@ == seq![digit(d as nat)],
{
    let all = "0123456789";
    proof {
        reveal_strlit("0123456789");
    }
    let r = all.substring_char(d, d + 1);
    assert(r@ =~= seq![digit(d as nat)]);
    r
}

/// `n` in decimal.
pub fn decimal(n: usize) -> (r: String)
    ensures
        r@ == decimal_of(n as nat),
    decreases n,
{
    if n < 10 {
        String::from_str(digit_text(n))
    } else {
        let mut r = decimal(n / 10);
        r.append(digit_text(n % 10));
        r
    }
}


/// Whether `a` and `b` are the same text.
pub fn same_text(a: &str, b: &str) -> (r: bool)
    ensures
        r == (a@ == b@),
{
    String::from_str(a) == String::from_str(b)
}

} // verus!
