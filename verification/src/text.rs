//! Whitespace trimming and space-separated tokenization of command lines,
//! together with the sequence-level functions that specify them.

use vstd::prelude::*;
use vstd::string::StrSliceExecFns;
use vstd::string::StringExecFns;

verus! {

/// A character that trimming removes from the ends of a line.
pub open spec fn is_blank(c: char) -> bool {
    c == ' ' || c == '\t' || c == '\n' || c == '\r'
}

/// The line without its leading blank characters.
pub open spec fn trim_start_spec(s: Seq<char>) -> Seq<char>
    decreases s.len(),
{
    if s.len() > 0 && is_blank(s[0]) {
        trim_start_spec(s.drop_first())
    } else {
        s
    }
}

/// The line without its trailing blank characters.
pub open spec fn trim_end_spec(s: Seq<char>) -> Seq<char>
    decreases s.len(),
{
    if s.len() > 0 && is_blank(s.last()) {
        trim_end_spec(s.drop_last())
    } else {
        s
    }
}

/// The line without leading and trailing blank characters.
pub open spec fn trim_spec(s: Seq<char>) -> Seq<char> {
    trim_end_spec(trim_start_spec(s))
}

/// The pieces of `s` between its spaces, in order.  Every space is a
/// separator, so consecutive spaces produce empty pieces and the empty
/// line produces a single empty piece.
pub open spec fn split_spec(s: Seq<char>) -> Seq<Seq<char>>
    decreases s.len(),
{
    if s.len() == 0 {
        seq![Seq::<char>::empty()]
    } else if s[0] == ' ' {
        seq![Seq::<char>::empty()] + split_spec(s.drop_first())
    } else {
        let rest = split_spec(s.drop_first());
        seq![seq![s[0]] + rest.first()] + rest.drop_first()
    }
}

/// The tokens of a raw command line: trim it, then split it on spaces.
pub open spec fn tokens_of(s: Seq<char>) -> Seq<Seq<char>> {
    split_spec(trim_spec(s))
}

pub proof fn lemma_split_len(s: Seq<char>)
    ensures
        split_spec(s).len() >= 1,
    decreases s.len(),
{
    if s.len() == 0 {
    } else {
        lemma_split_len(s.drop_first());
    }
}

pub proof fn lemma_split_no_space(s: Seq<char>)
    requires
        forall|i: int| 0 <= i < s.len() ==> s[i] != ' ',
    ensures
        split_spec(s) == seq![s],
    decreases s.len(),
{
    if s.len() == 0 {
        assert(s =~= Seq::<char>::empty());
        assert(split_spec(s) =~= seq![s]);
    } else {
        let d = s.drop_first();
        assert(forall|i: int| 0 <= i < d.len() ==> d[i] == s[i + 1] && d[i] != ' ');
        lemma_split_no_space(d);
        assert(seq![s[0]] + d =~= s);
        assert(split_spec(d).drop_first() =~= Seq::<Seq<char>>::empty());
        assert(split_spec(s) =~= seq![s]);
    }
}

pub proof fn lemma_split_at_space(s: Seq<char>, i: int)
    requires
        0 <= i < s.len(),
        s[i] == ' ',
        forall|j: int| 0 <= j < i ==> s[j] != ' ',
    ensures
        split_spec(s) == seq![s.subrange(0, i)] + split_spec(s.subrange(i + 1, s.len() as int)),
    decreases i,
{
    if i == 0 {
        assert(s.subrange(0, 0) =~= Seq::<char>::empty());
        assert(s.drop_first() =~= s.subrange(1, s.len() as int));
        assert(split_spec(s) =~= seq![s.subrange(0, 0)] + split_spec(
            s.subrange(1, s.len() as int),
        ));
    } else {
        let d = s.drop_first();
        assert(forall|j: int| 0 <= j < d.len() ==> d[j] == s[j + 1]);
        lemma_split_at_space(d, i - 1);
        let rest = split_spec(d);
        assert(rest == seq![d.subrange(0, i - 1)] + split_spec(d.subrange(i, d.len() as int)));
        assert(rest.first() == d.subrange(0, i - 1));
        assert(rest.drop_first() =~= split_spec(d.subrange(i, d.len() as int)));
        assert(seq![s[0]] + d.subrange(0, i - 1) =~= s.subrange(0, i));
        assert(d.subrange(i, d.len() as int) =~= s.subrange(i + 1, s.len() as int));
        assert(split_spec(s) =~= seq![s.subrange(0, i)] + split_spec(
            s.subrange(i + 1, s.len() as int),
        ));
    }
}

pub proof fn lemma_trim_start_at(s: Seq<char>, i: int)
    requires
        0 <= i <= s.len(),
        forall|j: int| 0 <= j < i ==> is_blank(s[j]),
        i == s.len() || !is_blank(s[i]),
    ensures
        trim_start_spec(s) == s.subrange(i, s.len() as int),
    decreases i,
{
    if i == 0 {
        assert(s.subrange(0, s.len() as int) =~= s);
    } else {
        let d = s.drop_first();
        assert(forall|j: int| 0 <= j < d.len() ==> d[j] == s[j + 1]);
        lemma_trim_start_at(d, i - 1);
        assert(d.subrange(i - 1, d.len() as int) =~= s.subrange(i, s.len() as int));
    }
}

pub proof fn lemma_trim_end_at(s: Seq<char>, i: int)
    requires
        0 <= i <= s.len(),
        forall|j: int| i <= j < s.len() ==> is_blank(s[j]),
        i == 0 || !is_blank(s[i - 1]),
    ensures
        trim_end_spec(s) == s.subrange(0, i),
    decreases s.len() - i,
{
    if i == s.len() {
        assert(s.subrange(0, s.len() as int) =~= s);
    } else {
        let d = s.drop_last();
        assert(forall|j: int| 0 <= j < d.len() ==> d[j] == s[j]);
        lemma_trim_end_at(d, i);
        assert(d.subrange(0, i) =~= s.subrange(0, i));
    }
}

fn is_blank_char(c: char) -> (r: bool)
    ensures
        r == is_blank(c),
{
    c == ' ' || c == '\t' || c == '\n' || c == '\r'
}

/// Character-by-character string equality, against the views.
pub fn str_eq(a: &str, b: &str) -> (r: bool)
    ensures
        r == (a@ == b@),
{
    let n = a.unicode_len();
    let m = b.unicode_len();
    if n != m {
        return false;
    }
    let mut i: usize = 0;
    while i < n
        invariant
            i <= n,
            n == a@.len(),
            n == b@.len(),
            forall|j: int| 0 <= j < i ==> a@[j] == b@[j],
        decreases n - i,
    {
        if a.get_char(i) != b.get_char(i) {
            return false;
        }
        i = i + 1;
    }
    proof {
        assert(a@ =~= b@);
    }
    true
}

/// Trims the line and splits it on spaces, as `tokens_of` describes.
pub fn tokenize(s: &str) -> (tokens: Vec<String>)
    ensures
        tokens.deep_view() == tokens_of(s@),
        tokens.len() >= 1,
{
    let len = s.unicode_len();
    let mut start: usize = 0;
    while start < len && is_blank_char(s.get_char(start))
        invariant
            start <= len,
            len == s@.len(),
            forall|j: int| 0 <= j < start ==> is_blank(s@[j]),
        decreases len - start,
    {
        start = start + 1;
    }
    let mut end: usize = len;
    while end > start && is_blank_char(s.get_char(end - 1))
        invariant
            start <= end <= len,
            len == s@.len(),
            forall|j: int| end <= j < len ==> is_blank(s@[j]),
        decreases end,
    {
        end = end - 1;
    }
    proof {
        lemma_trim_start_at(s@, start as int);
        let t0 = s@.subrange(start as int, len as int);
        lemma_trim_end_at(t0, end as int - start as int);
        assert(t0.subrange(0, end as int - start as int) =~= s@.subrange(
            start as int,
            end as int,
        ));
    }
    let t = s.substring_char(start, end);
    let m = end - start;
    assert(t@ == trim_spec(s@));
    let mut tokens: Vec<String> = Vec::new();
    let mut cur: usize = 0;
    proof {
        assert(tokens.deep_view() =~= Seq::<Seq<char>>::empty());
        assert(t@.subrange(0, m as int) =~= t@);
        assert(tokens.deep_view() + split_spec(t@) =~= split_spec(t@));
    }
    loop
        invariant_except_break
            cur <= m,
            m == t@.len(),
            t@ == trim_spec(s@),
            tokens.deep_view() + split_spec(t@.subrange(cur as int, m as int)) == split_spec(t@),
        ensures
            tokens.deep_view() == tokens_of(s@),
            tokens.len() >= 1,
        decreases m - cur,
    {
        let mut j = cur;
        while j < m && t.get_char(j) != ' '
            invariant
                cur <= j <= m,
                m == t@.len(),
                forall|k: int| cur <= k < j ==> t@[k] != ' ',
            decreases m - j,
        {
            j = j + 1;
        }
        let ghost prev = tokens.deep_view();
        let tok = String::from_str(t.substring_char(cur, j));
        tokens.push(tok);
        proof {
            assert(tokens.deep_view() =~= prev.push(tok@));
            let rem = t@.subrange(cur as int, m as int);
            assert(forall|k: int| 0 <= k < rem.len() && k < j - cur ==> rem[k] == t@[k + cur]);
            if j < m {
                lemma_split_at_space(rem, j - cur);
                assert(rem.subrange(0, j - cur) =~= t@.subrange(cur as int, j as int));
                assert(rem.subrange(j - cur + 1, rem.len() as int) =~= t@.subrange(
                    j as int + 1,
                    m as int,
                ));
                assert(prev.push(tok@) + split_spec(t@.subrange(j as int + 1, m as int)) =~= prev
                    + split_spec(rem));
            } else {
                lemma_split_no_space(rem);
                assert(tok@ =~= rem);
                assert(prev.push(tok@) =~= prev + split_spec(rem));
            }
            lemma_split_len(trim_spec(s@));
        }
        if j < m {
            cur = j + 1;
        } else {
            break ;
        }
    }
    tokens
}

} // verus!
