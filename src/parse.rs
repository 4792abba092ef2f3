//! Splitting text with inline `[text](tag)` spans into fragments.
use vstd::prelude::*;
use crate::text::{chars_of, string_of_range};

verus! {

/// One parsed unit: plain text (`tag` is `None`) or a `[text](tag)` span.
#[derive(Debug)]
pub struct Fragment {
    pub text: String,
    pub tag: Option<String>,
}

/// What a fragment denotes: its text and, for a span, its tag.
pub struct FragmentView {
    pub text: Seq<char>,
    pub tag: Option<Seq<char>>,
}

impl View for Fragment {
    type V = FragmentView;

    open spec fn view(&self) -> FragmentView {
        FragmentView {
            text: self.text@,
            tag: match self.tag {
                Some(t) => Some(t@),
                None => None,
            },
        }
    }
}

pub open spec fn plain(text: Seq<char>) -> FragmentView {
    FragmentView { text, tag: None }
}

/// The index of the first `c` in `s` at or after `i`, or `s.len()` if there is none.
pub open spec fn find_from(s: Seq<char>, c: char, i: int) -> int
    decreases s.len() - i,
{
    if i >= s.len() {
        s.len() as int
    } else if s[i] == c {
        i
    } else {
        find_from(s, c, i + 1)
    }
}

/// Scanning from `i` with `depth` brackets open, the index of the `]` that closes
/// the outermost one, or -1 if the text ends first.
pub open spec fn match_close(s: Seq<char>, i: int, depth: nat) -> int
    decreases s.len() - i,
{
    if i >= s.len() {
        -1
    } else if s[i] == '[' {
        match_close(s, i + 1, depth + 1)
    } else if s[i] == ']' {
        if depth <= 1 {
            i
        } else {
            match_close(s, i + 1, (depth - 1) as nat)
        }
    } else {
        match_close(s, i + 1, depth)
    }
}

pub proof fn lemma_find_from_bounds(s: Seq<char>, c: char, i: int)
    requires
        0 <= i,
    ensures
        i <= find_from(s, c, i) <= s.len() || (i > s.len() && find_from(s, c, i) == s.len()),
        find_from(s, c, i) < s.len() ==> s[find_from(s, c, i)] == c,
        forall|j: int| i <= j < find_from(s, c, i) ==> s[j] != c,
    decreases s.len() - i,
{
    if i < s.len() && s[i] != c {
        lemma_find_from_bounds(s, c, i + 1);
    }
}

pub proof fn lemma_match_close_bounds(s: Seq<char>, i: int, depth: nat)
    requires
        0 <= i,
    ensures
        match_close(s, i, depth) == -1 || (i <= match_close(s, i, depth) < s.len() && s[match_close(
            s,
            i,
            depth,
        )] == ']'),
    decreases s.len() - i,
{
    if i < s.len() {
        if s[i] == '[' {
            lemma_match_close_bounds(s, i + 1, depth + 1);
        } else if s[i] == ']' {
            if depth > 1 {
                lemma_match_close_bounds(s, i + 1, (depth - 1) as nat);
            }
        } else {
            lemma_match_close_bounds(s, i + 1, depth);
        }
    }
}

/// The fragments of `s` from position `pos` on.
///
/// Text up to the next `[` is plain. A `[` whose matching `]` (counting nested
/// brackets) is followed at once by `(` and later by `)` opens a span. A `[` with
/// a matching `]` but no such tag is a plain `"["`, and scanning goes on just after
/// it. A `[` without a matching `]` makes the rest of the text plain.
pub open spec fn parse_from(s: Seq<char>, pos: int) -> Seq<FragmentView>
    decreases s.len() - pos,
{
    if pos < 0 || pos >= s.len() {
        Seq::empty()
    } else {
        let o = find_from(s, '[', pos);
        let before = if o > pos {
            seq![plain(s.subrange(pos, o))]
        } else {
            Seq::empty()
        };
        if o >= s.len() {
            before
        } else {
            let c = match_close(s, o + 1, 1);
            if c < 0 {
                before.push(plain(s.subrange(o, s.len() as int)))
            } else if c + 1 < s.len() && s[c + 1] == '(' && find_from(s, ')', c + 2) < s.len() {
                let p = find_from(s, ')', c + 2);
                proof {
                    lemma_find_from_bounds(s, '[', pos);
                    lemma_match_close_bounds(s, o + 1, 1);
                    lemma_find_from_bounds(s, ')', c + 2);
                }
                before.push(
                    FragmentView { text: s.subrange(o + 1, c), tag: Some(s.subrange(c + 2, p)) },
                ).add(parse_from(s, p + 1))
            } else {
                proof {
                    lemma_find_from_bounds(s, '[', pos);
                }
                before.push(plain(seq!['['])).add(parse_from(s, o + 1))
            }
        }
    }
}

/// The fragments of `s`.
pub open spec fn parse_spec(s: Seq<char>) -> Seq<FragmentView> {
    parse_from(s, 0)
}

/// The source text of a fragment: its text, with `[text](tag)` written back for a span.
pub open spec fn source_of(f: FragmentView) -> Seq<char> {
    match f.tag {
        None => f.text,
        Some(t) => seq!['['] + f.text + seq![']', '('] + t + seq![')'],
    }
}

/// The source texts of `fs`, joined in order.
pub open spec fn join_sources(fs: Seq<FragmentView>) -> Seq<char>
    decreases fs.len(),
{
    if fs.len() == 0 {
        Seq::empty()
    } else {
        join_sources(fs.drop_last()) + source_of(fs.last())
    }
}

pub proof fn lemma_join_add(a: Seq<FragmentView>, b: Seq<FragmentView>)
    ensures
        join_sources(a + b) == join_sources(a) + join_sources(b),
    decreases b.len(),
{
    if b.len() == 0 {
        assert(a + b =~= a);
        assert(join_sources(b) =~= Seq::<char>::empty());
        assert(join_sources(a) + join_sources(b) =~= join_sources(a));
    } else {
        lemma_join_add(a, b.drop_last());
        assert((a + b).drop_last() =~= a + b.drop_last());
        assert((a + b).last() == b.last());
        assert(join_sources(a + b) =~= join_sources(a) + join_sources(b.drop_last()) + source_of(
            b.last(),
        ));
    }
}

proof fn lemma_join_one(f: FragmentView)
    ensures
        join_sources(seq![f]) == source_of(f),
{
    assert(seq![f].drop_last() =~= Seq::<FragmentView>::empty());
    assert(join_sources(Seq::<FragmentView>::empty()) =~= Seq::<char>::empty());
    assert(join_sources(seq![f]) =~= source_of(f));
}

/// The fragments of `s` from `pos` on give back, written out as source text,
/// exactly the characters of `s` from `pos` on.
pub proof fn lemma_parse_from_round_trip(s: Seq<char>, pos: int)
    requires
        0 <= pos <= s.len(),
    ensures
        join_sources(parse_from(s, pos)) == s.subrange(pos, s.len() as int),
    decreases s.len() - pos,
{
    let n = s.len() as int;
    if pos >= n {
        assert(join_sources(Seq::<FragmentView>::empty()) =~= Seq::<char>::empty());
        assert(s.subrange(pos, n) =~= Seq::<char>::empty());
        return;
    }
    let o = find_from(s, '[', pos);
    lemma_find_from_bounds(s, '[', pos);
    let before = if o > pos {
        seq![plain(s.subrange(pos, o))]
    } else {
        Seq::<FragmentView>::empty()
    };
    assert(join_sources(before) == s.subrange(pos, o)) by {
        if o > pos {
            lemma_join_one(plain(s.subrange(pos, o)));
        } else {
            assert(join_sources(Seq::<FragmentView>::empty()) =~= Seq::<char>::empty());
            assert(s.subrange(pos, o) =~= Seq::<char>::empty());
        }
    }
    if o >= n {
        return;
    }
    let c = match_close(s, o + 1, 1);
    lemma_match_close_bounds(s, o + 1, 1);
    if c < 0 {
        let f = plain(s.subrange(o, n));
        lemma_join_add(before, seq![f]);
        lemma_join_one(f);
        assert(before.push(f) =~= before + seq![f]);
        assert(s.subrange(pos, o) + s.subrange(o, n) =~= s.subrange(pos, n));
    } else if c + 1 < n && s[c + 1] == '(' && find_from(s, ')', c + 2) < n {
        let p = find_from(s, ')', c + 2);
        lemma_find_from_bounds(s, ')', c + 2);
        let f = FragmentView { text: s.subrange(o + 1, c), tag: Some(s.subrange(c + 2, p)) };
        lemma_parse_from_round_trip(s, p + 1);
        lemma_join_add(before, seq![f]);
        lemma_join_one(f);
        assert(before.push(f) =~= before + seq![f]);
        lemma_join_add(before.push(f), parse_from(s, p + 1));
        assert(s.subrange(pos, o) + source_of(f) + s.subrange(p + 1, n) =~= s.subrange(pos, n));
    } else {
        let f = plain(seq!['[']);
        lemma_parse_from_round_trip(s, o + 1);
        lemma_join_add(before, seq![f]);
        lemma_join_one(f);
        assert(before.push(f) =~= before + seq![f]);
        lemma_join_add(before.push(f), parse_from(s, o + 1));
        assert(s.subrange(pos, o) + seq!['['] + s.subrange(o + 1, n) =~= s.subrange(pos, n));
    }
}

/// Round trip: writing the fragments of any text back out as source text, with
/// `[text](tag)` restored for every span, gives the text back exactly.
pub proof fn lemma_parse_round_trip(s: Seq<char>)
    ensures
        join_sources(parse_spec(s)) == s,
{
    lemma_parse_from_round_trip(s, 0);
    assert(s.subrange(0, s.len() as int) =~= s);
}

pub(crate) fn find_char_from(v: &Vec<char>, c: char, from: usize) -> (r: usize)
    requires
        from <= v@.len(),
    ensures
        r == find_from(v@, c, from as int),
{
    let mut j: usize = from;
    while j < v.len()
        invariant
            from <= j <= v@.len(),
            find_from(v@, c, from as int) == find_from(v@, c, j as int),
        decreases v@.len() - j,
    {
        if v[j] == c {
            return j;
        }
        j = j + 1;
    }
    j
}

fn find_matching_close(v: &Vec<char>, from: usize) -> (r: Option<usize>)
    requires
        from <= v@.len(),
    ensures
        match r {
            Some(c) => c as int == match_close(v@, from as int, 1),
            None => match_close(v@, from as int, 1) == -1,
        },
{
    let mut j: usize = from;
    // brackets open beyond the first one
    let mut nested: usize = 0;
    while j < v.len()
        invariant
            from <= j <= v@.len(),
            nested <= j - from,
            match_close(v@, from as int, 1) == match_close(v@, j as int, (nested + 1) as nat),
        decreases v@.len() - j,
    {
        if v[j] == '[' {
            nested = nested + 1;
        } else if v[j] == ']' {
            if nested == 0 {
                return Some(j);
            }
            nested = nested - 1;
        }
        j = j + 1;
    }
    None
}

/// Splits `s` into its plain and tagged fragments, in order.
pub fn parse_text(s: &str) -> (r: Vec<Fragment>)
    ensures
        r@.map_values(|f: Fragment| f@) == parse_spec(s@),
{
    let v = chars_of(s);
    let n = v.len();
    let mut out: Vec<Fragment> = Vec::new();
    let mut cur: usize = 0;
    while cur < n
        invariant
            n == v@.len(),
            v@ == s@,
            cur <= n,
            out@.map_values(|f: Fragment| f@) + parse_from(v@, cur as int) == parse_spec(s@),
        decreases n - cur,
    {
        let ghost prev = out@.map_values(|f: Fragment| f@);
        let o = find_char_from(&v, '[', cur);
        proof {
            lemma_find_from_bounds(v@, '[', cur as int);
        }
        let ghost before = if o > cur {
            seq![plain(v@.subrange(cur as int, o as int))]
        } else {
            Seq::<FragmentView>::empty()
        };
        if o > cur {
            out.push(Fragment { text: string_of_range(&v, cur, o), tag: None });
        }
        assert(out@.map_values(|f: Fragment| f@) =~= prev + before);
        if o >= n {
            cur = n;
            assert(parse_from(v@, n as int) =~= Seq::<FragmentView>::empty());
            assert(out@.map_values(|f: Fragment| f@) + parse_from(v@, cur as int) =~= prev
                + before);
        } else {
            let close = find_matching_close(&v, o + 1);
            proof {
                lemma_match_close_bounds(v@, o + 1, 1);
            }
            match close {
                None => {
                    out.push(Fragment { text: string_of_range(&v, o, n), tag: None });
                    cur = n;
                    assert(parse_from(v@, n as int) =~= Seq::<FragmentView>::empty());
                    assert(out@.map_values(|f: Fragment| f@) + parse_from(v@, cur as int)
                        =~= prev + before.push(plain(v@.subrange(o as int, n as int))));
                },
                Some(c) => {
                    let mut p: usize = n;
                    if c + 1 < n && v[c + 1] == '(' {
                        p = find_char_from(&v, ')', c + 2);
                        proof {
                            lemma_find_from_bounds(v@, ')', (c + 2) as int);
                        }
                    }
                    if p < n {
                        let f = Fragment {
                            text: string_of_range(&v, o + 1, c),
                            tag: Some(string_of_range(&v, c + 2, p)),
                        };
                        out.push(f);
                        cur = p + 1;
                        assert(out@.map_values(|f: Fragment| f@) =~= prev + before.push(f@));
                    } else {
                        let mut t = String::new();
                        crate::text::push_char(&mut t, '[');
                        let f = Fragment { text: t, tag: None };
                        out.push(f);
                        cur = o + 1;
                        assert(f@ == plain(seq!['[']));
                        assert(out@.map_values(|f: Fragment| f@) =~= prev + before.push(f@));
                    }
                },
            }
        }
    }
    assert(parse_from(v@, cur as int) =~= Seq::<FragmentView>::empty());
    assert(out@.map_values(|f: Fragment| f@) =~= parse_spec(s@));
    out
}

} // verus!
