//! Text: comparison, search, trimming and assembly of strings.
use vstd::prelude::*;

verus! {

/// `String::push` of std: appends one character.
pub assume_specification[ String::push ](s: &mut String, c: char)
    ensures
        final(s)@ == old(s)@.push(c),
;

/// Whether `needle` stands in `hay` at position `at`.
pub open spec fn occurs_at(hay: Seq<char>, needle: Seq<char>, at: int) -> bool {
    &&& 0 <= at
    &&& at + needle.len() <= hay.len()
    &&& hay.subrange(at, at + needle.len()) == needle
}

/// Whether `needle` stands anywhere in `hay`.
pub open spec fn occurs(hay: Seq<char>, needle: Seq<char>) -> bool {
    exists|at: int| occurs_at(hay, needle, at)
}

/// Whether `text` begins with `prefix`.
pub open spec fn begins_with(text: Seq<char>, prefix: Seq<char>) -> bool {
    prefix.len() <= text.len() && text.take(prefix.len() as int) == prefix
}

/// Whether two strings hold the same characters.
pub fn same(a: &str, b: &str) -> (r: bool)
    ensures
        r == (a@ == b@),
{
    a.to_owned() == b.to_owned()
}

/// The characters of a string, in order.
pub fn chars_of(s: &str) -> (v: Vec<char>)
    ensures
        v@ == s@,
{
    let mut v: Vec<char> = Vec::new();
    for c in it: s.chars()
        invariant
            v@ == it.seq().take(it.index()),
            it.seq() == s@,
    {
        v.push(c);
        assert(it.seq().take(it.index() + 1) == it.seq().take(it.index()).push(c));
    }
    assert(s@.take(s@.len() as int) == s@);
    v
}

/// The string of the characters `chars[from..to]`.
pub fn text_of(chars: &Vec<char>, from: usize, to: usize) -> (s: String)
    requires
        from <= to <= chars@.len(),
    ensures
        s@ == chars@.subrange(from as int, to as int),
{
    let mut s = String::new();
    let mut i: usize = from;
    while i < to
        invariant
            from <= i <= to <= chars@.len(),
            s@ == chars@.subrange(from as int, i as int),
        decreases to - i,
    {
        s.push(chars[i]);
        i = i + 1;
        assert(s@ == chars@.subrange(from as int, i as int));
    }
    s
}

/// Whether the characters `needle` stand in `hay` at position `at`.
fn stands_at(hay: &Vec<char>, needle: &Vec<char>, at: usize) -> (r: bool)
    requires
        at + needle@.len() <= hay@.len(),
    ensures
        r == occurs_at(hay@, needle@, at as int),
{
    let total: usize = hay.len();
    let mut i: usize = 0;
    while i < needle.len()
        invariant
            i <= needle@.len(),
            at + needle@.len() <= hay@.len() == total,
            forall|k: int| 0 <= k < i ==> hay@[at + k] == needle@[k],
        decreases needle@.len() - i,
    {
        if hay[at + i] != needle[i] {
            assert(hay@.subrange(at as int, at + needle@.len())[i as int] != needle@[i as int]);
            return false;
        }
        i = i + 1;
    }
    assert(hay@.subrange(at as int, at + needle@.len()) =~= needle@);
    true
}

/// Whether `needle` stands anywhere in `hay`; the empty string stands everywhere.
pub fn contains(hay: &str, needle: &str) -> (r: bool)
    ensures
        r == occurs(hay@, needle@),
{
    let h = chars_of(hay);
    let n = chars_of(needle);
    if n.len() > h.len() {
        return false;
    }
    let last: usize = h.len() - n.len();
    let mut at: usize = 0;
    while at <= last
        invariant
            h@ == hay@,
            n@ == needle@,
            n@.len() <= h@.len(),
            last == h@.len() - n@.len(),
            at <= last + 1,
            forall|k: int| 0 <= k < at ==> !occurs_at(h@, n@, k),
        decreases last + 1 - at,
    {
        if stands_at(&h, &n, at) {
            return true;
        }
        if at == last {
            return false;
        }
        at = at + 1;
    }
    false
}

/// Whether `text` begins with `prefix`.
pub fn starts_with(text: &str, prefix: &str) -> (r: bool)
    ensures
        r == begins_with(text@, prefix@),
{
    let t = chars_of(text);
    let p = chars_of(prefix);
    if p.len() > t.len() {
        return false;
    }
    let r = stands_at(&t, &p, 0);
    assert(t@.subrange(0int, 0int + p@.len()) == t@.take(p@.len() as int));
    r
}

/// Whether a character counts as white space: the control characters for tab
/// and line ends, the space, and the spaces and separators of Unicode.
pub open spec fn is_white(c: char) -> bool {
    let n = c as int;
    ||| 0x09 <= n <= 0x0D
    ||| n == 0x20
    ||| n == 0x85
    ||| n == 0xA0
    ||| n == 0x1680
    ||| 0x2000 <= n <= 0x200A
    ||| n == 0x2028
    ||| n == 0x2029
    ||| n == 0x202F
    ||| n == 0x205F
    ||| n == 0x3000
}

/// Whether `inner` is `text` without the white space at both ends.
pub open spec fn is_trimmed(text: Seq<char>, inner: Seq<char>) -> bool {
    exists|from: int, to: int| #[trigger] trims(text, from, to) && inner == text.subrange(from, to)
}

/// Whether `from..to` is what is left of a text without its outer white space.
pub open spec fn trims(text: Seq<char>, from: int, to: int) -> bool {
    &&& 0 <= from <= to <= text.len()
    &&& forall|i: int| 0 <= i < from ==> is_white(#[trigger] text[i])
    &&& forall|i: int| to <= i < text.len() ==> is_white(#[trigger] text[i])
    &&& from < to ==> !is_white(text[from]) && !is_white(text[to - 1])
}

fn white(c: char) -> (r: bool)
    ensures
        r == is_white(c),
{
    let n: u32 = c as u32;
    (0x09 <= n && n <= 0x0D) || n == 0x20 || n == 0x85 || n == 0xA0 || n == 0x1680 || (0x2000 <= n
        && n <= 0x200A) || n == 0x2028 || n == 0x2029 || n == 0x202F || n == 0x205F || n == 0x3000
}

/// The text without the white space at both ends.
pub fn trim(text: &str) -> (s: String)
    ensures
        is_trimmed(text@, s@),
{
    let c = chars_of(text);
    let mut to: usize = c.len();
    while to > 0 && white(c[to - 1])
        invariant
            to <= c@.len(),
            forall|i: int| to <= i < c@.len() ==> is_white(#[trigger] c@[i]),
        decreases to,
    {
        to = to - 1;
    }
    let mut from: usize = 0;
    while from < to && white(c[from])
        invariant
            from <= to <= c@.len(),
            forall|i: int| 0 <= i < from ==> is_white(#[trigger] c@[i]),
            to > 0 ==> !is_white(c@[to - 1]),
        decreases to - from,
    {
        from = from + 1;
    }
    assert(trims(text@, from as int, to as int));
    text_of(&c, from, to)
}

/// There is only one way to trim a text.
pub proof fn trimmed_is_unique(text: Seq<char>, a: Seq<char>, b: Seq<char>)
    requires
        is_trimmed(text, a),
        is_trimmed(text, b),
    ensures
        a == b,
{
    let (f, t) = choose|f: int, t: int| #[trigger] trims(text, f, t) && a == text.subrange(f, t);
    let (g, u) = choose|g: int, u: int| #[trigger] trims(text, g, u) && b == text.subrange(g, u);
    if f < t {
        assert(g < u) by {
            if g == u {
                assert(is_white(text[f]));
            }
        }
        assert(f == g) by {
            if f < g {
                assert(is_white(text[f]));
            }
            if g < f {
                assert(is_white(text[g]));
            }
        }
        assert(t == u) by {
            if t < u {
                assert(is_white(text[u - 1]));
            }
            if u < t {
                assert(is_white(text[t - 1]));
            }
        }
    } else {
        if g < u {
            assert(is_white(text[g]));
        }
        assert(a =~= b);
    }
}

/// A text has another in it exactly if it is that one with something, or nothing,
/// on either side, and begins with it if there is nothing in front.
pub proof fn texts_have_others_in_them(hay: Seq<char>, needle: Seq<char>)
    ensures
        occurs(hay, needle) <==> exists|a: Seq<char>, b: Seq<char>|
            hay == #[trigger] (a + needle + b),
        begins_with(hay, needle) <==> exists|b: Seq<char>| hay == #[trigger] (needle + b),
{
    if occurs(hay, needle) {
        let at = choose|at: int| occurs_at(hay, needle, at);
        let a = hay.take(at);
        let b = hay.skip(at + needle.len());
        assert forall|i: int| 0 <= i < hay.len() implies hay[i] == (a + needle + b)[i] by {
            if at <= i < at + needle.len() {
                assert(hay.subrange(at, at + needle.len())[i - at] == hay[i]);
            }
        }
        assert(hay =~= a + needle + b);
    }
    if exists|a: Seq<char>, b: Seq<char>| hay == #[trigger] (a + needle + b) {
        let (a, b) = choose|a: Seq<char>, b: Seq<char>| hay == #[trigger] (a + needle + b);
        assert(hay.subrange(a.len() as int, (a.len() + needle.len()) as int) =~= needle);
        assert(occurs_at(hay, needle, a.len() as int));
    }
    if begins_with(hay, needle) {
        assert(hay =~= needle + hay.skip(needle.len() as int));
    }
    if exists|b: Seq<char>| hay == #[trigger] (needle + b) {
        let b = choose|b: Seq<char>| hay == #[trigger] (needle + b);
        assert(hay.take(needle.len() as int) =~= needle);
    }
}

/// A trimmed text neither begins nor ends with white space, and only white space
/// was taken away.
pub proof fn trimmed_texts_have_no_white_ends(text: Seq<char>, inner: Seq<char>)
    requires
        is_trimmed(text, inner),
    ensures
        inner.len() > 0 ==> !is_white(inner[0]) && !is_white(inner.last()),
        exists|a: Seq<char>, b: Seq<char>|
            text == #[trigger] (a + inner + b) && (forall|i: int|
                0 <= i < a.len() ==> is_white(#[trigger] a[i])) && (forall|i: int|
                0 <= i < b.len() ==> is_white(#[trigger] b[i])),
        is_white(' ') && is_white('\t') && is_white('\n') && is_white('\r') && !is_white('a')
            && !is_white('0'),
{
    let (from, to) = choose|from: int, to: int|
        #[trigger] trims(text, from, to) && inner == text.subrange(from, to);
    let a = text.take(from);
    let b = text.skip(to);
    assert(text =~= a + inner + b);
    assert forall|i: int| 0 <= i < b.len() implies is_white(#[trigger] b[i]) by {
        assert(b[i] == text[to + i]);
    }
}

} // verus!
