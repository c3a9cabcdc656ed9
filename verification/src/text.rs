//! Plain text helpers: decimal numbers, comparing and splitting words,
//! and lower-casing user input.
use vstd::prelude::*;

verus! {

/// The character of a decimal digit.
pub open spec fn digit_char(d: int) -> char {
    if d == 0 {
        '0'
    } else if d == 1 {
        '1'
    } else if d == 2 {
        '2'
    } else if d == 3 {
        '3'
    } else if d == 4 {
        '4'
    } else if d == 5 {
        '5'
    } else if d == 6 {
        '6'
    } else if d == 7 {
        '7'
    } else if d == 8 {
        '8'
    } else {
        '9'
    }
}

/// The decimal writing of a natural number, without leading zeros.
pub open spec fn decimal(n: nat) -> Seq<char>
    decreases n,
{
    if n < 10 {
        seq![digit_char(n as int)]
    } else {
        decimal(n / 10).push(digit_char((n % 10) as int))
    }
}

fn digit_text(d: u64) -> (r: &'static str)
    requires
        d < 10,
    ensures
        r@ == seq![digit_char(d as int)],
{
    proof {
        reveal_strlit("0");
        reveal_strlit("1");
        reveal_strlit("2");
        reveal_strlit("3");
        reveal_strlit("4");
        reveal_strlit("5");
        reveal_strlit("6");
        reveal_strlit("7");
        reveal_strlit("8");
        reveal_strlit("9");
    }
    if d == 0 {
        "0"
    } else if d == 1 {
        "1"
    } else if d == 2 {
        "2"
    } else if d == 3 {
        "3"
    } else if d == 4 {
        "4"
    } else if d == 5 {
        "5"
    } else if d == 6 {
        "6"
    } else if d == 7 {
        "7"
    } else if d == 8 {
        "8"
    } else {
        "9"
    }
}

/// The decimal text of `n`, as `format!("{}", n)` writes it.
pub fn decimal_text(n: u64) -> (r: String)
    ensures
        r@ == decimal(n as nat),
    decreases n,
{
    if n < 10 {
        digit_text(n).to_owned()
    } else {
        let mut s = decimal_text(n / 10);
        s.append(digit_text(n % 10));
        s
    }
}

/// Whether two texts hold the same characters.
pub fn same_text(a: &str, b: &str) -> (r: bool)
    ensures
        r == (a@ == b@),
{
    let n = a.unicode_len();
    if n != b.unicode_len() {
        return false;
    }
    let mut i: usize = 0;
    while i < n
        invariant
            n == a@.len(),
            n == b@.len(),
            i <= n,
            forall|k: int| 0 <= k < i ==> a@[k] == b@[k],
        decreases n - i,
    {
        if a.get_char(i) != b.get_char(i) {
            return false;
        }
        i = i + 1;
    }
    assert(a@ =~= b@);
    true
}

/// The pieces of `s` between single spaces, as `str::split(' ')` yields them:
/// one more piece than there are spaces, empty pieces included.
pub open spec fn split_spaces(s: Seq<char>) -> Seq<Seq<char>>
    decreases s.len(),
{
    if s.len() == 0 {
        seq![Seq::<char>::empty()]
    } else {
        let init = split_spaces(s.drop_last());
        if s.last() == ' ' {
            init.push(Seq::<char>::empty())
        } else {
            init.update(init.len() - 1, init.last().push(s.last()))
        }
    }
}

/// The characters of each text in a list.
pub open spec fn texts(v: Seq<String>) -> Seq<Seq<char>> {
    v.map_values(|t: String| t@)
}

pub proof fn lemma_split_nonempty(s: Seq<char>)
    ensures
        split_spaces(s).len() >= 1,
    decreases s.len(),
{
    if s.len() > 0 {
        lemma_split_nonempty(s.drop_last());
    }
}

/// Splits `s` at every space, as `s.split(' ')` does.
pub fn split_on_spaces(s: &str) -> (pieces: Vec<String>)
    ensures
        texts(pieces@) == split_spaces(s@),
{
    let n = s.unicode_len();
    let mut pieces: Vec<String> = Vec::new();
    let mut start: usize = 0;
    let mut i: usize = 0;
    assert(s@.take(0) =~= Seq::<char>::empty());
    assert(texts(pieces@) + seq![s@.subrange(0, 0)] =~= split_spaces(s@.take(0)));
    while i < n
        invariant
            n == s@.len(),
            start <= i <= n,
            texts(pieces@) + seq![s@.subrange(start as int, i as int)] == split_spaces(
                s@.take(i as int),
            ),
        decreases n - i,
    {
        let c = s.get_char(i);
        let ghost prev = s@.take(i as int);
        let ghost next = s@.take(i + 1);
        assert(next.drop_last() =~= prev);
        assert(next.last() == c);
        proof {
            lemma_split_nonempty(prev);
        }
        let ghost old_pieces = pieces@;
        if c == ' ' {
            let piece = s.substring_char(start, i).to_owned();
            pieces.push(piece);
            assert(texts(pieces@) =~= texts(old_pieces).push(s@.subrange(start as int, i as int)));
            i = i + 1;
            start = i;
            assert(s@.subrange(start as int, i as int) =~= Seq::<char>::empty());
            assert(texts(pieces@) + seq![s@.subrange(start as int, i as int)] =~= split_spaces(
                next,
            ));
        } else {
            assert(s@.subrange(start as int, i + 1) =~= s@.subrange(start as int, i as int).push(
                c,
            ));
            i = i + 1;
            assert(texts(pieces@) + seq![s@.subrange(start as int, i as int)] =~= split_spaces(
                next,
            ));
        }
    }
    assert(s@.take(n as int) =~= s@);
    let last = s.substring_char(start, n).to_owned();
    let ghost old_pieces = pieces@;
    pieces.push(last);
    assert(texts(pieces@) =~= texts(old_pieces) + seq![last@]);
    pieces
}

} // verus!

verus! {

/// The lower-case form of a text, as `str::to_lowercase` computes it from
/// the Unicode tables of the standard library.
pub uninterp spec fn lowercase(s: Seq<char>) -> Seq<char>;

/// Calls `str::to_lowercase`. Trusted: the result is the lower-case form of
/// the argument and depends on the argument alone; nothing more is stated
/// about the characters it holds.
#[verifier::external_body]
pub(crate) fn to_lowercase(s: &str) -> (r: String)
    ensures
        r@ == lowercase(s@),
{
    s.to_lowercase()
}

} // verus!

verus! {

/// `t` written `n` times in a row.
pub open spec fn repeated(t: Seq<char>, n: nat) -> Seq<char>
    decreases n,
{
    if n == 0 {
        Seq::<char>::empty()
    } else {
        repeated(t, (n - 1) as nat) + t
    }
}

/// `t` written `n` times in a row.
pub fn repeat_text(t: &str, n: u64) -> (r: String)
    ensures
        r@ == repeated(t@, n as nat),
{
    let mut r = "".to_owned();
    let mut i: u64 = 0;
    proof {
        reveal_strlit("");
    }
    while i < n
        invariant
            i <= n,
            r@ == repeated(t@, i as nat),
        decreases n - i,
    {
        r.append(t);
        i = i + 1;
    }
    r
}

/// How a position is shown: `(x, y)`.
pub open spec fn coord_text(c: (usize, usize)) -> Seq<char> {
    "("@ + decimal(c.0 as nat) + ", "@ + decimal(c.1 as nat) + ")"@
}

/// The positions shown one after the other, separated by `", "`.
pub open spec fn coords_joined(s: Seq<(usize, usize)>) -> Seq<char>
    decreases s.len(),
{
    if s.len() == 0 {
        Seq::<char>::empty()
    } else if s.len() == 1 {
        coord_text(s[0])
    } else {
        coords_joined(s.drop_last()) + ", "@ + coord_text(s.last())
    }
}

/// How a list of positions is shown (its `Debug` form): `[(x, y), ...]`.
pub open spec fn coords_list_text(s: Seq<(usize, usize)>) -> Seq<char> {
    "["@ + coords_joined(s) + "]"@
}

/// How a list of positions is shown, as `format!("{:?}", v)` writes it.
pub fn coords_text(v: &Vec<(usize, usize)>) -> (r: String)
    ensures
        r@ == coords_list_text(v@),
{
    let mut body = "".to_owned();
    proof {
        reveal_strlit("");
    }
    let mut i: usize = 0;
    while i < v.len()
        invariant
            i <= v@.len(),
            body@ == coords_joined(v@.take(i as int)),
        decreases v@.len() - i,
    {
        let (x, y) = v[i];
        assert(v@.take(i + 1).drop_last() =~= v@.take(i as int));
        if i > 0 {
            body.append(", ");
        }
        body.append("(");
        body.append(decimal_text(x as u64).as_str());
        body.append(", ");
        body.append(decimal_text(y as u64).as_str());
        body.append(")");
        proof {
            if i == 0 {
                assert(v@.take(1) =~= seq![v@[0]]);
            }
        }
        i = i + 1;
    }
    assert(v@.take(v@.len() as int) =~= v@);
    let mut r = "[".to_owned();
    r.append(body.as_str());
    r.append("]");
    r
}

} // verus!

verus! {

/// Pieces put back together with a single space between each two.
pub open spec fn join_spaces(pieces: Seq<Seq<char>>) -> Seq<char>
    decreases pieces.len(),
{
    if pieces.len() == 0 {
        Seq::<char>::empty()
    } else if pieces.len() == 1 {
        pieces[0]
    } else {
        join_spaces(pieces.drop_last()) + seq![' '] + pieces.last()
    }
}

/// Cutting a text at its spaces loses nothing: putting the pieces back
/// together with single spaces gives the text again.
pub proof fn lemma_split_join(s: Seq<char>)
    ensures
        join_spaces(split_spaces(s)) == s,
    decreases s.len(),
{
    if s.len() > 0 {
        let init = s.drop_last();
        lemma_split_join(init);
        lemma_split_nonempty(init);
        let p = split_spaces(init);
        if s.last() == ' ' {
            let q = p.push(Seq::<char>::empty());
            assert(q.drop_last() =~= p);
            assert(s =~= init + seq![' '] + Seq::<char>::empty());
        } else {
            let q = p.update(p.len() - 1, p.last().push(s.last()));
            if p.len() == 1 {
                assert(q =~= seq![p[0].push(s.last())]);
                assert(s =~= init.push(s.last()));
            } else {
                assert(q.drop_last() =~= p.drop_last());
                assert(join_spaces(p) == join_spaces(p.drop_last()) + seq![' '] + p.last());
                assert(s =~= init.push(s.last()));
                assert(s =~= join_spaces(p.drop_last()) + seq![' '] + p.last().push(s.last()));
            }
        }
    }
}

} // verus!
