//! Text helpers shared by the builder and the emitter: decimal rendering of
//! integers, boolean rendering, membership in a list of names, and joining
//! a list of texts with a separator.

use vstd::prelude::*;

verus! {

/// The decimal digit character for `d`, which must be below ten.
pub open spec fn dec_digit_char(d: nat) -> char {
    if d == 0 { '0' }
    else if d == 1 { '1' }
    else if d == 2 { '2' }
    else if d == 3 { '3' }
    else if d == 4 { '4' }
    else if d == 5 { '5' }
    else if d == 6 { '6' }
    else if d == 7 { '7' }
    else if d == 8 { '8' }
    else { '9' }
}

/// The decimal representation of `n`, most significant digit first, with no
/// leading zeros (zero itself is `"0"`).
pub open spec fn dec_rep(n: nat) -> Seq<char>
    decreases n,
{
    if n < 10 {
        seq![dec_digit_char(n)]
    } else {
        dec_rep(n / 10).push(dec_digit_char(n % 10))
    }
}

/// The rendering of a boolean constant.
pub open spec fn spec_bool_text(b: bool) -> Seq<char> {
    if b { "true"@ } else { "false"@ }
}

/// Holds when `name` occurs in `texts`.
pub open spec fn has_text(texts: Seq<Seq<char>>, name: Seq<char>) -> bool {
    exists|i: int| 0 <= i < texts.len() && texts[i] == name
}

/// Holds when no text occurs twice in `texts`.
pub open spec fn no_dup_texts(texts: Seq<Seq<char>>) -> bool {
    forall|i: int, j: int| 0 <= i < j < texts.len() ==> texts[i] != texts[j]
}

/// The position of the first occurrence of `n` in `texts` (meaningful only
/// when `n` occurs).
pub open spec fn first_occurrence(texts: Seq<Seq<char>>, n: Seq<char>) -> int
    decreases texts.len(),
{
    if texts.len() == 0 {
        0
    } else if texts[0] == n {
        0
    } else {
        1 + first_occurrence(texts.drop_first(), n)
    }
}

/// `parts` joined with `sep` between consecutive parts.
pub open spec fn spec_join(parts: Seq<Seq<char>>, sep: Seq<char>) -> Seq<char>
    decreases parts.len(),
{
    if parts.len() == 0 {
        Seq::empty()
    } else if parts.len() == 1 {
        parts[0]
    } else {
        parts[0] + sep + spec_join(parts.drop_first(), sep)
    }
}

/// The deep view of a list of names has one text per name.
pub proof fn lemma_deep_view_len(v: Vec<String>)
    ensures
        v.deep_view().len() == v@.len(),
{
}

/// The deep view of a list of names holds each name's text in place.
pub proof fn lemma_deep_view_index(v: Vec<String>, i: int)
    requires
        0 <= i < v@.len(),
    ensures
        v.deep_view()[i] == v@[i]@,
{
}

/// An empty list of names has the empty deep view.
pub proof fn lemma_deep_view_empty(v: Vec<String>)
    requires
        v@.len() == 0,
    ensures
        v.deep_view() == Seq::<Seq<char>>::empty(),
{
    assert(v.deep_view() =~= Seq::<Seq<char>>::empty());
}

/// Appending one name appends its text to the deep view.
pub proof fn lemma_deep_view_push(pre: Vec<String>, post: Vec<String>, x: String)
    requires
        post@ == pre@.push(x),
    ensures
        post.deep_view() == pre.deep_view().push(x@),
{
    assert forall|j: int| 0 <= j < post@.len() implies post.deep_view()[j]
        == pre.deep_view().push(x@)[j] by {
        assert(post.deep_view()[j] == post@[j]@);
        if j < pre@.len() {
            assert(pre.deep_view()[j] == pre@[j]@);
        }
    }
    assert(post.deep_view() =~= pre.deep_view().push(x@));
}

/// Concatenating two lists of names concatenates their deep views.
pub proof fn lemma_deep_view_concat(a: Vec<String>, b: Vec<String>, c: Vec<String>)
    requires
        c@ == a@ + b@,
    ensures
        c.deep_view() == a.deep_view() + b.deep_view(),
{
    assert forall|j: int| 0 <= j < c@.len() implies c.deep_view()[j]
        == (a.deep_view() + b.deep_view())[j] by {
        assert(c.deep_view()[j] == c@[j]@);
        if j < a@.len() {
            assert(a.deep_view()[j] == a@[j]@);
        } else {
            assert(b.deep_view()[j - a@.len()] == b@[j - a@.len()]@);
        }
    }
    assert(c.deep_view() =~= a.deep_view() + b.deep_view());
}

/// One decimal digit as a string slice.
fn digit_str(d: u64) -> (r: &'static str)
    requires
        d < 10,
    ensures
        r@ == seq![dec_digit_char(d as nat)],
{
    proof {
        reveal_strlit("0");
        reveal_strlit("1");
        reveal_strlit("2");
        reveal_strlit("3");
        reveal_strlit("4");
        reveal_strlit("5");
        reveal_strlit("6");
        reveal_strlit("7");
        reveal_strlit("8");
        reveal_strlit("9");
    }
    match d {
        0 => "0",
        1 => "1",
        2 => "2",
        3 => "3",
        4 => "4",
        5 => "5",
        6 => "6",
        7 => "7",
        8 => "8",
        _ => "9",
    }
}

/// Renders `n` in decimal, most significant digit first.
pub fn u64_to_string(n: u64) -> (r: String)
    ensures
        r@ == dec_rep(n as nat),
    decreases n,
{
    if n < 10 {
        digit_str(n).to_owned()
    } else {
        let mut s = u64_to_string(n / 10);
        s.append(digit_str(n % 10));
        proof {
            assert(dec_rep((n / 10) as nat) + seq![dec_digit_char((n % 10) as nat)]
                =~= dec_rep((n / 10) as nat).push(dec_digit_char((n % 10) as nat)));
        }
        s
    }
}

/// Renders a boolean constant as `true` or `false`.
pub fn bool_to_string(b: bool) -> (r: String)
    ensures
        r@ == spec_bool_text(b),
{
    if b {
        "true".to_owned()
    } else {
        "false".to_owned()
    }
}

/// Reports whether `name` occurs in `v`.
pub fn contains_text(v: &Vec<String>, name: &String) -> (r: bool)
    ensures
        r == has_text(v.deep_view(), name@),
{
    let mut i: usize = 0;
    while i < v.len()
        invariant
            i <= v.len(),
            forall|k: int| 0 <= k < i ==> v.deep_view()[k] != name@,
        decreases v.len() - i,
    {
        proof {
            assert(v.deep_view()[i as int] == v@[i as int]@);
        }
        if v[i].eq(name) {
            return true;
        }
        i += 1;
    }
    false
}

} // verus!
