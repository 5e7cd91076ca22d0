//! Small verified building blocks for assembling source text.

use vstd::prelude::*;

verus! {

/// The views of a sequence of owned strings.
pub open spec fn views_of(parts: Seq<String>) -> Seq<Seq<char>> {
    parts.map_values(|p: String| p@)
}

/// The parts joined with `sep` between neighbours.
pub open spec fn spec_join(parts: Seq<Seq<char>>, sep: Seq<char>) -> Seq<char>
    decreases parts.len(),
{
    if parts.len() == 0 {
        Seq::empty()
    } else if parts.len() == 1 {
        parts[0]
    } else {
        spec_join(parts.drop_last(), sep) + sep + parts.last()
    }
}

proof fn lemma_join_step(parts: Seq<Seq<char>>, sep: Seq<char>, i: int)
    requires
        0 <= i < parts.len(),
    ensures
        i == 0 ==> spec_join(parts.take(i + 1), sep) == parts[0],
        i > 0 ==> spec_join(parts.take(i + 1), sep) == spec_join(parts.take(i), sep) + sep
            + parts[i],
{
    let pre = parts.take(i + 1);
    assert(pre.len() == i + 1);
    if i == 0 {
        assert(pre[0] == parts[0]);
    } else {
        assert(pre.drop_last() =~= parts.take(i));
        assert(pre.last() == parts[i]);
    }
}

/// Joins the parts with `sep` between neighbours.
pub fn join(parts: &Vec<String>, sep: &str) -> (r: String)
    ensures
        r@ == spec_join(views_of(parts@), sep@),
{
    let mut out = String::new();
    let mut i: usize = 0;
    while i < parts.len()
        invariant
            i <= parts.len(),
            out@ == spec_join(views_of(parts@).take(i as int), sep@),
        decreases parts.len() - i,
    {
        if i > 0 {
            out.append(sep);
        }
        out.append(parts[i].as_str());
        proof {
            let vs = views_of(parts@);
            assert(vs[i as int] == parts@[i as int]@);
            lemma_join_step(vs, sep@, i as int);
        }
        i = i + 1;
    }
    proof {
        assert(views_of(parts@).take(parts@.len() as int) =~= views_of(parts@));
    }
    out
}

/// Appending a string appends its view.
pub proof fn lemma_views_push(s: Seq<String>, x: String)
    ensures
        views_of(s.push(x)) =~= views_of(s).push(x@),
{
    assert forall|k: int| 0 <= k < s.len() + 1 implies views_of(s.push(x))[k] == views_of(
        s,
    ).push(x@)[k] by {
        assert(views_of(s.push(x))[k] == s.push(x)[k]@);
        if k < s.len() {
            assert(s.push(x)[k] == s[k]);
        } else {
            assert(s.push(x)[k] == x);
        }
    }
}

/// Concatenating string lists concatenates their views.
pub proof fn lemma_views_concat(a: Seq<String>, b: Seq<String>)
    ensures
        views_of(a + b) =~= views_of(a) + views_of(b),
{
    assert forall|k: int| 0 <= k < a.len() + b.len() implies views_of(a + b)[k] == (views_of(a)
        + views_of(b))[k] by {
        assert(views_of(a + b)[k] == (a + b)[k]@);
        if k < a.len() {
            assert((a + b)[k] == a[k]);
        } else {
            assert((a + b)[k] == b[k - a.len()]);
        }
    }
}

/// Whether some string in `parts` reads `name`.
pub open spec fn has_string(parts: Seq<String>, name: Seq<char>) -> bool {
    exists|i: int| 0 <= i < parts.len() && (#[trigger] parts[i])@ == name
}

/// Extending the scanned prefix by one string extends the search by that
/// string alone.
pub proof fn lemma_has_string_step(parts: Seq<String>, name: Seq<char>, i: int)
    requires
        0 <= i < parts.len(),
    ensures
        has_string(parts.take(i + 1), name) == (has_string(parts.take(i), name) || parts[i]@
            == name),
{
    let pre1 = parts.take(i + 1);
    let pre = parts.take(i);
    if has_string(pre, name) {
        let j = choose|j: int| 0 <= j < pre.len() && pre[j]@ == name;
        assert(pre1[j]@ == name);
    }
    if parts[i]@ == name {
        assert(pre1[i]@ == name);
    }
    if has_string(pre1, name) {
        let j = choose|j: int| 0 <= j < pre1.len() && pre1[j]@ == name;
        if j < i {
            assert(pre[j]@ == name);
        }
    }
}

/// Searching the strings themselves and searching their views agree.
pub proof fn lemma_has_string_is_contains(parts: Seq<String>, name: Seq<char>)
    ensures
        has_string(parts, name) == views_of(parts).contains(name),
{
    if has_string(parts, name) {
        let j = choose|j: int| 0 <= j < parts.len() && parts[j]@ == name;
        assert(views_of(parts)[j] == name);
    }
    if views_of(parts).contains(name) {
        let j = choose|j: int| 0 <= j < views_of(parts).len() && views_of(parts)[j] == name;
        assert(parts[j]@ == name);
    }
}

/// Whether some string in `v` reads like `x`.
pub fn contains_str(v: &Vec<String>, x: &String) -> (r: bool)
    ensures
        r == has_string(v@, x@),
{
    let mut found = false;
    let mut i: usize = 0;
    while i < v.len()
        invariant
            i <= v.len(),
            found == has_string(v@.take(i as int), x@),
        decreases v.len() - i,
    {
        proof {
            lemma_has_string_step(v@, x@, i as int);
        }
        if v[i] == *x {
            found = true;
        }
        i = i + 1;
    }
    proof {
        assert(v@.take(v@.len() as int) =~= v@);
    }
    found
}

/// Appends a copy of every string in `src` to `dst`.
pub fn append_clones(dst: &mut Vec<String>, src: &Vec<String>)
    ensures
        final(dst)@ == old(dst)@ + src@,
{
    let mut i: usize = 0;
    while i < src.len()
        invariant
            i <= src.len(),
            dst@ == old(dst)@ + src@.take(i as int),
        decreases src.len() - i,
    {
        dst.push(src[i].clone());
        proof {
            assert(dst@ =~= old(dst)@ + src@.take(i + 1));
        }
        i = i + 1;
    }
    proof {
        assert(old(dst)@ + src@.take(src@.len() as int) =~= old(dst)@ + src@);
    }
}

/// The decimal digit `d` as a character; `d` must be below ten.
pub open spec fn dec_digit(d: nat) -> char {
    if d == 0 {
        '0'
    } else if d == 1 {
        '1'
    } else if d == 2 {
        '2'
    } else if d == 3 {
        '3'
    } else if d == 4 {
        '4'
    } else if d == 5 {
        '5'
    } else if d == 6 {
        '6'
    } else if d == 7 {
        '7'
    } else if d == 8 {
        '8'
    } else {
        '9'
    }
}

/// The usual decimal notation of `n`, without sign or padding.
pub open spec fn dec_rep(n: nat) -> Seq<char>
    decreases n,
{
    if n < 10 {
        seq![dec_digit(n)]
    } else {
        dec_rep(n / 10) + seq![dec_digit(n % 10)]
    }
}

/// Appends the decimal notation of `n` to `out`.
pub fn push_dec(n: usize, out: &mut String)
    ensures
        final(out)@ == old(out)@ + dec_rep(n as nat),
    decreases n,
{
    if n >= 10 {
        push_dec(n / 10, out);
    }
    let ghost mid = out@;
    let d: usize = n % 10;
    if d == 0 {
        out.append("0");
        proof {
            reveal_strlit("0");
        }
    } else if d == 1 {
        out.append("1");
        proof {
            reveal_strlit("1");
        }
    } else if d == 2 {
        out.append("2");
        proof {
            reveal_strlit("2");
        }
    } else if d == 3 {
        out.append("3");
        proof {
            reveal_strlit("3");
        }
    } else if d == 4 {
        out.append("4");
        proof {
            reveal_strlit("4");
        }
    } else if d == 5 {
        out.append("5");
        proof {
            reveal_strlit("5");
        }
    } else if d == 6 {
        out.append("6");
        proof {
            reveal_strlit("6");
        }
    } else if d == 7 {
        out.append("7");
        proof {
            reveal_strlit("7");
        }
    } else if d == 8 {
        out.append("8");
        proof {
            reveal_strlit("8");
        }
    } else {
        out.append("9");
        proof {
            reveal_strlit("9");
        }
    }
    proof {
        assert(out@ =~= mid + seq![dec_digit((n % 10) as nat)]);
        if n < 10 {
            assert(out@ =~= old(out)@ + dec_rep(n as nat));
        } else {
            assert(mid == old(out)@ + dec_rep((n / 10) as nat));
            assert(out@ =~= old(out)@ + dec_rep(n as nat));
        }
    }
}

/// The decimal notation of `n` as an owned string.
pub fn dec_string(n: usize) -> (r: String)
    ensures
        r@ == dec_rep(n as nat),
{
    let mut out = String::new();
    push_dec(n, &mut out);
    proof {
        assert(out@ =~= dec_rep(n as nat));
    }
    out
}

} // verus!
