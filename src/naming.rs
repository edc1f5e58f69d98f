use vstd::prelude::*;
use vstd::string::{StrSliceExecFns, StringExecFns};
use crate::text::{decimal, decimal_of, lemma_decimal_injective};

verus! {

/// The token of a naming template that stands for the share's ordinal.
pub open spec fn placeholder() -> Seq<char> {
    seq!['{', '{', 'n', 'u', 'm', '}', '}']
}

/// The placeholder starts at position `i` of `t`.
pub open spec fn placeholder_at(t: Seq<char>, i: int) -> bool {
    0 <= i && i + 7 <= t.len() && t.subrange(i, i + 7) == placeholder()
}

/// `i` is the first position at which the placeholder starts.
pub open spec fn first_placeholder_at(t: Seq<char>, i: int) -> bool {
    placeholder_at(t, i) && forall|j: int| 0 <= j < i ==> !placeholder_at(t, j)
}

/// The file name of share `index` under template `t`: the first placeholder is
/// replaced by the decimal ordinal; a template without one is taken as it is.
pub open spec fn share_name(t: Seq<char>, index: nat) -> Seq<char> {
    if exists|i: int| placeholder_at(t, i) {
        let i = choose|i: int| first_placeholder_at(t, i);
        t.subrange(0, i) + decimal_of(index) + t.subrange(i + 7, t.len() as int)
    } else {
        t
    }
}

/// Under a template that holds the placeholder, distinct ordinals give
/// distinct file names: a split never writes two shares to one file.
pub proof fn share_names_distinct(t: Seq<char>, i: nat, j: nat)
    requires
        exists|p: int| placeholder_at(t, p),
        i != j,
    ensures
        share_name(t, i) != share_name(t, j),
{
    lemma_first_below(t, choose|p: int| placeholder_at(t, p));
    let p = choose|p: int| first_placeholder_at(t, p);
    let head = t.subrange(0, p);
    let tail = t.subrange(p + 7, t.len() as int);
    let a = share_name(t, i);
    let b = share_name(t, j);
    if a == b {
        assert(a == head + decimal_of(i) + tail);
        assert(b == head + decimal_of(j) + tail);
        let li = decimal_of(i).len() as int;
        let lj = decimal_of(j).len() as int;
        assert(a.len() == head.len() + li + tail.len());
        assert(b.len() == head.len() + lj + tail.len());
        assert(a.subrange(p, p + li) =~= decimal_of(i));
        assert(b.subrange(p, p + lj) =~= decimal_of(j));
        lemma_decimal_injective(i, j);
    }
}

proof fn lemma_first_below(t: Seq<char>, p: int)
    requires
        placeholder_at(t, p),
    ensures
        exists|q: int| first_placeholder_at(t, q),
    decreases p,
{
    if exists|j: int| 0 <= j < p && placeholder_at(t, j) {
        let j = choose|j: int| 0 <= j < p && placeholder_at(t, j);
        lemma_first_below(t, j);
    } else {
        assert(first_placeholder_at(t, p));
    }
}

/// The template used when none is given.
pub fn default_share_template() -> (r: String)
    ensures
        r@ == seq!['s', 'h', 'a', 'r', 'e', '_'] + placeholder(),
{
    proof {
        reveal_strlit("share_{{num}}");
    }
    let r = String::from_str("share_{{num}}");
    assert(r@ =~= seq!['s', 'h', 'a', 'r', 'e', '_'] + placeholder());
    r
}

fn placeholder_starts(t: &str, len: usize, i: usize) -> (r: bool)
    requires
        len == t@.len(),
        i + 7 <= len,
    ensures
        r == placeholder_at(t@, i as int),
{
    let r = t.get_char(i) == '{' && t.get_char(i + 1) == '{' && t.get_char(i + 2) == 'n'
        && t.get_char(i + 3) == 'u' && t.get_char(i + 4) == 'm' && t.get_char(i + 5) == '}'
        && t.get_char(i + 6) == '}';
    proof {
        let s = t@.subrange(i as int, i + 7);
        if r {
            assert(s =~= placeholder());
        } else {
            assert(s != placeholder()) by {
                if s == placeholder() {
                    assert(s[0] == t@[i as int] && s[1] == t@[i + 1] && s[2] == t@[i + 2]);
                    assert(s[3] == t@[i + 3] && s[4] == t@[i + 4] && s[5] == t@[i + 5]);
                    assert(s[6] == t@[i + 6]);
                }
            }
        }
    }
    r
}

/// The file name of share `index` under `template`.
pub fn share_file_name(template: &str, index: usize) -> (r: String)
    ensures
        r@ == share_name(template@, index as nat),
{
    let len = template.unicode_len();
    let mut i: usize = 0;
    while len >= 7 && i <= len - 7
        invariant
            len == template@.len(),
            i <= len,
            forall|j: int| 0 <= j < i ==> !placeholder_at(template@, j),
        decreases len - i,
    {
        if placeholder_starts(template, len, i) {
            proof {
                let t = template@;
                assert(first_placeholder_at(t, i as int));
                let c = choose|c: int| first_placeholder_at(t, c);
                assert(c == i as int) by {
                    if c < i as int {
                    } else if c > i as int {
                    }
                }
            }
            let mut r = String::from_str(template.substring_char(0, i));
            let digits = decimal(index);
            r.append(digits.as_str());
            r.append(template.substring_char(i + 7, len));
            return r;
        }
        i = i + 1;
    }
    proof {
        assert forall|j: int| !placeholder_at(template@, j) by {
            if 0 <= j < i {
            }
        }
    }
    String::from_str(template)
}

} // verus!
