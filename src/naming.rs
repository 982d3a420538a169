//! Names of the files written for one input.

use vstd::prelude::*;

verus! {

/// The four images made from one input, in the order they are written.
#[derive(Clone, Copy, Debug, PartialEq, Eq, Structural)]
pub enum Variant {
    Resized,
    Left,
    Right,
    Small,
}

/// The text put between the stem and the extension for each variant.
pub open spec fn suffix_of(v: Variant) -> Seq<char> {
    match v {
        Variant::Resized => seq![],
        Variant::Left => seq![' ', '-', ' ', 'L', 'e', 'f', 't'],
        Variant::Right => seq![' ', '-', ' ', 'R', 'i', 'g', 'h', 't'],
        Variant::Small => seq![' ', '-', ' ', 'S', 'm', 'a', 'l', 'l'],
    }
}

pub open spec fn png_extension() -> Seq<char> {
    seq!['.', 'p', 'n', 'g']
}

/// Index of the last `.` in `name`, or -1 when there is none.
pub open spec fn last_dot(name: Seq<char>) -> int
    decreases name.len(),
{
    if name.len() == 0 {
        -1
    } else if name.last() == '.' {
        name.len() - 1
    } else {
        last_dot(name.drop_last())
    }
}

/// A file name without its extension. The extension is what follows the last
/// `.`, unless that `.` opens the name (a hidden file has no extension).
pub open spec fn stem_of(name: Seq<char>) -> Seq<char> {
    if last_dot(name) > 0 {
        name.subrange(0, last_dot(name))
    } else {
        name
    }
}

/// `<stem><suffix>.png`
pub open spec fn output_name_of(stem: Seq<char>, v: Variant) -> Seq<char> {
    stem + suffix_of(v) + png_extension()
}

pub open spec fn variant_at(i: int) -> Variant {
    if i == 0 {
        Variant::Resized
    } else if i == 1 {
        Variant::Left
    } else if i == 2 {
        Variant::Right
    } else {
        Variant::Small
    }
}

/// The suffix that marks a variant.
pub fn suffix(v: Variant) -> (r: &'static str)
    ensures
        r@ == suffix_of(v),
{
    match v {
        Variant::Resized => {
            let s = "";
            proof {
                reveal_strlit("");
                assert(s@ =~= suffix_of(v));
            }
            s
        },
        Variant::Left => {
            let s = " - Left";
            proof {
                reveal_strlit(" - Left");
                assert(s@ =~= suffix_of(v));
            }
            s
        },
        Variant::Right => {
            let s = " - Right";
            proof {
                reveal_strlit(" - Right");
                assert(s@ =~= suffix_of(v));
            }
            s
        },
        Variant::Small => {
            let s = " - Small";
            proof {
                reveal_strlit(" - Small");
                assert(s@ =~= suffix_of(v));
            }
            s
        },
    }
}

/// The stem of a file name: the name up to its last `.`, or the whole name
/// when it holds no `.` or only a leading one.
pub fn file_stem(name: &str) -> (r: String)
    ensures
        r@ == stem_of(name@),
{
    let n = name.unicode_len();
    let mut i: usize = n;
    while i > 0 && name.get_char(i - 1) != '.'
        invariant
            i <= n,
            n == name@.len(),
            forall|j: int| i <= j < n ==> name@[j] != '.',
        decreases i,
    {
        i = i - 1;
    }
    proof {
        lemma_last_dot_in(name@, i as int);
    }
    if i > 1 {
        String::from_str(name.substring_char(0, i - 1))
    } else {
        String::from_str(name)
    }
}

proof fn lemma_last_dot_in(name: Seq<char>, i: int)
    requires
        0 <= i <= name.len(),
        forall|j: int| i <= j < name.len() ==> name[j] != '.',
        i > 0 ==> name[i - 1] == '.',
    ensures
        last_dot(name) == i - 1,
    decreases name.len(),
{
    if name.len() > 0 && name.last() != '.' {
        let d = name.drop_last();
        assert forall|j: int| i <= j < d.len() implies d[j] != '.' by {
            assert(d[j] == name[j]);
        }
        if i > 0 {
            assert(d[i - 1] == name[i - 1]);
        }
        lemma_last_dot_in(d, i);
    }
}

/// The name of the file that holds `v` for an input whose stem is `stem`.
pub fn output_name(stem: &str, v: Variant) -> (r: String)
    ensures
        r@ == output_name_of(stem@, v),
{
    let mut r = String::from_str(stem);
    r.append(suffix(v));
    let ext = ".png";
    proof {
        reveal_strlit(".png");
        assert(ext@ =~= png_extension());
    }
    r.append(ext);
    r
}

/// The four output names for the input file `name`, in variant order.
pub fn output_names(name: &str) -> (r: Vec<String>)
    ensures
        r.len() == 4,
        forall|i: int| 0 <= i < 4 ==> r[i]@ == output_name_of(stem_of(name@), variant_at(i)),
{
    let stem = file_stem(name);
    let mut r: Vec<String> = Vec::new();
    r.push(output_name(stem.as_str(), Variant::Resized));
    r.push(output_name(stem.as_str(), Variant::Left));
    r.push(output_name(stem.as_str(), Variant::Right));
    r.push(output_name(stem.as_str(), Variant::Small));
    r
}

/// The outputs of one input never share a name: two variants written for the
/// same stem get the same name only when they are the same variant.
pub proof fn lemma_output_names_distinct(stem: Seq<char>, a: Variant, b: Variant)
    ensures
        output_name_of(stem, a) == output_name_of(stem, b) <==> a == b,
{
    if output_name_of(stem, a) == output_name_of(stem, b) {
        let na = output_name_of(stem, a);
        let nb = output_name_of(stem, b);
        assert(na.len() == nb.len());
        let k = stem.len() as int;
        let la = suffix_of(a).len() as int;
        assert(suffix_of(a).len() == suffix_of(b).len());
        assert(na.subrange(k, k + la) =~= suffix_of(a));
        assert(nb.subrange(k, k + la) =~= suffix_of(b));
        if a != b {
            assert(suffix_of(a) != suffix_of(b)) by {
                if la == 8 {
                    assert(suffix_of(a)[3] != suffix_of(b)[3]);
                }
            }
        }
    }
}

} // verus!
